//! Value handles, each tagged with the kind of value it names.
//!
//! A handle owns nothing: the node it names belongs to the engine. Its kind
//! is fixed when it is made and is carried by the Rust type that wraps it.

use vstd::prelude::*;
use crate::types::{
    AnyType, ArrayType, BasicType, FloatType, FunctionType, IntType, PointerType, Shape,
    StructType, VectorType,
};

verus! {

/// The instruction codes.
#[derive(Clone, Copy, Debug, PartialEq, Eq, Structural)]
pub enum InstructionOpcode {
    Add,
    AddrSpaceCast,
    Alloca,
    And,
    AShr,
    AtomicCmpXchg,
    AtomicRMW,
    BitCast,
    Br,
    Call,
    CallBr,
    CatchPad,
    CatchRet,
    CatchSwitch,
    CleanupPad,
    CleanupRet,
    ExtractElement,
    ExtractValue,
    FNeg,
    FAdd,
    FCmp,
    FDiv,
    Fence,
    FMul,
    FPExt,
    FPToSI,
    FPToUI,
    FPTrunc,
    Freeze,
    FRem,
    FSub,
    GetElementPtr,
    ICmp,
    IndirectBr,
    InsertElement,
    InsertValue,
    IntToPtr,
    Invoke,
    LandingPad,
    Load,
    LShr,
    Mul,
    Or,
    Phi,
    PtrToInt,
    Resume,
    Return,
    SDiv,
    Select,
    SExt,
    Shl,
    ShuffleVector,
    SIToFP,
    SRem,
    Store,
    Sub,
    Switch,
    Trunc,
    UDiv,
    UIToFP,
    Unreachable,
    URem,
    UserOp1,
    UserOp2,
    VAArg,
    Xor,
    ZExt,
}

/// Where a node comes from.
#[derive(Clone, Copy, Debug, PartialEq, Eq, Structural)]
pub enum Handle {
    /// A node that the provider of the module made and numbered: a constant, a
    /// parameter, a function, an instruction made elsewhere.
    Given(u64),
    /// The instruction that the builder with the given cursor emitted as its
    /// `index`-th.
    Emitted { cursor: u64, index: usize },
}

/// A reference to a value: its node and, where the node is an instruction,
/// the instruction's code.
#[derive(Clone, Copy, Debug, PartialEq, Eq, Structural)]
pub struct ValueRef {
    pub handle: Handle,
    pub opcode: Option<InstructionOpcode>,
}

impl ValueRef {
    /// A reference to a node that is no instruction.
    pub fn given(id: u64) -> (r: ValueRef)
        ensures
            r == (ValueRef { handle: Handle::Given(id), opcode: None }),
    {
        ValueRef { handle: Handle::Given(id), opcode: None }
    }

    /// The instruction behind this reference: `Some` exactly where the node is
    /// an instruction, with that instruction's code.
    pub fn as_instruction(&self) -> (r: Option<InstructionValue>)
        ensures
            r == (match self.opcode {
                Some(opcode) => Some(InstructionValue { handle: self.handle, opcode }),
                None => None,
            }),
    {
        match self.opcode {
            Some(opcode) => Some(InstructionValue { handle: self.handle, opcode }),
            None => None,
        }
    }
}

/// An instruction, whether or not it yields a value.
#[derive(Clone, Copy, Debug, PartialEq, Eq, Structural)]
pub struct InstructionValue {
    pub handle: Handle,
    pub opcode: InstructionOpcode,
}

impl InstructionValue {
    /// An instruction that was made apart from any builder.
    pub fn new(id: u64, opcode: InstructionOpcode) -> (r: InstructionValue)
        ensures
            r == (InstructionValue { handle: Handle::Given(id), opcode }),
    {
        InstructionValue { handle: Handle::Given(id), opcode }
    }

    /// The instruction's code.
    pub fn get_opcode(&self) -> (r: InstructionOpcode)
        ensures
            r == self.opcode,
    {
        self.opcode
    }

    /// The reference that names the instruction.
    pub open spec fn value_ref(&self) -> ValueRef {
        ValueRef { handle: self.handle, opcode: Some(self.opcode) }
    }

    /// The reference to the node behind the handle.
    pub fn as_value_ref(&self) -> (r: ValueRef)
        ensures
            r == self.value_ref(),
    {
        ValueRef { handle: self.handle, opcode: Some(self.opcode) }
    }
}

/// The mathematical content of a value handle: the node, the shape of its
/// type and, for an integer constant whose value is known, that value.
pub ghost struct ValueView {
    pub handle: ValueRef,
    pub ty: Shape,
    pub constant: Option<u64>,
}

/// The kinds of value. An array and a structure are the two kinds of
/// aggregate.
#[derive(Clone, Copy, Debug, PartialEq, Eq, Structural)]
pub enum ValueKind {
    Int,
    Float,
    Pointer,
    Vector,
    Array,
    Struct,
}

impl Shape {
    /// The kind of the values of this shape: none where the shape is not
    /// basic.
    pub open spec fn kind(self) -> Option<ValueKind> {
        match self {
            Shape::Int { .. } => Some(ValueKind::Int),
            Shape::Float { .. } => Some(ValueKind::Float),
            Shape::Pointer { .. } => Some(ValueKind::Pointer),
            Shape::Vector { .. } => Some(ValueKind::Vector),
            Shape::Array { .. } => Some(ValueKind::Array),
            Shape::Struct { .. } => Some(ValueKind::Struct),
            _ => None,
        }
    }
}

/// An integer value. `constant` holds the value where the node is a constant
/// that the provider told the value of.
#[derive(Clone, Copy, Debug, PartialEq, Eq, Structural)]
pub struct IntValue {
    pub handle: ValueRef,
    pub ty: IntType,
    pub constant: Option<u64>,
}

/// A floating-point value.
#[derive(Clone, Copy, Debug, PartialEq, Eq, Structural)]
pub struct FloatValue {
    pub handle: ValueRef,
    pub ty: FloatType,
}

/// A pointer value.
#[derive(Clone, Debug, PartialEq, Eq)]
pub struct PointerValue {
    pub handle: ValueRef,
    pub ty: PointerType,
}

/// A vector value.
#[derive(Clone, Debug, PartialEq, Eq)]
pub struct VectorValue {
    pub handle: ValueRef,
    pub ty: VectorType,
}

/// An array value.
#[derive(Clone, Debug, PartialEq, Eq)]
pub struct ArrayValue {
    pub handle: ValueRef,
    pub ty: ArrayType,
}

/// A structure value.
#[derive(Clone, Debug, PartialEq, Eq)]
pub struct StructValue {
    pub handle: ValueRef,
    pub ty: StructType,
}

/// An aggregate: an array or a structure.
#[derive(Clone, Debug, PartialEq, Eq)]
pub enum AggregateValue {
    ArrayValue(ArrayValue),
    StructValue(StructValue),
}

/// Any value of a basic type.
#[derive(Clone, Debug, PartialEq, Eq)]
pub enum BasicValueEnum {
    ArrayValue(ArrayValue),
    IntValue(IntValue),
    FloatValue(FloatValue),
    PointerValue(PointerValue),
    StructValue(StructValue),
    VectorValue(VectorValue),
}

/// A phi node: a placeholder that joins the values that come in along the
/// edges into its block.
#[derive(Clone, Debug, PartialEq, Eq)]
pub struct PhiValue {
    pub handle: ValueRef,
    pub ty: AnyType,
}

/// A function, as the target of a call.
#[derive(Clone, Debug, PartialEq, Eq)]
pub struct FunctionValue {
    pub handle: ValueRef,
    pub ty: FunctionType,
}

impl View for IntValue {
    type V = ValueView;

    open spec fn view(&self) -> ValueView {
        ValueView { handle: self.handle, ty: self.ty@, constant: self.constant }
    }
}

impl View for FloatValue {
    type V = ValueView;

    open spec fn view(&self) -> ValueView {
        ValueView { handle: self.handle, ty: self.ty@, constant: None }
    }
}

impl View for PointerValue {
    type V = ValueView;

    open spec fn view(&self) -> ValueView {
        ValueView { handle: self.handle, ty: self.ty@, constant: None }
    }
}

impl View for VectorValue {
    type V = ValueView;

    open spec fn view(&self) -> ValueView {
        ValueView { handle: self.handle, ty: self.ty@, constant: None }
    }
}

impl View for ArrayValue {
    type V = ValueView;

    open spec fn view(&self) -> ValueView {
        ValueView { handle: self.handle, ty: self.ty@, constant: None }
    }
}

impl View for StructValue {
    type V = ValueView;

    open spec fn view(&self) -> ValueView {
        ValueView { handle: self.handle, ty: self.ty@, constant: None }
    }
}

impl View for AggregateValue {
    type V = ValueView;

    open spec fn view(&self) -> ValueView {
        match self {
            AggregateValue::ArrayValue(v) => v@,
            AggregateValue::StructValue(v) => v@,
        }
    }
}

impl View for BasicValueEnum {
    type V = ValueView;

    open spec fn view(&self) -> ValueView {
        match self {
            BasicValueEnum::ArrayValue(v) => v@,
            BasicValueEnum::IntValue(v) => v@,
            BasicValueEnum::FloatValue(v) => v@,
            BasicValueEnum::PointerValue(v) => v@,
            BasicValueEnum::StructValue(v) => v@,
            BasicValueEnum::VectorValue(v) => v@,
        }
    }
}

impl View for PhiValue {
    type V = ValueView;

    open spec fn view(&self) -> ValueView {
        ValueView { handle: self.handle, ty: self.ty@, constant: None }
    }
}

impl View for FunctionValue {
    type V = ValueView;

    open spec fn view(&self) -> ValueView {
        ValueView { handle: self.handle, ty: self.ty@, constant: None }
    }
}

impl IntValue {
    /// An integer value whose value is not known here.
    pub fn new(handle: ValueRef, ty: IntType) -> (r: IntValue)
        ensures
            r == (IntValue { handle, ty, constant: None }),
    {
        IntValue { handle, ty, constant: None }
    }

    /// An integer constant of a known value.
    pub fn new_constant(handle: ValueRef, ty: IntType, value: u64) -> (r: IntValue)
        ensures
            r == (IntValue { handle, ty, constant: Some(value) }),
    {
        IntValue { handle, ty, constant: Some(value) }
    }

    /// The reference to the node behind the handle.
    pub fn as_value_ref(&self) -> (r: ValueRef)
        ensures
            r == self.handle,
    {
        self.handle
    }

    /// The type of the value.
    pub fn get_type(&self) -> (r: IntType)
        ensures
            r == self.ty,
    {
        self.ty
    }

    /// The instruction that yields the value: `Some` exactly where the node is
    /// an instruction.
    pub fn as_instruction(&self) -> (r: Option<InstructionValue>)
        ensures
            r == (match self.handle.opcode {
                Some(opcode) => Some(InstructionValue { handle: self.handle.handle, opcode }),
                None => None,
            }),
    {
        self.handle.as_instruction()
    }

    /// The value as a value of any basic kind.
    pub fn as_basic_value_enum(&self) -> (r: BasicValueEnum)
        ensures
            r == BasicValueEnum::IntValue(*self),
    {
        BasicValueEnum::IntValue(*self)
    }
}

impl FloatValue {
    /// The floating-point value of type `ty` that `handle` names.
    pub fn new(handle: ValueRef, ty: FloatType) -> (r: FloatValue)
        ensures
            r == (FloatValue { handle, ty }),
    {
        FloatValue { handle, ty }
    }

    /// The reference to the node behind the handle.
    pub fn as_value_ref(&self) -> (r: ValueRef)
        ensures
            r == self.handle,
    {
        self.handle
    }

    /// The type of the value.
    pub fn get_type(&self) -> (r: FloatType)
        ensures
            r == self.ty,
    {
        self.ty
    }

    /// The instruction that yields the value: `Some` exactly where the node is
    /// an instruction.
    pub fn as_instruction(&self) -> (r: Option<InstructionValue>)
        ensures
            r == (match self.handle.opcode {
                Some(opcode) => Some(InstructionValue { handle: self.handle.handle, opcode }),
                None => None,
            }),
    {
        self.handle.as_instruction()
    }

    /// The value as a value of any basic kind.
    pub fn as_basic_value_enum(&self) -> (r: BasicValueEnum)
        ensures
            r == BasicValueEnum::FloatValue(*self),
    {
        BasicValueEnum::FloatValue(*self)
    }
}

impl PointerValue {
    /// The pointer of type `ty` that `handle` names.
    pub fn new(handle: ValueRef, ty: PointerType) -> (r: PointerValue)
        ensures
            r == (PointerValue { handle, ty }),
    {
        PointerValue { handle, ty }
    }

    /// The reference to the node behind the handle.
    pub fn as_value_ref(&self) -> (r: ValueRef)
        ensures
            r == self.handle,
    {
        self.handle
    }

    /// The type of the value.
    pub fn get_type(&self) -> (r: PointerType)
        ensures
            r@ == self.ty@,
    {
        self.ty.duplicate()
    }

    /// The instruction that yields the value: `Some` exactly where the node is
    /// an instruction.
    pub fn as_instruction(&self) -> (r: Option<InstructionValue>)
        ensures
            r == (match self.handle.opcode {
                Some(opcode) => Some(InstructionValue { handle: self.handle.handle, opcode }),
                None => None,
            }),
    {
        self.handle.as_instruction()
    }

    /// The value as a value of any basic kind.
    pub fn as_basic_value_enum(&self) -> (r: BasicValueEnum)
        ensures
            r@ == self@,
            r is PointerValue,
    {
        BasicValueEnum::PointerValue(PointerValue { handle: self.handle, ty: self.ty.duplicate() })
    }
}

impl VectorValue {
    /// The vector of type `ty` that `handle` names.
    pub fn new(handle: ValueRef, ty: VectorType) -> (r: VectorValue)
        ensures
            r == (VectorValue { handle, ty }),
    {
        VectorValue { handle, ty }
    }

    /// The reference to the node behind the handle.
    pub fn as_value_ref(&self) -> (r: ValueRef)
        ensures
            r == self.handle,
    {
        self.handle
    }

    /// The type of the value.
    pub fn get_type(&self) -> (r: VectorType)
        ensures
            r@ == self.ty@,
    {
        self.ty.duplicate()
    }

    /// The value as a value of any basic kind.
    pub fn as_basic_value_enum(&self) -> (r: BasicValueEnum)
        ensures
            r@ == self@,
            r is VectorValue,
    {
        BasicValueEnum::VectorValue(VectorValue { handle: self.handle, ty: self.ty.duplicate() })
    }
}

impl ArrayValue {
    /// The array of type `ty` that `handle` names.
    pub fn new(handle: ValueRef, ty: ArrayType) -> (r: ArrayValue)
        ensures
            r == (ArrayValue { handle, ty }),
    {
        ArrayValue { handle, ty }
    }

    /// The reference to the node behind the handle.
    pub fn as_value_ref(&self) -> (r: ValueRef)
        ensures
            r == self.handle,
    {
        self.handle
    }

    /// The type of the value.
    pub fn get_type(&self) -> (r: ArrayType)
        ensures
            r@ == self.ty@,
    {
        self.ty.duplicate()
    }

    /// The value as a value of any basic kind.
    pub fn as_basic_value_enum(&self) -> (r: BasicValueEnum)
        ensures
            r@ == self@,
            r is ArrayValue,
    {
        BasicValueEnum::ArrayValue(ArrayValue { handle: self.handle, ty: self.ty.duplicate() })
    }

    /// The value as an aggregate.
    pub fn as_aggregate_value(&self) -> (r: AggregateValue)
        ensures
            r@ == self@,
            r is ArrayValue,
    {
        AggregateValue::ArrayValue(ArrayValue { handle: self.handle, ty: self.ty.duplicate() })
    }
}

impl StructValue {
    /// The structure of type `ty` that `handle` names.
    pub fn new(handle: ValueRef, ty: StructType) -> (r: StructValue)
        ensures
            r == (StructValue { handle, ty }),
    {
        StructValue { handle, ty }
    }

    /// The reference to the node behind the handle.
    pub fn as_value_ref(&self) -> (r: ValueRef)
        ensures
            r == self.handle,
    {
        self.handle
    }

    /// The type of the value.
    pub fn get_type(&self) -> (r: StructType)
        ensures
            r@ == self.ty@,
    {
        self.ty.duplicate()
    }

    /// The value as a value of any basic kind.
    pub fn as_basic_value_enum(&self) -> (r: BasicValueEnum)
        ensures
            r@ == self@,
            r is StructValue,
    {
        BasicValueEnum::StructValue(StructValue { handle: self.handle, ty: self.ty.duplicate() })
    }

    /// The value as an aggregate.
    pub fn as_aggregate_value(&self) -> (r: AggregateValue)
        ensures
            r@ == self@,
            r is StructValue,
    {
        AggregateValue::StructValue(StructValue { handle: self.handle, ty: self.ty.duplicate() })
    }
}

impl AggregateValue {
    /// The reference to the node behind the handle.
    pub fn as_value_ref(&self) -> (r: ValueRef)
        ensures
            r == self@.handle,
    {
        match self {
            AggregateValue::ArrayValue(v) => v.handle,
            AggregateValue::StructValue(v) => v.handle,
        }
    }

    /// The type of the value.
    pub fn get_type(&self) -> (r: BasicType)
        ensures
            r@ == self@.ty,
    {
        match self {
            AggregateValue::ArrayValue(v) => BasicType::Array(v.ty.duplicate()),
            AggregateValue::StructValue(v) => BasicType::Struct(v.ty.duplicate()),
        }
    }
}

impl BasicValueEnum {
    /// The value of type `ty` that `handle` names, under the kind that `ty`
    /// has.
    pub fn new(handle: ValueRef, ty: BasicType) -> (r: BasicValueEnum)
        ensures
            r@ == (ValueView { handle, ty: ty@, constant: None }),
    {
        match ty {
            BasicType::Array(ty) => BasicValueEnum::ArrayValue(ArrayValue { handle, ty }),
            BasicType::Float(ty) => BasicValueEnum::FloatValue(FloatValue { handle, ty }),
            BasicType::Int(ty) => BasicValueEnum::IntValue(IntValue { handle, ty, constant: None }),
            BasicType::Pointer(ty) => BasicValueEnum::PointerValue(PointerValue { handle, ty }),
            BasicType::Struct(ty) => BasicValueEnum::StructValue(StructValue { handle, ty }),
            BasicType::Vector(ty) => BasicValueEnum::VectorValue(VectorValue { handle, ty }),
        }
    }

    /// The kind that the value is tagged with.
    pub fn kind(&self) -> (r: ValueKind)
        ensures
            Some(r) == self@.ty.kind(),
    {
        match self {
            BasicValueEnum::ArrayValue(_) => ValueKind::Array,
            BasicValueEnum::IntValue(_) => ValueKind::Int,
            BasicValueEnum::FloatValue(_) => ValueKind::Float,
            BasicValueEnum::PointerValue(_) => ValueKind::Pointer,
            BasicValueEnum::StructValue(_) => ValueKind::Struct,
            BasicValueEnum::VectorValue(_) => ValueKind::Vector,
        }
    }

    /// The reference to the node behind the handle.
    pub fn as_value_ref(&self) -> (r: ValueRef)
        ensures
            r == self@.handle,
    {
        match self {
            BasicValueEnum::ArrayValue(v) => v.handle,
            BasicValueEnum::IntValue(v) => v.handle,
            BasicValueEnum::FloatValue(v) => v.handle,
            BasicValueEnum::PointerValue(v) => v.handle,
            BasicValueEnum::StructValue(v) => v.handle,
            BasicValueEnum::VectorValue(v) => v.handle,
        }
    }

    /// The type of the value.
    pub fn get_type(&self) -> (r: BasicType)
        ensures
            r@ == self@.ty,
    {
        match self {
            BasicValueEnum::ArrayValue(v) => BasicType::Array(v.ty.duplicate()),
            BasicValueEnum::IntValue(v) => BasicType::Int(v.ty),
            BasicValueEnum::FloatValue(v) => BasicType::Float(v.ty),
            BasicValueEnum::PointerValue(v) => BasicType::Pointer(v.ty.duplicate()),
            BasicValueEnum::StructValue(v) => BasicType::Struct(v.ty.duplicate()),
            BasicValueEnum::VectorValue(v) => BasicType::Vector(v.ty.duplicate()),
        }
    }

    /// The instruction that yields the value: `Some` exactly where the node is
    /// an instruction.
    pub fn as_instruction(&self) -> (r: Option<InstructionValue>)
        ensures
            r == (match self@.handle.opcode {
                Some(opcode) => Some(InstructionValue { handle: self@.handle.handle, opcode }),
                None => None,
            }),
    {
        self.as_value_ref().as_instruction()
    }

    /// Narrows to an integer value: `Some` exactly where this is one.
    pub fn into_int_value(self) -> (r: Option<IntValue>)
        ensures
            r == (match self {
                BasicValueEnum::IntValue(v) => Some(v),
                _ => None,
            }),
            r is Some <==> self@.ty is Int,
    {
        match self {
            BasicValueEnum::IntValue(v) => Some(v),
            _ => None,
        }
    }

    /// Narrows to a floating-point value: `Some` exactly where this is one.
    pub fn into_float_value(self) -> (r: Option<FloatValue>)
        ensures
            r == (match self {
                BasicValueEnum::FloatValue(v) => Some(v),
                _ => None,
            }),
            r is Some <==> self@.ty is Float,
    {
        match self {
            BasicValueEnum::FloatValue(v) => Some(v),
            _ => None,
        }
    }

    /// Narrows to a pointer value: `Some` exactly where this is one.
    pub fn into_pointer_value(self) -> (r: Option<PointerValue>)
        ensures
            r == (match self {
                BasicValueEnum::PointerValue(v) => Some(v),
                _ => None,
            }),
            r is Some <==> self@.ty is Pointer,
    {
        match self {
            BasicValueEnum::PointerValue(v) => Some(v),
            _ => None,
        }
    }

    /// Narrows to a vector value: `Some` exactly where this is one.
    pub fn into_vector_value(self) -> (r: Option<VectorValue>)
        ensures
            r == (match self {
                BasicValueEnum::VectorValue(v) => Some(v),
                _ => None,
            }),
            r is Some <==> self@.ty is Vector,
    {
        match self {
            BasicValueEnum::VectorValue(v) => Some(v),
            _ => None,
        }
    }

    /// Narrows to an aggregate: `Some` exactly where this is an array or a
    /// structure.
    pub fn into_aggregate_value(self) -> (r: Option<AggregateValue>)
        ensures
            r == (match self {
                BasicValueEnum::ArrayValue(v) => Some(AggregateValue::ArrayValue(v)),
                BasicValueEnum::StructValue(v) => Some(AggregateValue::StructValue(v)),
                _ => None,
            }),
            r is Some <==> (self@.ty is Array || self@.ty is Struct),
    {
        match self {
            BasicValueEnum::ArrayValue(v) => Some(AggregateValue::ArrayValue(v)),
            BasicValueEnum::StructValue(v) => Some(AggregateValue::StructValue(v)),
            _ => None,
        }
    }
}

impl PhiValue {
    /// The phi node of type `ty` that `handle` names.
    pub fn new(handle: ValueRef, ty: AnyType) -> (r: PhiValue)
        ensures
            r == (PhiValue { handle, ty }),
    {
        PhiValue { handle, ty }
    }

    /// The reference to the node behind the handle.
    pub fn as_value_ref(&self) -> (r: ValueRef)
        ensures
            r == self.handle,
    {
        self.handle
    }

    /// The phi node as a value of its type: `Some` exactly where that type is
    /// basic.
    pub fn as_basic_value(&self) -> (r: Option<BasicValueEnum>)
        ensures
            r is Some <==> self@.ty.is_basic(),
            r matches Some(v) ==> v@ == self@,
    {
        match &self.ty {
            AnyType::Basic(t) => Some(BasicValueEnum::new(self.handle, t.duplicate())),
            _ => None,
        }
    }
}

impl FunctionValue {
    /// The function of type `ty` that `handle` names.
    pub fn new(handle: ValueRef, ty: FunctionType) -> (r: FunctionValue)
        ensures
            r == (FunctionValue { handle, ty }),
    {
        FunctionValue { handle, ty }
    }

    /// The reference to the node behind the handle.
    pub fn as_value_ref(&self) -> (r: ValueRef)
        ensures
            r == self.handle,
    {
        self.handle
    }

    /// The type of the value.
    pub fn get_type(&self) -> (r: FunctionType)
        ensures
            r@ == self.ty@,
            r.return_shape() == self.ty.return_shape(),
    {
        self.ty.duplicate()
    }
}

/// The kind that a value handle is tagged with goes by the shape of its type,
/// and by nothing else.
pub proof fn lemma_kind_follows_shape(v: BasicValueEnum)
    ensures
        v is ArrayValue <==> v@.ty is Array,
        v is IntValue <==> v@.ty is Int,
        v is FloatValue <==> v@.ty is Float,
        v is PointerValue <==> v@.ty is Pointer,
        v is StructValue <==> v@.ty is Struct,
        v is VectorValue <==> v@.ty is Vector,
        v@.ty.is_basic(),
        v@.ty.kind() is Some,
{
}

} // verus!
