//! What a builder records of each instruction that it emits.

use vstd::prelude::*;
use crate::basic_block::BasicBlock;
use crate::types::{AnyType, Shape};
use crate::values::{InstructionOpcode, InstructionValue, ValueKind, ValueRef};

verus! {

/// How two integers are compared.
#[derive(Clone, Copy, Debug, PartialEq, Eq, Structural)]
pub enum IntPredicate {
    EQ,
    NE,
    UGT,
    UGE,
    ULT,
    ULE,
    SGT,
    SGE,
    SLT,
    SLE,
}

/// How two floating-point numbers are compared.
#[derive(Clone, Copy, Debug, PartialEq, Eq, Structural)]
pub enum FloatPredicate {
    PredicateFalse,
    OEQ,
    OGT,
    OGE,
    OLT,
    OLE,
    ONE,
    ORD,
    UNO,
    UEQ,
    UGT,
    UGE,
    ULT,
    ULE,
    UNE,
    PredicateTrue,
}

/// The orderings of a memory fence.
#[derive(Clone, Copy, Debug, PartialEq, Eq, Structural)]
pub enum AtomicOrdering {
    NotAtomic,
    Unordered,
    Monotonic,
    Acquire,
    Release,
    AcquireRelease,
    SequentiallyConsistent,
}

/// The operations of a builder, each with what it takes besides values,
/// blocks and a type.
#[allow(inconsistent_fields)]
#[derive(Clone, Copy, Debug, PartialEq, Eq, Structural)]
pub enum Operation {
    Return,
    Call { tail_call: bool },
    GetElementPointer,
    Phi,
    Store,
    Load,
    StackAllocation,
    HeapAllocation,
    ArrayHeapAllocation,
    StackAllocatedArray,
    Free,
    Insert { opcode: InstructionOpcode },
    IntDiv,
    FloatDiv,
    IntAdd,
    FloatAdd,
    Xor,
    And,
    Or,
    IntSub,
    FloatSub,
    IntMul,
    FloatMul,
    Cast { opcode: InstructionOpcode },
    PointerCast,
    IntCompare { predicate: IntPredicate },
    FloatCompare { predicate: FloatPredicate },
    UnconditionalBranch,
    ConditionalBranch,
    IntNeg,
    FloatNeg,
    Not,
    ExtractValue { index: u32 },
    InsertValue { index: u32 },
    ExtractElement,
    InsertElement,
    Unreachable,
    Fence { ordering: AtomicOrdering, num: i32 },
    IsNull,
    IsNotNull,
    IntToPtr,
    PtrToInt,
}

impl Operation {
    /// The code under which an instruction of this operation is recorded.
    /// Integer division is the unsigned one. The allocations on the heap and
    /// the release are calls of the allocator; the tests against the null
    /// pointer are integer comparisons; a negation is a subtraction from
    /// zero, a complement an exclusive or with all ones.
    pub open spec fn opcode(self) -> InstructionOpcode {
        match self {
            Operation::Return => InstructionOpcode::Return,
            Operation::Call { .. } => InstructionOpcode::Call,
            Operation::GetElementPointer => InstructionOpcode::GetElementPtr,
            Operation::Phi => InstructionOpcode::Phi,
            Operation::Store => InstructionOpcode::Store,
            Operation::Load => InstructionOpcode::Load,
            Operation::StackAllocation => InstructionOpcode::Alloca,
            Operation::HeapAllocation => InstructionOpcode::Call,
            Operation::ArrayHeapAllocation => InstructionOpcode::Call,
            Operation::StackAllocatedArray => InstructionOpcode::Alloca,
            Operation::Free => InstructionOpcode::Call,
            Operation::Insert { opcode } => opcode,
            Operation::IntDiv => InstructionOpcode::UDiv,
            Operation::FloatDiv => InstructionOpcode::FDiv,
            Operation::IntAdd => InstructionOpcode::Add,
            Operation::FloatAdd => InstructionOpcode::FAdd,
            Operation::Xor => InstructionOpcode::Xor,
            Operation::And => InstructionOpcode::And,
            Operation::Or => InstructionOpcode::Or,
            Operation::IntSub => InstructionOpcode::Sub,
            Operation::FloatSub => InstructionOpcode::FSub,
            Operation::IntMul => InstructionOpcode::Mul,
            Operation::FloatMul => InstructionOpcode::FMul,
            Operation::Cast { opcode } => opcode,
            Operation::PointerCast => InstructionOpcode::BitCast,
            Operation::IntCompare { .. } => InstructionOpcode::ICmp,
            Operation::FloatCompare { .. } => InstructionOpcode::FCmp,
            Operation::UnconditionalBranch => InstructionOpcode::Br,
            Operation::ConditionalBranch => InstructionOpcode::Br,
            Operation::IntNeg => InstructionOpcode::Sub,
            Operation::FloatNeg => InstructionOpcode::FNeg,
            Operation::Not => InstructionOpcode::Xor,
            Operation::ExtractValue { .. } => InstructionOpcode::ExtractValue,
            Operation::InsertValue { .. } => InstructionOpcode::InsertValue,
            Operation::ExtractElement => InstructionOpcode::ExtractElement,
            Operation::InsertElement => InstructionOpcode::InsertElement,
            Operation::Unreachable => InstructionOpcode::Unreachable,
            Operation::Fence { .. } => InstructionOpcode::Fence,
            Operation::IsNull => InstructionOpcode::ICmp,
            Operation::IsNotNull => InstructionOpcode::ICmp,
            Operation::IntToPtr => InstructionOpcode::IntToPtr,
            Operation::PtrToInt => InstructionOpcode::PtrToInt,
        }
    }

    /// The code under which an instruction of this operation is recorded.
    pub fn get_opcode(&self) -> (r: InstructionOpcode)
        ensures
            r == self.opcode(),
    {
        match self {
            Operation::Return => InstructionOpcode::Return,
            Operation::Call { .. } => InstructionOpcode::Call,
            Operation::GetElementPointer => InstructionOpcode::GetElementPtr,
            Operation::Phi => InstructionOpcode::Phi,
            Operation::Store => InstructionOpcode::Store,
            Operation::Load => InstructionOpcode::Load,
            Operation::StackAllocation => InstructionOpcode::Alloca,
            Operation::HeapAllocation => InstructionOpcode::Call,
            Operation::ArrayHeapAllocation => InstructionOpcode::Call,
            Operation::StackAllocatedArray => InstructionOpcode::Alloca,
            Operation::Free => InstructionOpcode::Call,
            Operation::Insert { opcode } => *opcode,
            Operation::IntDiv => InstructionOpcode::UDiv,
            Operation::FloatDiv => InstructionOpcode::FDiv,
            Operation::IntAdd => InstructionOpcode::Add,
            Operation::FloatAdd => InstructionOpcode::FAdd,
            Operation::Xor => InstructionOpcode::Xor,
            Operation::And => InstructionOpcode::And,
            Operation::Or => InstructionOpcode::Or,
            Operation::IntSub => InstructionOpcode::Sub,
            Operation::FloatSub => InstructionOpcode::FSub,
            Operation::IntMul => InstructionOpcode::Mul,
            Operation::FloatMul => InstructionOpcode::FMul,
            Operation::Cast { opcode } => *opcode,
            Operation::PointerCast => InstructionOpcode::BitCast,
            Operation::IntCompare { .. } => InstructionOpcode::ICmp,
            Operation::FloatCompare { .. } => InstructionOpcode::FCmp,
            Operation::UnconditionalBranch => InstructionOpcode::Br,
            Operation::ConditionalBranch => InstructionOpcode::Br,
            Operation::IntNeg => InstructionOpcode::Sub,
            Operation::FloatNeg => InstructionOpcode::FNeg,
            Operation::Not => InstructionOpcode::Xor,
            Operation::ExtractValue { .. } => InstructionOpcode::ExtractValue,
            Operation::InsertValue { .. } => InstructionOpcode::InsertValue,
            Operation::ExtractElement => InstructionOpcode::ExtractElement,
            Operation::InsertElement => InstructionOpcode::InsertElement,
            Operation::Unreachable => InstructionOpcode::Unreachable,
            Operation::Fence { .. } => InstructionOpcode::Fence,
            Operation::IsNull => InstructionOpcode::ICmp,
            Operation::IsNotNull => InstructionOpcode::ICmp,
            Operation::IntToPtr => InstructionOpcode::IntToPtr,
            Operation::PtrToInt => InstructionOpcode::PtrToInt,
        }
    }

    /// The kind of value that the operation yields, where the operation alone
    /// decides it: an integer for the integer operations, for the comparisons
    /// and for the tests against the null pointer; a floating-point number
    /// for the floating-point operations; a pointer for the allocations, the
    /// address computation and the casts to a pointer; a vector for the
    /// insertion into one. None where the kind goes by a type that is handed
    /// in, or where there is no value.
    pub open spec fn result_kind(self) -> Option<ValueKind> {
        match self {
            Operation::IntDiv
            | Operation::IntAdd
            | Operation::IntSub
            | Operation::IntMul
            | Operation::IntNeg
            | Operation::Xor
            | Operation::And
            | Operation::Or
            | Operation::Not
            | Operation::IntCompare { .. }
            | Operation::FloatCompare { .. }
            | Operation::IsNull
            | Operation::IsNotNull
            | Operation::PtrToInt => Some(ValueKind::Int),
            Operation::FloatDiv
            | Operation::FloatAdd
            | Operation::FloatSub
            | Operation::FloatMul
            | Operation::FloatNeg => Some(ValueKind::Float),
            Operation::GetElementPointer
            | Operation::StackAllocation
            | Operation::HeapAllocation
            | Operation::ArrayHeapAllocation
            | Operation::StackAllocatedArray
            | Operation::PointerCast
            | Operation::IntToPtr => Some(ValueKind::Pointer),
            Operation::InsertElement => Some(ValueKind::Vector),
            _ => None,
        }
    }
}

/// One instruction as a builder recorded it: the block at whose end it was
/// appended, the operation, the values and blocks that the operation takes in
/// the order in which it takes them, the type of what it yields (`Void` where
/// it yields nothing), the display name, and the reference that names the
/// instruction from then on.
#[derive(Clone, Debug, PartialEq, Eq)]
pub struct Instruction {
    pub block: BasicBlock,
    pub operation: Operation,
    pub operands: Vec<ValueRef>,
    pub targets: Vec<BasicBlock>,
    pub result_type: AnyType,
    pub name: String,
    pub result: ValueRef,
}

/// The mathematical content of an [`Instruction`].
pub ghost struct InstructionView {
    pub block: BasicBlock,
    pub operation: Operation,
    pub operands: Seq<ValueRef>,
    pub targets: Seq<BasicBlock>,
    pub result_type: Shape,
    pub name: Seq<char>,
    pub result: ValueRef,
}

impl View for Instruction {
    type V = InstructionView;

    open spec fn view(&self) -> InstructionView {
        InstructionView {
            block: self.block,
            operation: self.operation,
            operands: self.operands@,
            targets: self.targets@,
            result_type: self.result_type@,
            name: self.name@,
            result: self.result,
        }
    }
}

impl Instruction {
    /// The instruction as a handle: `Some` exactly where the record carries
    /// an instruction code, as every record that a builder made does.
    pub fn as_instruction_value(&self) -> (r: Option<InstructionValue>)
        ensures
            r == (match self.result.opcode {
                Some(opcode) => Some(InstructionValue { handle: self.result.handle, opcode }),
                None => None,
            }),
    {
        self.result.as_instruction()
    }

    /// Whether the instruction has no display name.
    pub fn is_unnamed(&self) -> (r: bool)
        ensures
            r == (self@.name.len() == 0),
    {
        self.name.as_str().is_empty()
    }
}

/// The records of a list of instructions, in order.
pub open spec fn records_of(instructions: Seq<Instruction>) -> Seq<InstructionView> {
    instructions.map_values(|i: Instruction| i@)
}

} // verus!
