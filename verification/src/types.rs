//! Type descriptors: what a value can be, and what allocations and casts may target.
//!
//! A descriptor is plain data. Its mathematical content is a [`Shape`]; every
//! contract that speaks of a type speaks of its shape.

use vstd::prelude::*;

verus! {

/// The floating-point formats.
#[derive(Clone, Copy, Debug, PartialEq, Eq, Structural)]
pub enum FloatKind {
    Half,
    Float,
    Double,
    X86Fp80,
    Fp128,
    PpcFp128,
}

/// The mathematical content of a type descriptor.
pub ghost enum Shape {
    Void,
    Int { bit_width: u32 },
    Float { kind: FloatKind },
    Pointer { pointee: Box<Shape>, address_space: u32 },
    Struct { fields: Seq<Shape>, packed: bool },
    Array { element: Box<Shape>, len: u32 },
    Vector { element: Box<Shape>, len: u32 },
    Function { return_type: Box<Shape>, params: Seq<Shape>, var_args: bool },
}

impl Shape {
    /// A basic shape is one that a value held in a register or in memory can have:
    /// anything but `Void` and a function.
    pub open spec fn is_basic(self) -> bool {
        !(self is Void) && !(self is Function)
    }

    /// The shape of a pointer to this shape.
    pub open spec fn pointer_to(self, address_space: u32) -> Shape {
        Shape::Pointer { pointee: Box::new(self), address_space }
    }

    /// What a load through a pointer of this shape yields: the pointee, where
    /// that is basic.
    pub open spec fn loaded(self) -> Option<Shape> {
        match self {
            Shape::Pointer { pointee, .. } => if pointee.is_basic() {
                Some(*pointee)
            } else {
                None
            },
            _ => None,
        }
    }

    /// The member that `index` selects in an aggregate of this shape. Every
    /// index selects the element of an array; a structure has only the members
    /// it lists.
    pub open spec fn member(self, index: int) -> Option<Shape> {
        match self {
            Shape::Array { element, .. } => Some(*element),
            Shape::Struct { fields, .. } => if 0 <= index < fields.len() {
                Some(fields[index])
            } else {
                None
            },
            _ => None,
        }
    }

    /// The shape reached from this one by walking `path`, one step per entry.
    /// A step into an array or a vector reaches its element whatever the entry;
    /// a step into a structure needs an entry that is a known constant and
    /// names one of its members. Nothing else can be stepped into.
    pub open spec fn walk(self, path: Seq<Option<u64>>) -> Option<Shape>
        decreases path.len(),
    {
        if path.len() == 0 {
            Some(self)
        } else {
            match self {
                Shape::Array { element, .. } => element.walk(path.drop_first()),
                Shape::Vector { element, .. } => element.walk(path.drop_first()),
                Shape::Struct { fields, .. } => match path[0] {
                    Some(k) => if k < fields.len() {
                        fields[k as int].walk(path.drop_first())
                    } else {
                        None
                    },
                    None => None,
                },
                _ => None,
            }
        }
    }

    /// The shape of the address that indexing a pointer of this shape by
    /// `path` computes. With no index it is the pointer's own shape. The first
    /// index steps over whole pointees and leaves the shape as it is; the rest
    /// walk into the pointee.
    pub open spec fn indexed(self, path: Seq<Option<u64>>) -> Option<Shape> {
        match self {
            Shape::Pointer { pointee, address_space } => if path.len() == 0 {
                Some(self)
            } else {
                match pointee.walk(path.drop_first()) {
                    Some(target) => Some(target.pointer_to(address_space)),
                    None => None,
                }
            },
            _ => None,
        }
    }
}

/// An integer type of a given width in bits.
#[derive(Clone, Copy, Debug, PartialEq, Eq, Structural)]
pub struct IntType {
    pub bit_width: u32,
}

/// A floating-point type.
#[derive(Clone, Copy, Debug, PartialEq, Eq, Structural)]
pub struct FloatType {
    pub kind: FloatKind,
}

/// A pointer type. The pointee may be any type, a function among them.
#[derive(Debug, PartialEq, Eq)]
pub struct PointerType {
    pub pointee: Box<AnyType>,
    pub address_space: u32,
}

/// A structure type, given by its members in order.
#[derive(Debug, PartialEq, Eq)]
pub struct StructType {
    pub fields: Vec<BasicType>,
    pub packed: bool,
}

/// An array type.
#[derive(Debug, PartialEq, Eq)]
pub struct ArrayType {
    pub element: Box<BasicType>,
    pub len: u32,
}

/// A vector type.
#[derive(Debug, PartialEq, Eq)]
pub struct VectorType {
    pub element: Box<BasicType>,
    pub len: u32,
}

/// A function type. No return type means that the function returns nothing.
#[derive(Debug, PartialEq, Eq)]
pub struct FunctionType {
    pub return_type: Option<BasicType>,
    pub params: Vec<BasicType>,
    pub var_args: bool,
}

/// Any type that a value can have.
#[derive(Debug, PartialEq, Eq)]
pub enum BasicType {
    Array(ArrayType),
    Float(FloatType),
    Int(IntType),
    Pointer(PointerType),
    Struct(StructType),
    Vector(VectorType),
}

/// Any type at all.
#[derive(Debug, PartialEq, Eq)]
pub enum AnyType {
    Void,
    Function(FunctionType),
    Basic(BasicType),
}

/// The shapes of a list of basic types, in order.
pub open spec fn shapes_of(types: Seq<BasicType>) -> Seq<Shape>
    decreases types,
{
    Seq::new(
        types.len(),
        |i: int|
            if 0 <= i < types.len() {
                types[i].shape()
            } else {
                Shape::Void
            },
    )
}

impl IntType {
    /// The shape of the type.
    pub open spec fn shape(&self) -> Shape {
        Shape::Int { bit_width: self.bit_width }
    }

    /// The integer type of the given width.
    pub fn new(bit_width: u32) -> (r: IntType)
        ensures
            r.bit_width == bit_width,
    {
        IntType { bit_width }
    }

    /// The one-bit integer type: the type of a truth value.
    pub fn bool_type() -> (r: IntType)
        ensures
            r.bit_width == 1,
    {
        IntType { bit_width: 1 }
    }

    /// The type as a basic type.
    pub fn as_basic_type(&self) -> (r: BasicType)
        ensures
            r == BasicType::Int(*self),
    {
        BasicType::Int(*self)
    }
}

impl FloatType {
    /// The shape of the type.
    pub open spec fn shape(&self) -> Shape {
        Shape::Float { kind: self.kind }
    }

    /// The floating-point type of the given format.
    pub fn new(kind: FloatKind) -> (r: FloatType)
        ensures
            r.kind == kind,
    {
        FloatType { kind }
    }

    /// The type as a basic type.
    pub fn as_basic_type(&self) -> (r: BasicType)
        ensures
            r == BasicType::Float(*self),
    {
        BasicType::Float(*self)
    }
}

impl PointerType {
    /// The shape of the type.
    pub open spec fn shape(&self) -> Shape
        decreases self,
    {
        Shape::Pointer { pointee: Box::new(self.pointee.shape()), address_space: self.address_space }
    }

    /// The type of a pointer to `pointee` in the given address space.
    pub fn new(pointee: AnyType, address_space: u32) -> (r: PointerType)
        ensures
            r@ == pointee@.pointer_to(address_space),
    {
        PointerType { pointee: Box::new(pointee), address_space }
    }

    /// A copy of the type, equal to it in shape.
    pub fn duplicate(&self) -> (r: PointerType)
        ensures
            r@ == self@,
        decreases self,
    {
        PointerType { pointee: Box::new(self.pointee.duplicate()), address_space: self.address_space }
    }

    /// The type as a basic type.
    pub fn as_basic_type(&self) -> (r: BasicType)
        ensures
            r@ == self@,
            r is Pointer,
    {
        BasicType::Pointer(self.duplicate())
    }

    /// The type of what a load through such a pointer yields: `Some` exactly
    /// where the pointee is a basic type.
    pub fn loaded(&self) -> (r: Option<BasicType>)
        ensures
            r is Some <==> self@.loaded() is Some,
            r matches Some(t) ==> Some(t@) == self@.loaded(),
    {
        match &*self.pointee {
            AnyType::Basic(t) => Some(t.duplicate()),
            _ => None,
        }
    }

    /// The type of the address that indexing such a pointer by `path`
    /// computes. An entry of `path` is the value of an index where that is a
    /// known constant. `Some` exactly where the path can be walked.
    pub fn indexed(&self, path: &Vec<Option<u64>>) -> (r: Option<PointerType>)
        ensures
            r is Some <==> self@.indexed(path@) is Some,
            r matches Some(t) ==> Some(t@) == self@.indexed(path@),
    {
        if path.len() == 0 {
            return Some(self.duplicate());
        }
        let ghost rest = path@.drop_first();
        let mut current: &BasicType = match &*self.pointee {
            AnyType::Basic(t) => t,
            other => {
                if path.len() == 1 {
                    return Some(
                        PointerType {
                            pointee: Box::new(other.duplicate()),
                            address_space: self.address_space,
                        },
                    );
                } else {
                    return None;
                }
            },
        };
        let mut i: usize = 1;
        assert(rest.subrange(0, rest.len() as int) =~= rest);
        while i < path.len()
            invariant
                1 <= i <= path.len(),
                rest == path@.drop_first(),
                self.pointee@.walk(rest) == current@.walk(rest.subrange(i - 1, rest.len() as int)),
            decreases path.len() - i,
        {
            let ghost tail = rest.subrange(i - 1, rest.len() as int);
            assert(tail.drop_first() =~= rest.subrange(i as int, rest.len() as int));
            assert(tail[0] == path@[i as int]);
            match current {
                BasicType::Array(t) => {
                    assert(current@ == t.shape());
                    current = &*t.element;
                },
                BasicType::Vector(t) => {
                    assert(current@ == t.shape());
                    current = &*t.element;
                },
                BasicType::Struct(t) => {
                    assert(current@ == t.shape());
                    match path[i] {
                        Some(k) => {
                            if k < t.fields.len() as u64 {
                                assert(shapes_of(t.fields@)[k as int] == t.fields@[k as int]@);
                                current = &t.fields[k as usize];
                            } else {
                                return None;
                            }
                        },
                        None => {
                            return None;
                        },
                    }
                },
                _ => {
                    return None;
                },
            }
            i += 1;
        }
        Some(
            PointerType {
                pointee: Box::new(AnyType::Basic(current.duplicate())),
                address_space: self.address_space,
            },
        )
    }
}

impl StructType {
    /// The shape of the type.
    pub open spec fn shape(&self) -> Shape
        decreases self,
    {
        Shape::Struct { fields: shapes_of(self.fields@), packed: self.packed }
    }

    /// A copy of the type, equal to it in shape.
    pub fn duplicate(&self) -> (r: StructType)
        ensures
            r@ == self@,
        decreases self,
    {
        StructType { fields: duplicate_all(&self.fields), packed: self.packed }
    }
}

impl ArrayType {
    /// The shape of the type.
    pub open spec fn shape(&self) -> Shape
        decreases self,
    {
        Shape::Array { element: Box::new(self.element.shape()), len: self.len }
    }

    /// A copy of the type, equal to it in shape.
    pub fn duplicate(&self) -> (r: ArrayType)
        ensures
            r@ == self@,
        decreases self,
    {
        ArrayType { element: Box::new(self.element.duplicate()), len: self.len }
    }
}

impl VectorType {
    /// The shape of the type.
    pub open spec fn shape(&self) -> Shape
        decreases self,
    {
        Shape::Vector { element: Box::new(self.element.shape()), len: self.len }
    }

    /// The type of the elements.
    pub fn element_type(&self) -> (r: BasicType)
        ensures
            self@ matches Shape::Vector { element, .. } && r@ == *element,
    {
        self.element.duplicate()
    }

    /// A copy of the type, equal to it in shape.
    pub fn duplicate(&self) -> (r: VectorType)
        ensures
            r@ == self@,
        decreases self,
    {
        VectorType { element: Box::new(self.element.duplicate()), len: self.len }
    }
}

impl FunctionType {
    /// The shape of what a call returns: `Void` where the function returns
    /// nothing.
    pub open spec fn return_shape(&self) -> Shape
        decreases self, 0nat,
    {
        match self.return_type {
            Some(t) => t.shape(),
            None => Shape::Void,
        }
    }

    /// The shape of the type.
    pub open spec fn shape(&self) -> Shape
        decreases self, 1nat,
    {
        Shape::Function {
            return_type: Box::new(self.return_shape()),
            params: shapes_of(self.params@),
            var_args: self.var_args,
        }
    }

    /// A copy of the type, equal to it in shape.
    pub fn duplicate(&self) -> (r: FunctionType)
        ensures
            r@ == self@,
            r.return_shape() == self.return_shape(),
            r.return_type is None <==> self.return_type is None,
        decreases self,
    {
        let return_type = match &self.return_type {
            Some(t) => Some(t.duplicate()),
            None => None,
        };
        FunctionType { return_type, params: duplicate_all(&self.params), var_args: self.var_args }
    }

    /// Whether a call of such a function yields no value.
    pub fn returns_void(&self) -> (r: bool)
        ensures
            r == (self.return_shape() is Void),
            r == (self.return_type is None),
    {
        self.return_type.is_none()
    }
}

impl BasicType {
    /// The shape of the type.
    pub open spec fn shape(&self) -> Shape
        decreases self,
    {
        match self {
            BasicType::Array(t) => t.shape(),
            BasicType::Float(t) => t.shape(),
            BasicType::Int(t) => t.shape(),
            BasicType::Pointer(t) => t.shape(),
            BasicType::Struct(t) => t.shape(),
            BasicType::Vector(t) => t.shape(),
        }
    }

    /// A copy of the type, equal to it in shape.
    pub fn duplicate(&self) -> (r: BasicType)
        ensures
            r@ == self@,
        decreases self,
    {
        match self {
            BasicType::Array(t) => BasicType::Array(t.duplicate()),
            BasicType::Float(t) => BasicType::Float(*t),
            BasicType::Int(t) => BasicType::Int(*t),
            BasicType::Pointer(t) => BasicType::Pointer(t.duplicate()),
            BasicType::Struct(t) => BasicType::Struct(t.duplicate()),
            BasicType::Vector(t) => BasicType::Vector(t.duplicate()),
        }
    }
}

impl BasicType {
    /// The type of a pointer to a value of this type.
    pub fn ptr_type(&self, address_space: u32) -> (r: PointerType)
        ensures
            r@ == self@.pointer_to(address_space),
    {
        PointerType { pointee: Box::new(AnyType::Basic(self.duplicate())), address_space }
    }

    /// The type of a function that returns a value of this type.
    pub fn fn_type(&self, params: &Vec<BasicType>, var_args: bool) -> (r: FunctionType)
        ensures
            r.return_shape() == self@,
            r@ == (Shape::Function {
                return_type: Box::new(self@),
                params: shapes_of(params@),
                var_args,
            }),
    {
        FunctionType {
            return_type: Some(self.duplicate()),
            params: duplicate_all(params),
            var_args,
        }
    }

    /// The type of the member that `index` selects in an aggregate of this
    /// type: `Some` exactly where there is such a member.
    pub fn member(&self, index: u32) -> (r: Option<BasicType>)
        ensures
            r is Some <==> self@.member(index as int) is Some,
            r matches Some(t) ==> Some(t@) == self@.member(index as int),
    {
        match self {
            BasicType::Array(t) => {
                assert(self@ == t.shape());
                Some(t.element.duplicate())
            },
            BasicType::Struct(t) => {
                assert(self@ == t.shape());
                if (index as usize) < t.fields.len() {
                    assert(shapes_of(t.fields@)[index as int] == t.fields@[index as int]@);
                    Some(t.fields[index as usize].duplicate())
                } else {
                    None
                }
            },
            _ => None,
        }
    }

    /// The type as a type of any kind.
    pub fn as_any_type(&self) -> (r: AnyType)
        ensures
            r@ == self@,
            r is Basic,
    {
        AnyType::Basic(self.duplicate())
    }

    /// Narrows to an integer type: `Some` exactly where this is one.
    pub fn into_int_type(self) -> (r: Option<IntType>)
        ensures
            r == (match self {
                BasicType::Int(t) => Some(t),
                _ => None,
            }),
    {
        match self {
            BasicType::Int(t) => Some(t),
            _ => None,
        }
    }

    /// Narrows to a floating-point type: `Some` exactly where this is one.
    pub fn into_float_type(self) -> (r: Option<FloatType>)
        ensures
            r == (match self {
                BasicType::Float(t) => Some(t),
                _ => None,
            }),
    {
        match self {
            BasicType::Float(t) => Some(t),
            _ => None,
        }
    }

    /// Narrows to a pointer type: `Some` exactly where this is one.
    pub fn into_pointer_type(self) -> (r: Option<PointerType>)
        ensures
            r == (match self {
                BasicType::Pointer(t) => Some(t),
                _ => None,
            }),
    {
        match self {
            BasicType::Pointer(t) => Some(t),
            _ => None,
        }
    }

    /// Narrows to a structure type: `Some` exactly where this is one.
    pub fn into_struct_type(self) -> (r: Option<StructType>)
        ensures
            r == (match self {
                BasicType::Struct(t) => Some(t),
                _ => None,
            }),
    {
        match self {
            BasicType::Struct(t) => Some(t),
            _ => None,
        }
    }

    /// Narrows to an array type: `Some` exactly where this is one.
    pub fn into_array_type(self) -> (r: Option<ArrayType>)
        ensures
            r == (match self {
                BasicType::Array(t) => Some(t),
                _ => None,
            }),
    {
        match self {
            BasicType::Array(t) => Some(t),
            _ => None,
        }
    }

    /// Narrows to a vector type: `Some` exactly where this is one.
    pub fn into_vector_type(self) -> (r: Option<VectorType>)
        ensures
            r == (match self {
                BasicType::Vector(t) => Some(t),
                _ => None,
            }),
    {
        match self {
            BasicType::Vector(t) => Some(t),
            _ => None,
        }
    }
}

/// The shape of a basic type is a basic shape.
pub proof fn lemma_basic_type_has_basic_shape(t: BasicType)
    ensures
        t@.is_basic(),
{
}

impl AnyType {
    /// The type of a function that returns nothing.
    pub fn void_fn_type(params: &Vec<BasicType>, var_args: bool) -> (r: FunctionType)
        ensures
            r.return_shape() is Void,
            r@ == (Shape::Function {
                return_type: Box::new(Shape::Void),
                params: shapes_of(params@),
                var_args,
            }),
    {
        FunctionType { return_type: None, params: duplicate_all(params), var_args }
    }

    /// Whether this is the type of nothing.
    pub fn is_void(&self) -> (r: bool)
        ensures
            r == (self@ is Void),
    {
        match self {
            AnyType::Void => true,
            _ => false,
        }
    }

    /// Narrows to a basic type: `Some` exactly where the shape is basic.
    pub fn into_basic_type(self) -> (r: Option<BasicType>)
        ensures
            r is Some <==> self@.is_basic(),
            r == (match self {
                AnyType::Basic(t) => Some(t),
                _ => None,
            }),
    {
        match self {
            AnyType::Basic(t) => Some(t),
            _ => None,
        }
    }

    /// Narrows to a function type: `Some` exactly where this is one.
    pub fn into_function_type(self) -> (r: Option<FunctionType>)
        ensures
            r == (match self {
                AnyType::Function(t) => Some(t),
                _ => None,
            }),
    {
        match self {
            AnyType::Function(t) => Some(t),
            _ => None,
        }
    }
}

impl AnyType {
    /// The shape of the type.
    pub open spec fn shape(&self) -> Shape
        decreases self,
    {
        match self {
            AnyType::Void => Shape::Void,
            AnyType::Function(t) => t.shape(),
            AnyType::Basic(t) => t.shape(),
        }
    }

    /// A copy of the type, equal to it in shape.
    pub fn duplicate(&self) -> (r: AnyType)
        ensures
            r@ == self@,
        decreases self,
    {
        match self {
            AnyType::Void => AnyType::Void,
            AnyType::Function(t) => AnyType::Function(t.duplicate()),
            AnyType::Basic(t) => AnyType::Basic(t.duplicate()),
        }
    }
}

/// Copies a list of basic types, member by member.
pub fn duplicate_all(types: &Vec<BasicType>) -> (r: Vec<BasicType>)
    ensures
        shapes_of(r@) == shapes_of(types@),
        r@.len() == types@.len(),
    decreases types,
{
    let mut copies: Vec<BasicType> = Vec::new();
    let mut i: usize = 0;
    while i < types.len()
        invariant
            i <= types.len(),
            copies@.len() == i,
            forall|j: int| 0 <= j < i ==> (#[trigger] copies@[j]).shape() == types@[j].shape(),
        decreases types.len() - i,
    {
        let member = &types[i];
        copies.push(member.duplicate());
        i += 1;
    }
    assert(shapes_of(copies@) =~= shapes_of(types@));
    copies
}

impl View for IntType {
    type V = Shape;

    open spec fn view(&self) -> Shape {
        self.shape()
    }
}

impl View for FloatType {
    type V = Shape;

    open spec fn view(&self) -> Shape {
        self.shape()
    }
}

impl View for PointerType {
    type V = Shape;

    open spec fn view(&self) -> Shape {
        self.shape()
    }
}

impl View for StructType {
    type V = Shape;

    open spec fn view(&self) -> Shape {
        self.shape()
    }
}

impl View for ArrayType {
    type V = Shape;

    open spec fn view(&self) -> Shape {
        self.shape()
    }
}

impl View for VectorType {
    type V = Shape;

    open spec fn view(&self) -> Shape {
        self.shape()
    }
}

impl View for FunctionType {
    type V = Shape;

    open spec fn view(&self) -> Shape {
        self.shape()
    }
}

impl View for BasicType {
    type V = Shape;

    open spec fn view(&self) -> Shape {
        self.shape()
    }
}

impl View for AnyType {
    type V = Shape;

    open spec fn view(&self) -> Shape {
        self.shape()
    }
}

impl Clone for PointerType {
    fn clone(&self) -> (r: Self)
        ensures
            r@ == self@,
    {
        self.duplicate()
    }
}

impl Clone for StructType {
    fn clone(&self) -> (r: Self)
        ensures
            r@ == self@,
    {
        self.duplicate()
    }
}

impl Clone for ArrayType {
    fn clone(&self) -> (r: Self)
        ensures
            r@ == self@,
    {
        self.duplicate()
    }
}

impl Clone for VectorType {
    fn clone(&self) -> (r: Self)
        ensures
            r@ == self@,
    {
        self.duplicate()
    }
}

impl Clone for FunctionType {
    fn clone(&self) -> (r: Self)
        ensures
            r@ == self@,
    {
        self.duplicate()
    }
}

impl Clone for BasicType {
    fn clone(&self) -> (r: Self)
        ensures
            r@ == self@,
    {
        self.duplicate()
    }
}

impl Clone for AnyType {
    fn clone(&self) -> (r: Self)
        ensures
            r@ == self@,
    {
        self.duplicate()
    }
}

} // verus!
