//! Access to the members of aggregates and to the elements of vectors.
//!
//! Whether an index lies within an array or a vector is left to the engine. A
//! structure has only the members it lists: an index beyond them selects
//! nothing, and the request is ill-typed.

use vstd::prelude::*;
use crate::builder::{
    operands1, operands2, operands3, or_void, yields, yields_instruction, Builder, BuilderError,
};
use crate::instruction::Operation;
use crate::types::{AnyType, BasicType, Shape};
use crate::values::{
    AggregateValue, BasicValueEnum, InstructionValue, IntValue, PointerValue, VectorValue,
};

verus! {

/// The shape of the elements of a vector of shape `vector`.
pub open spec fn element_shape(vector: Shape) -> Shape {
    match vector {
        Shape::Vector { element, .. } => *element,
        _ => Shape::Void,
    }
}

impl Builder {
    /// Emits the extraction of the member that the constant `index` selects
    /// in `value`. The result has the type of that member.
    pub fn build_extract_value(
        &mut self,
        value: &AggregateValue,
        index: u32,
        name: &str,
    ) -> (r: Result<BasicValueEnum, BuilderError>)
        ensures
            ({
                let outcome = old(self)@.emit(
                    Operation::ExtractValue { index },
                    seq![value@.handle],
                    Seq::empty(),
                    value@.ty.member(index as int),
                    Some(name),
                );
                final(self)@ == outcome.0 && yields(
                    r,
                    outcome.1,
                    or_void(value@.ty.member(index as int)),
                )
            }),
    {
        let member = value.get_type().member(index);
        self.emit_basic(
            Operation::ExtractValue { index },
            operands1(value.as_value_ref()),
            member,
            name,
        )
    }

    /// Emits the insertion of `ptr` into `value` at the constant `index`.
    /// The instruction yields what `value` is, with that member replaced.
    pub fn build_insert_value(
        &mut self,
        value: &BasicValueEnum,
        ptr: &PointerValue,
        index: u32,
        name: &str,
    ) -> (r: Result<InstructionValue, BuilderError>)
        ensures
            ({
                let outcome = old(self)@.emit(
                    Operation::InsertValue { index },
                    seq![value@.handle, ptr.handle],
                    Seq::empty(),
                    Some(value@.ty),
                    Some(name),
                );
                final(self)@ == outcome.0 && yields_instruction(r, outcome.1)
            }),
    {
        self.emit_instruction(
            Operation::InsertValue { index },
            operands2(value.as_value_ref(), ptr.handle),
            Vec::new(),
            AnyType::Basic(value.get_type()),
            Some(name),
        )
    }

    /// Emits the extraction of the element of `vector` that `index` selects
    /// when the program runs. The result has the type of the elements.
    pub fn build_extract_element(
        &mut self,
        vector: &VectorValue,
        index: &IntValue,
        name: &str,
    ) -> (r: Result<BasicValueEnum, BuilderError>)
        ensures
            ({
                let outcome = old(self)@.emit(
                    Operation::ExtractElement,
                    seq![vector.handle, index.handle],
                    Seq::empty(),
                    Some(element_shape(vector.ty@)),
                    Some(name),
                );
                final(self)@ == outcome.0 && yields(r, outcome.1, element_shape(vector.ty@))
            }),
    {
        self.emit_basic(
            Operation::ExtractElement,
            operands2(vector.handle, index.handle),
            Some(vector.ty.element_type()),
            name,
        )
    }

    /// Emits the insertion of `element` into `vector` at the place that
    /// `index` selects when the program runs. The result is a vector of the
    /// type of `vector`.
    pub fn build_insert_element(
        &mut self,
        vector: &VectorValue,
        element: &BasicValueEnum,
        index: &IntValue,
        name: &str,
    ) -> (r: Result<BasicValueEnum, BuilderError>)
        ensures
            ({
                let outcome = old(self)@.emit(
                    Operation::InsertElement,
                    seq![vector.handle, element@.handle, index.handle],
                    Seq::empty(),
                    Some(vector.ty@),
                    Some(name),
                );
                final(self)@ == outcome.0 && yields(r, outcome.1, vector.ty@)
            }),
            r matches Ok(v) ==> v@.ty.kind() == Operation::InsertElement.result_kind(),
    {
        self.emit_basic(
            Operation::InsertElement,
            operands3(vector.handle, element.as_value_ref(), index.handle),
            Some(BasicType::Vector(vector.ty.duplicate())),
            name,
        )
    }
}

} // verus!
