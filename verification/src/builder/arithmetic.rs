//! Arithmetic, bitwise operations and comparisons.
//!
//! An operation on integers yields an integer of the type of its first
//! operand, one on floating-point numbers a floating-point number of that
//! type, and a comparison a one-bit integer.

use vstd::prelude::*;
use crate::builder::{operands1, operands2, yields, Builder, BuilderError};
use crate::instruction::{FloatPredicate, IntPredicate, Operation};
use crate::types::{IntType, Shape};
use crate::values::{FloatValue, IntValue};

verus! {

impl Builder {
    /// Emits the division of two integers taken as unsigned. There is no signed
    /// division in this surface.
    pub fn build_int_div(
        &mut self,
        lhs: &IntValue,
        rhs: &IntValue,
        name: &str,
    ) -> (r: Result<IntValue, BuilderError>)
        ensures
            ({
                let outcome = old(self)@.emit(
                    Operation::IntDiv,
                    seq![lhs.handle, rhs.handle],
                    Seq::empty(),
                    Some(lhs.ty@),
                    Some(name),
                );
                final(self)@ == outcome.0 && yields(r, outcome.1, lhs.ty@)
            }),
            r matches Ok(v) ==> v@.ty.kind() == Operation::IntDiv.result_kind(),
    {
        self.emit_int(Operation::IntDiv, operands2(lhs.handle, rhs.handle), lhs.ty, name)
    }

    /// Emits the division of two floating-point numbers.
    pub fn build_float_div(
        &mut self,
        lhs: &FloatValue,
        rhs: &FloatValue,
        name: &str,
    ) -> (r: Result<FloatValue, BuilderError>)
        ensures
            ({
                let outcome = old(self)@.emit(
                    Operation::FloatDiv,
                    seq![lhs.handle, rhs.handle],
                    Seq::empty(),
                    Some(lhs.ty@),
                    Some(name),
                );
                final(self)@ == outcome.0 && yields(r, outcome.1, lhs.ty@)
            }),
            r matches Ok(v) ==> v@.ty.kind() == Operation::FloatDiv.result_kind(),
    {
        self.emit_float(Operation::FloatDiv, operands2(lhs.handle, rhs.handle), lhs.ty, name)
    }

    /// Emits the sum of two integers.
    pub fn build_int_add(
        &mut self,
        lhs: &IntValue,
        rhs: &IntValue,
        name: &str,
    ) -> (r: Result<IntValue, BuilderError>)
        ensures
            ({
                let outcome = old(self)@.emit(
                    Operation::IntAdd,
                    seq![lhs.handle, rhs.handle],
                    Seq::empty(),
                    Some(lhs.ty@),
                    Some(name),
                );
                final(self)@ == outcome.0 && yields(r, outcome.1, lhs.ty@)
            }),
            r matches Ok(v) ==> v@.ty.kind() == Operation::IntAdd.result_kind(),
    {
        self.emit_int(Operation::IntAdd, operands2(lhs.handle, rhs.handle), lhs.ty, name)
    }

    /// Emits the sum of two floating-point numbers.
    pub fn build_float_add(
        &mut self,
        lhs: &FloatValue,
        rhs: &FloatValue,
        name: &str,
    ) -> (r: Result<FloatValue, BuilderError>)
        ensures
            ({
                let outcome = old(self)@.emit(
                    Operation::FloatAdd,
                    seq![lhs.handle, rhs.handle],
                    Seq::empty(),
                    Some(lhs.ty@),
                    Some(name),
                );
                final(self)@ == outcome.0 && yields(r, outcome.1, lhs.ty@)
            }),
            r matches Ok(v) ==> v@.ty.kind() == Operation::FloatAdd.result_kind(),
    {
        self.emit_float(Operation::FloatAdd, operands2(lhs.handle, rhs.handle), lhs.ty, name)
    }

    /// Emits the bitwise exclusive or of two integers.
    pub fn build_xor(
        &mut self,
        lhs: &IntValue,
        rhs: &IntValue,
        name: &str,
    ) -> (r: Result<IntValue, BuilderError>)
        ensures
            ({
                let outcome = old(self)@.emit(
                    Operation::Xor,
                    seq![lhs.handle, rhs.handle],
                    Seq::empty(),
                    Some(lhs.ty@),
                    Some(name),
                );
                final(self)@ == outcome.0 && yields(r, outcome.1, lhs.ty@)
            }),
            r matches Ok(v) ==> v@.ty.kind() == Operation::Xor.result_kind(),
    {
        self.emit_int(Operation::Xor, operands2(lhs.handle, rhs.handle), lhs.ty, name)
    }

    /// Emits the bitwise and of two integers.
    pub fn build_and(
        &mut self,
        lhs: &IntValue,
        rhs: &IntValue,
        name: &str,
    ) -> (r: Result<IntValue, BuilderError>)
        ensures
            ({
                let outcome = old(self)@.emit(
                    Operation::And,
                    seq![lhs.handle, rhs.handle],
                    Seq::empty(),
                    Some(lhs.ty@),
                    Some(name),
                );
                final(self)@ == outcome.0 && yields(r, outcome.1, lhs.ty@)
            }),
            r matches Ok(v) ==> v@.ty.kind() == Operation::And.result_kind(),
    {
        self.emit_int(Operation::And, operands2(lhs.handle, rhs.handle), lhs.ty, name)
    }

    /// Emits the bitwise or of two integers.
    pub fn build_or(
        &mut self,
        lhs: &IntValue,
        rhs: &IntValue,
        name: &str,
    ) -> (r: Result<IntValue, BuilderError>)
        ensures
            ({
                let outcome = old(self)@.emit(
                    Operation::Or,
                    seq![lhs.handle, rhs.handle],
                    Seq::empty(),
                    Some(lhs.ty@),
                    Some(name),
                );
                final(self)@ == outcome.0 && yields(r, outcome.1, lhs.ty@)
            }),
            r matches Ok(v) ==> v@.ty.kind() == Operation::Or.result_kind(),
    {
        self.emit_int(Operation::Or, operands2(lhs.handle, rhs.handle), lhs.ty, name)
    }

    /// Emits the difference of two integers.
    pub fn build_int_sub(
        &mut self,
        lhs: &IntValue,
        rhs: &IntValue,
        name: &str,
    ) -> (r: Result<IntValue, BuilderError>)
        ensures
            ({
                let outcome = old(self)@.emit(
                    Operation::IntSub,
                    seq![lhs.handle, rhs.handle],
                    Seq::empty(),
                    Some(lhs.ty@),
                    Some(name),
                );
                final(self)@ == outcome.0 && yields(r, outcome.1, lhs.ty@)
            }),
            r matches Ok(v) ==> v@.ty.kind() == Operation::IntSub.result_kind(),
    {
        self.emit_int(Operation::IntSub, operands2(lhs.handle, rhs.handle), lhs.ty, name)
    }

    /// Emits the difference of two floating-point numbers.
    pub fn build_float_sub(
        &mut self,
        lhs: &FloatValue,
        rhs: &FloatValue,
        name: &str,
    ) -> (r: Result<FloatValue, BuilderError>)
        ensures
            ({
                let outcome = old(self)@.emit(
                    Operation::FloatSub,
                    seq![lhs.handle, rhs.handle],
                    Seq::empty(),
                    Some(lhs.ty@),
                    Some(name),
                );
                final(self)@ == outcome.0 && yields(r, outcome.1, lhs.ty@)
            }),
            r matches Ok(v) ==> v@.ty.kind() == Operation::FloatSub.result_kind(),
    {
        self.emit_float(Operation::FloatSub, operands2(lhs.handle, rhs.handle), lhs.ty, name)
    }

    /// Emits the product of two integers.
    pub fn build_int_mul(
        &mut self,
        lhs: &IntValue,
        rhs: &IntValue,
        name: &str,
    ) -> (r: Result<IntValue, BuilderError>)
        ensures
            ({
                let outcome = old(self)@.emit(
                    Operation::IntMul,
                    seq![lhs.handle, rhs.handle],
                    Seq::empty(),
                    Some(lhs.ty@),
                    Some(name),
                );
                final(self)@ == outcome.0 && yields(r, outcome.1, lhs.ty@)
            }),
            r matches Ok(v) ==> v@.ty.kind() == Operation::IntMul.result_kind(),
    {
        self.emit_int(Operation::IntMul, operands2(lhs.handle, rhs.handle), lhs.ty, name)
    }

    /// Emits the product of two floating-point numbers.
    pub fn build_float_mul(
        &mut self,
        lhs: &FloatValue,
        rhs: &FloatValue,
        name: &str,
    ) -> (r: Result<FloatValue, BuilderError>)
        ensures
            ({
                let outcome = old(self)@.emit(
                    Operation::FloatMul,
                    seq![lhs.handle, rhs.handle],
                    Seq::empty(),
                    Some(lhs.ty@),
                    Some(name),
                );
                final(self)@ == outcome.0 && yields(r, outcome.1, lhs.ty@)
            }),
            r matches Ok(v) ==> v@.ty.kind() == Operation::FloatMul.result_kind(),
    {
        self.emit_float(Operation::FloatMul, operands2(lhs.handle, rhs.handle), lhs.ty, name)
    }

    /// Emits the comparison of two integers under `op`. The result is a
    /// one-bit integer.
    pub fn build_int_compare(
        &mut self,
        op: IntPredicate,
        lhs: &IntValue,
        rhs: &IntValue,
        name: &str,
    ) -> (r: Result<IntValue, BuilderError>)
        ensures
            ({
                let outcome = old(self)@.emit(
                    Operation::IntCompare { predicate: op },
                    seq![lhs.handle, rhs.handle],
                    Seq::empty(),
                    Some(Shape::Int { bit_width: 1 }),
                    Some(name),
                );
                final(self)@ == outcome.0 && yields(r, outcome.1, Shape::Int { bit_width: 1 })
            }),
            r matches Ok(v) ==> v@.ty.kind() == (Operation::IntCompare {
                predicate: op,
            }).result_kind(),
    {
        self.emit_int(
            Operation::IntCompare { predicate: op },
            operands2(lhs.handle, rhs.handle),
            IntType::bool_type(),
            name,
        )
    }

    /// Emits the comparison of two floating-point numbers under `op`. The
    /// result is a one-bit integer.
    pub fn build_float_compare(
        &mut self,
        op: FloatPredicate,
        lhs: &FloatValue,
        rhs: &FloatValue,
        name: &str,
    ) -> (r: Result<IntValue, BuilderError>)
        ensures
            ({
                let outcome = old(self)@.emit(
                    Operation::FloatCompare { predicate: op },
                    seq![lhs.handle, rhs.handle],
                    Seq::empty(),
                    Some(Shape::Int { bit_width: 1 }),
                    Some(name),
                );
                final(self)@ == outcome.0 && yields(r, outcome.1, Shape::Int { bit_width: 1 })
            }),
            r matches Ok(v) ==> v@.ty.kind() == (Operation::FloatCompare {
                predicate: op,
            }).result_kind(),
    {
        self.emit_int(
            Operation::FloatCompare { predicate: op },
            operands2(lhs.handle, rhs.handle),
            IntType::bool_type(),
            name,
        )
    }

    /// Emits the negation of an integer.
    pub fn build_int_neg(
        &mut self,
        value: &IntValue,
        name: &str,
    ) -> (r: Result<IntValue, BuilderError>)
        ensures
            ({
                let outcome = old(self)@.emit(
                    Operation::IntNeg,
                    seq![value.handle],
                    Seq::empty(),
                    Some(value.ty@),
                    Some(name),
                );
                final(self)@ == outcome.0 && yields(r, outcome.1, value.ty@)
            }),
            r matches Ok(v) ==> v@.ty.kind() == Operation::IntNeg.result_kind(),
    {
        self.emit_int(Operation::IntNeg, operands1(value.handle), value.ty, name)
    }

    /// Emits the negation of a floating-point number.
    pub fn build_float_neg(
        &mut self,
        value: &FloatValue,
        name: &str,
    ) -> (r: Result<FloatValue, BuilderError>)
        ensures
            ({
                let outcome = old(self)@.emit(
                    Operation::FloatNeg,
                    seq![value.handle],
                    Seq::empty(),
                    Some(value.ty@),
                    Some(name),
                );
                final(self)@ == outcome.0 && yields(r, outcome.1, value.ty@)
            }),
            r matches Ok(v) ==> v@.ty.kind() == Operation::FloatNeg.result_kind(),
    {
        self.emit_float(Operation::FloatNeg, operands1(value.handle), value.ty, name)
    }

    /// Emits the bitwise complement of an integer.
    pub fn build_not(&mut self, value: &IntValue, name: &str) -> (r: Result<IntValue, BuilderError>)
        ensures
            ({
                let outcome = old(self)@.emit(
                    Operation::Not,
                    seq![value.handle],
                    Seq::empty(),
                    Some(value.ty@),
                    Some(name),
                );
                final(self)@ == outcome.0 && yields(r, outcome.1, value.ty@)
            }),
            r matches Ok(v) ==> v@.ty.kind() == Operation::Not.result_kind(),
    {
        self.emit_int(Operation::Not, operands1(value.handle), value.ty, name)
    }
}

} // verus!
