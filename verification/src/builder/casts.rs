//! Casts. The destination is a type descriptor; the result is a value of the
//! kind of the destination.

use vstd::prelude::*;
use crate::builder::{operands1, yields, Builder, BuilderError};
use crate::instruction::Operation;
use crate::types::{BasicType, IntType, PointerType};
use crate::values::{BasicValueEnum, InstructionOpcode, IntValue, PointerValue};

verus! {

impl Builder {
    /// Emits the cast of `from_value` to `to_type` that the code `op` names.
    /// Whether `op` is a cast that leads from the one type to the other is
    /// left to the engine.
    pub fn build_cast(
        &mut self,
        op: InstructionOpcode,
        from_value: &BasicValueEnum,
        to_type: &BasicType,
        name: &str,
    ) -> (r: Result<BasicValueEnum, BuilderError>)
        ensures
            ({
                let outcome = old(self)@.emit(
                    Operation::Cast { opcode: op },
                    seq![from_value@.handle],
                    Seq::empty(),
                    Some(to_type@),
                    Some(name),
                );
                final(self)@ == outcome.0 && yields(r, outcome.1, to_type@)
            }),
    {
        self.emit_basic(
            Operation::Cast { opcode: op },
            operands1(from_value.as_value_ref()),
            Some(to_type.duplicate()),
            name,
        )
    }

    /// Emits the cast of a pointer to another pointer type.
    pub fn build_pointer_cast(
        &mut self,
        from: &PointerValue,
        to: &PointerType,
        name: &str,
    ) -> (r: Result<PointerValue, BuilderError>)
        ensures
            ({
                let outcome = old(self)@.emit(
                    Operation::PointerCast,
                    seq![from.handle],
                    Seq::empty(),
                    Some(to@),
                    Some(name),
                );
                final(self)@ == outcome.0 && yields(r, outcome.1, to@)
            }),
            r matches Ok(v) ==> v@.ty.kind() == Operation::PointerCast.result_kind(),
    {
        self.emit_pointer(Operation::PointerCast, operands1(from.handle), to.duplicate(), name)
    }

    /// Emits the conversion of an integer to a pointer of type `ptr_type`.
    pub fn build_int_to_ptr(
        &mut self,
        int_value: &IntValue,
        ptr_type: &PointerType,
        name: &str,
    ) -> (r: Result<PointerValue, BuilderError>)
        ensures
            ({
                let outcome = old(self)@.emit(
                    Operation::IntToPtr,
                    seq![int_value.handle],
                    Seq::empty(),
                    Some(ptr_type@),
                    Some(name),
                );
                final(self)@ == outcome.0 && yields(r, outcome.1, ptr_type@)
            }),
            r matches Ok(v) ==> v@.ty.kind() == Operation::IntToPtr.result_kind(),
    {
        self.emit_pointer(
            Operation::IntToPtr,
            operands1(int_value.handle),
            ptr_type.duplicate(),
            name,
        )
    }

    /// Emits the conversion of a pointer to an integer of type `int_type`.
    pub fn build_ptr_to_int(
        &mut self,
        ptr: &PointerValue,
        int_type: &IntType,
        name: &str,
    ) -> (r: Result<IntValue, BuilderError>)
        ensures
            ({
                let outcome = old(self)@.emit(
                    Operation::PtrToInt,
                    seq![ptr.handle],
                    Seq::empty(),
                    Some(int_type@),
                    Some(name),
                );
                final(self)@ == outcome.0 && yields(r, outcome.1, int_type@)
            }),
            r matches Ok(v) ==> v@.ty.kind() == Operation::PtrToInt.result_kind(),
    {
        self.emit_int(Operation::PtrToInt, operands1(ptr.handle), *int_type, name)
    }
}

} // verus!
