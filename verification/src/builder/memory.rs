//! Memory: allocation, loads and stores, release, address computation and
//! the tests against the null pointer.

use vstd::prelude::*;
use crate::builder::{
    operands1, operands2, or_void, yields, yields_instruction, Builder, BuilderError,
};
use crate::instruction::Operation;
use crate::types::{AnyType, BasicType, IntType, Shape};
use crate::values::{BasicValueEnum, InstructionValue, IntValue, PointerValue, ValueRef};

verus! {

/// The references of a list of indexes, in order.
pub open spec fn index_operands(indexes: Seq<&IntValue>) -> Seq<ValueRef> {
    indexes.map_values(|i: &IntValue| i.handle)
}

/// What is known of the values of a list of indexes: for each, its value
/// where it is a constant that was made with one.
pub open spec fn index_path(indexes: Seq<&IntValue>) -> Seq<Option<u64>> {
    indexes.map_values(|i: &IntValue| i.constant)
}

impl Builder {
    /// Emits the computation of the address that `ordered_indexes` lead to
    /// from `ptr`. The result points at what the indexes reach; where they
    /// reach nothing, the request is ill-typed.
    pub fn build_gep(
        &mut self,
        ptr: &PointerValue,
        ordered_indexes: &[&IntValue],
        name: &str,
    ) -> (r: Result<PointerValue, BuilderError>)
        ensures
            ({
                let reached = ptr.ty@.indexed(index_path(ordered_indexes@));
                let outcome = old(self)@.emit(
                    Operation::GetElementPointer,
                    seq![ptr.handle] + index_operands(ordered_indexes@),
                    Seq::empty(),
                    reached,
                    Some(name),
                );
                final(self)@ == outcome.0 && yields(r, outcome.1, or_void(reached))
            }),
            r matches Ok(v) ==> v@.ty.kind() == Operation::GetElementPointer.result_kind(),
    {
        let mut operands: Vec<ValueRef> = Vec::new();
        let mut path: Vec<Option<u64>> = Vec::new();
        operands.push(ptr.handle);
        let mut i: usize = 0;
        while i < ordered_indexes.len()
            invariant
                i <= ordered_indexes.len(),
                operands@ =~= seq![ptr.handle] + index_operands(
                    ordered_indexes@.subrange(0, i as int),
                ),
                path@ =~= index_path(ordered_indexes@.subrange(0, i as int)),
            decreases ordered_indexes.len() - i,
        {
            operands.push(ordered_indexes[i].handle);
            path.push(ordered_indexes[i].constant);
            i += 1;
        }
        assert(ordered_indexes@.subrange(0, ordered_indexes.len() as int) =~= ordered_indexes@);
        match ptr.ty.indexed(&path) {
            Some(ty) => self.emit_pointer(Operation::GetElementPointer, operands, ty, name),
            None => {
                match self.emit(
                    Operation::GetElementPointer,
                    operands,
                    Vec::new(),
                    None,
                    Some(name),
                ) {
                    Ok(_) => Err(BuilderError::IllTyped),
                    Err(e) => Err(e),
                }
            },
        }
    }

    /// Emits a store of `value` to where `ptr` points.
    pub fn build_store(
        &mut self,
        ptr: &PointerValue,
        value: &BasicValueEnum,
    ) -> (r: Result<InstructionValue, BuilderError>)
        ensures
            ({
                let outcome = old(self)@.emit(
                    Operation::Store,
                    seq![value@.handle, ptr.handle],
                    Seq::empty(),
                    Some(Shape::Void),
                    None,
                );
                final(self)@ == outcome.0 && yields_instruction(r, outcome.1)
            }),
    {
        self.emit_instruction(
            Operation::Store,
            operands2(value.as_value_ref(), ptr.handle),
            Vec::new(),
            AnyType::Void,
            None,
        )
    }

    /// Emits a load from where `ptr` points. The result has the type that
    /// `ptr` points at; where that is no type of a value, the request is
    /// ill-typed.
    pub fn build_load(
        &mut self,
        ptr: &PointerValue,
        name: &str,
    ) -> (r: Result<BasicValueEnum, BuilderError>)
        ensures
            ({
                let outcome = old(self)@.emit(
                    Operation::Load,
                    seq![ptr.handle],
                    Seq::empty(),
                    ptr.ty@.loaded(),
                    Some(name),
                );
                final(self)@ == outcome.0 && yields(r, outcome.1, or_void(ptr.ty@.loaded()))
            }),
    {
        self.emit_basic(Operation::Load, operands1(ptr.handle), ptr.ty.loaded(), name)
    }

    /// Emits the allocation of one value of type `type_` on the stack. The
    /// result points at that type.
    pub fn build_stack_allocation(
        &mut self,
        type_: &BasicType,
        name: &str,
    ) -> (r: Result<PointerValue, BuilderError>)
        ensures
            ({
                let outcome = old(self)@.emit(
                    Operation::StackAllocation,
                    Seq::empty(),
                    Seq::empty(),
                    Some(type_@.pointer_to(0)),
                    Some(name),
                );
                final(self)@ == outcome.0 && yields(r, outcome.1, type_@.pointer_to(0))
            }),
            r matches Ok(v) ==> v@.ty.kind() == Operation::StackAllocation.result_kind(),
    {
        self.emit_pointer(Operation::StackAllocation, Vec::new(), type_.ptr_type(0), name)
    }

    /// Emits the allocation of one value of type `type_` on the heap. The
    /// result points at that type.
    pub fn build_heap_allocation(
        &mut self,
        type_: &BasicType,
        name: &str,
    ) -> (r: Result<PointerValue, BuilderError>)
        ensures
            ({
                let outcome = old(self)@.emit(
                    Operation::HeapAllocation,
                    Seq::empty(),
                    Seq::empty(),
                    Some(type_@.pointer_to(0)),
                    Some(name),
                );
                final(self)@ == outcome.0 && yields(r, outcome.1, type_@.pointer_to(0))
            }),
            r matches Ok(v) ==> v@.ty.kind() == Operation::HeapAllocation.result_kind(),
    {
        self.emit_pointer(Operation::HeapAllocation, Vec::new(), type_.ptr_type(0), name)
    }

    /// Emits the allocation of `size` values of type `type_` on the heap.
    /// The result points at the first of them.
    pub fn build_array_heap_allocation(
        &mut self,
        type_: &BasicType,
        size: &IntValue,
        name: &str,
    ) -> (r: Result<PointerValue, BuilderError>)
        ensures
            ({
                let outcome = old(self)@.emit(
                    Operation::ArrayHeapAllocation,
                    seq![size.handle],
                    Seq::empty(),
                    Some(type_@.pointer_to(0)),
                    Some(name),
                );
                final(self)@ == outcome.0 && yields(r, outcome.1, type_@.pointer_to(0))
            }),
            r matches Ok(v) ==> v@.ty.kind() == Operation::ArrayHeapAllocation.result_kind(),
    {
        self.emit_pointer(
            Operation::ArrayHeapAllocation,
            operands1(size.handle),
            type_.ptr_type(0),
            name,
        )
    }

    /// Emits the allocation of `size` values of type `type_` on the stack.
    /// The result points at the first of them.
    pub fn build_stack_allocated_array(
        &mut self,
        type_: &BasicType,
        size: &IntValue,
        name: &str,
    ) -> (r: Result<PointerValue, BuilderError>)
        ensures
            ({
                let outcome = old(self)@.emit(
                    Operation::StackAllocatedArray,
                    seq![size.handle],
                    Seq::empty(),
                    Some(type_@.pointer_to(0)),
                    Some(name),
                );
                final(self)@ == outcome.0 && yields(r, outcome.1, type_@.pointer_to(0))
            }),
            r matches Ok(v) ==> v@.ty.kind() == Operation::StackAllocatedArray.result_kind(),
    {
        self.emit_pointer(
            Operation::StackAllocatedArray,
            operands1(size.handle),
            type_.ptr_type(0),
            name,
        )
    }

    /// Emits the release of the memory that `ptr` points at. What `ptr`
    /// pointed at must not be used afterwards; nothing here enforces that.
    pub fn build_free(&mut self, ptr: &PointerValue) -> (r: Result<InstructionValue, BuilderError>)
        ensures
            ({
                let outcome = old(self)@.emit(
                    Operation::Free,
                    seq![ptr.handle],
                    Seq::empty(),
                    Some(Shape::Void),
                    None,
                );
                final(self)@ == outcome.0 && yields_instruction(r, outcome.1)
            }),
    {
        self.emit_instruction(
            Operation::Free,
            operands1(ptr.handle),
            Vec::new(),
            AnyType::Void,
            None,
        )
    }

    /// Emits the test whether `ptr` is the null pointer. The result is a
    /// one-bit integer.
    pub fn build_is_null(
        &mut self,
        ptr: &PointerValue,
        name: &str,
    ) -> (r: Result<IntValue, BuilderError>)
        ensures
            ({
                let outcome = old(self)@.emit(
                    Operation::IsNull,
                    seq![ptr.handle],
                    Seq::empty(),
                    Some(Shape::Int { bit_width: 1 }),
                    Some(name),
                );
                final(self)@ == outcome.0 && yields(r, outcome.1, Shape::Int { bit_width: 1 })
            }),
            r matches Ok(v) ==> v@.ty.kind() == Operation::IsNull.result_kind(),
    {
        self.emit_int(Operation::IsNull, operands1(ptr.handle), IntType::bool_type(), name)
    }

    /// Emits the test whether `ptr` is not the null pointer. The result is a
    /// one-bit integer.
    pub fn build_is_not_null(
        &mut self,
        ptr: &PointerValue,
        name: &str,
    ) -> (r: Result<IntValue, BuilderError>)
        ensures
            ({
                let outcome = old(self)@.emit(
                    Operation::IsNotNull,
                    seq![ptr.handle],
                    Seq::empty(),
                    Some(Shape::Int { bit_width: 1 }),
                    Some(name),
                );
                final(self)@ == outcome.0 && yields(r, outcome.1, Shape::Int { bit_width: 1 })
            }),
            r matches Ok(v) ==> v@.ty.kind() == Operation::IsNotNull.result_kind(),
    {
        self.emit_int(Operation::IsNotNull, operands1(ptr.handle), IntType::bool_type(), name)
    }
}

} // verus!
