//! What holds of every builder, whatever was emitted through it before.

use vstd::prelude::*;
use crate::basic_block::BasicBlock;
use crate::builder::control::call_name;
use crate::builder::{
    lemma_append_extends_one_body, valid_name, BuilderError, BuilderState,
};
use crate::instruction::{InstructionView, Operation};
use crate::types::Shape;
use crate::values::{InstructionValue, ValueRef};

verus! {

/// Positioning a builder twice in a row at the end of one block is the same
/// as positioning it there once. An emission that follows, with a name that
/// can be handed on and with a result type, succeeds and appends exactly one
/// record: the list of what was emitted grows by that record, the record
/// stands last in the body of the block, and the body of every other block
/// is as it was.
pub proof fn lemma_positioning_twice_emits_once(
    s: BuilderState,
    block: BasicBlock,
    operation: Operation,
    operands: Seq<ValueRef>,
    targets: Seq<BasicBlock>,
    result_type: Shape,
    name: Option<&str>,
)
    requires
        name matches Some(n) ==> valid_name(n),
    ensures
        s.position_at_end(block).position_at_end(block) == s.position_at_end(block),
        ({
            let after = s.position_at_end(block).position_at_end(block).emit(
                operation,
                operands,
                targets,
                Some(result_type),
                name,
            );
            &&& after.1 == Ok::<ValueRef, BuilderError>(s.next_result(operation))
            &&& after.0.position == Some(block)
            &&& after.0.emitted.len() == s.emitted.len() + 1
            &&& after.0.emitted.drop_last() == s.emitted
            &&& after.0.emitted.last().block == block
            &&& after.0.emitted.last().operation == operation
            &&& after.0.body(block) == s.body(block).push(after.0.emitted.last())
            &&& forall|other: BasicBlock|
                other != block ==> #[trigger] after.0.body(other) == s.body(other)
        }),
{
    let positioned = s.position_at_end(block);
    let after = positioned.emit(operation, operands, targets, Some(result_type), name);
    let record = after.0.emitted.last();
    assert(after.0 == positioned.append(record));
    assert(after.0.emitted.drop_last() =~= s.emitted);
    lemma_append_extends_one_body(positioned, record, block);
    assert forall|other: BasicBlock| other != block implies #[trigger] after.0.body(other)
        == s.body(other) by {
        lemma_append_extends_one_body(positioned, record, other);
    }
}

/// Instructions stand in a block in the order in which they were asked for:
/// of two requests that succeed one after the other on a positioned builder,
/// the record of the first stands directly before the record of the second,
/// in the list of what was emitted and in the body of the block, and both
/// stand behind everything that was there before.
pub proof fn lemma_emissions_keep_their_order(
    s: BuilderState,
    first: Operation,
    first_operands: Seq<ValueRef>,
    first_type: Shape,
    first_name: Option<&str>,
    second: Operation,
    second_operands: Seq<ValueRef>,
    second_type: Shape,
    second_name: Option<&str>,
)
    requires
        s.position is Some,
        first_name matches Some(n) ==> valid_name(n),
        second_name matches Some(n) ==> valid_name(n),
    ensures
        ({
            let block = s.position->0;
            let one = s.emit(first, first_operands, Seq::empty(), Some(first_type), first_name);
            let two = one.0.emit(
                second,
                second_operands,
                Seq::empty(),
                Some(second_type),
                second_name,
            );
            let a = one.0.emitted.last();
            let b = two.0.emitted.last();
            &&& one.1 is Ok
            &&& two.1 is Ok
            &&& a.operation == first && a.operands == first_operands
            &&& b.operation == second && b.operands == second_operands
            &&& two.0.emitted == s.emitted.push(a).push(b)
            &&& two.0.body(block) == s.body(block).push(a).push(b)
        }),
{
    let block = s.position->0;
    let one = s.emit(first, first_operands, Seq::empty(), Some(first_type), first_name);
    let two = one.0.emit(second, second_operands, Seq::empty(), Some(second_type), second_name);
    lemma_append_extends_one_body(s, one.0.emitted.last(), block);
    lemma_append_extends_one_body(one.0, two.0.emitted.last(), block);
}

/// After the insertion position was cleared, a request to emit fails
/// whatever it asks for, and leaves everything as it was: nothing is
/// attached to the block at which the builder stood before.
pub proof fn lemma_cleared_builder_emits_nothing(
    s: BuilderState,
    operation: Operation,
    operands: Seq<ValueRef>,
    targets: Seq<BasicBlock>,
    result_type: Option<Shape>,
    name: Option<&str>,
)
    ensures
        ({
            let cleared = s.clear_insertion_position();
            let after = cleared.emit(operation, operands, targets, result_type, name);
            &&& after.1 is Err
            &&& (name matches Some(n) && !valid_name(n)) ==> after.1 == Err::<
                ValueRef,
                BuilderError,
            >(BuilderError::InvalidName)
            &&& !(name matches Some(n) && !valid_name(n)) ==> after.1 == Err::<
                ValueRef,
                BuilderError,
            >(BuilderError::Unpositioned)
            &&& after.0 == cleared
            &&& after.0.emitted == s.emitted
            &&& forall|block: BasicBlock| #[trigger] after.0.body(block) == s.body(block)
        }),
{
}

/// After the insertion position was cleared, a request to splice in an
/// instruction fails too, and leaves everything as it was.
pub proof fn lemma_cleared_builder_inserts_nothing(
    s: BuilderState,
    instruction: InstructionValue,
    name: Option<&str>,
)
    ensures
        ({
            let cleared = s.clear_insertion_position();
            let after = cleared.insert(instruction, name);
            &&& after.1 is Err
            &&& after.0 == cleared
            &&& after.0.emitted == s.emitted
        }),
{
}

/// A load through a pointer to a basic shape yields that shape: what is
/// stored to a location that was allocated for a type comes back with that
/// type.
pub proof fn lemma_load_yields_pointee(ty: Shape, address_space: u32)
    requires
        ty.is_basic(),
    ensures
        ty.pointer_to(address_space).loaded() == Some(ty),
{
}

/// A value of a basic shape `ty` that is stored to a location freshly
/// allocated on the stack for `ty` and loaded back at once: the three
/// requests succeed on a positioned builder, given names that can be handed
/// on; they are recorded in that order at the end of what was emitted
/// before; and the load yields a value of shape `ty`.
pub proof fn lemma_store_then_load_round_trip(
    s: BuilderState,
    ty: Shape,
    stored: ValueRef,
    location_name: &str,
    loaded_name: &str,
)
    requires
        s.position is Some,
        ty.is_basic(),
        valid_name(location_name),
        valid_name(loaded_name),
    ensures
        ({
            let allocated = s.emit(
                Operation::StackAllocation,
                Seq::empty(),
                Seq::empty(),
                Some(ty.pointer_to(0)),
                Some(location_name),
            );
            let location = allocated.1->Ok_0;
            let written = allocated.0.emit(
                Operation::Store,
                seq![stored, location],
                Seq::empty(),
                Some(Shape::Void),
                None,
            );
            let read = written.0.emit(
                Operation::Load,
                seq![location],
                Seq::empty(),
                ty.pointer_to(0).loaded(),
                Some(loaded_name),
            );
            &&& allocated.1 is Ok
            &&& written.1 is Ok
            &&& read.1 is Ok
            &&& read.0.emitted.len() == s.emitted.len() + 3
            &&& read.0.emitted.subrange(0, s.emitted.len() as int) == s.emitted
            &&& read.0.emitted[s.emitted.len() as int].operation == Operation::StackAllocation
            &&& read.0.emitted[s.emitted.len() as int + 1].operation == Operation::Store
            &&& read.0.emitted[s.emitted.len() as int + 2].operation == Operation::Load
            &&& read.0.emitted[s.emitted.len() as int + 1].operands == seq![stored, location]
            &&& read.0.emitted[s.emitted.len() as int + 2].operands == seq![location]
            &&& read.0.emitted.last().result_type == ty
        }),
{
    let allocated = s.emit(
        Operation::StackAllocation,
        Seq::empty(),
        Seq::empty(),
        Some(ty.pointer_to(0)),
        Some(location_name),
    );
    let location = allocated.1->Ok_0;
    let written = allocated.0.emit(
        Operation::Store,
        seq![stored, location],
        Seq::empty(),
        Some(Shape::Void),
        None,
    );
    let read = written.0.emit(
        Operation::Load,
        seq![location],
        Seq::empty(),
        ty.pointer_to(0).loaded(),
        Some(loaded_name),
    );
    assert(read.0.emitted.subrange(0, s.emitted.len() as int) =~= s.emitted);
}

/// A call of a function that returns nothing is recorded without a name,
/// whatever name was asked for, even one that could not be handed on, and
/// whatever the builder emitted before: on a positioned builder the request
/// succeeds and the record's name is empty.
pub proof fn lemma_void_call_is_unnamed(
    s: BuilderState,
    operands: Seq<ValueRef>,
    name: &str,
    tail_call: bool,
)
    requires
        s.position is Some,
    ensures
        ({
            let after = s.emit(
                Operation::Call { tail_call },
                operands,
                Seq::empty(),
                Some(Shape::Void),
                call_name(Shape::Void, name),
            );
            &&& after.1 is Ok
            &&& after.0.emitted.len() == s.emitted.len() + 1
            &&& after.0.emitted.last().name == Seq::<char>::empty()
            &&& after.0.emitted.last().operation == (Operation::Call { tail_call })
            &&& after.0.emitted.last().result_type is Void
        }),
{
}

/// A call of a function that returns a value is recorded under the name that
/// was asked for.
pub proof fn lemma_value_call_keeps_name(
    s: BuilderState,
    operands: Seq<ValueRef>,
    return_shape: Shape,
    name: &str,
    tail_call: bool,
)
    requires
        s.position is Some,
        !(return_shape is Void),
        valid_name(name),
    ensures
        ({
            let after = s.emit(
                Operation::Call { tail_call },
                operands,
                Seq::empty(),
                Some(return_shape),
                call_name(return_shape, name),
            );
            &&& after.1 is Ok
            &&& after.0.emitted.last().name == name@
            &&& after.0.emitted.last().result_type == return_shape
        }),
{
}

} // verus!
