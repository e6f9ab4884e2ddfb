//! The instruction builder: a cursor into a basic block and one operation per
//! class of instruction.
//!
//! An operation that succeeds records exactly one instruction at the cursor
//! and returns a handle of the kind that the operation yields. One that fails
//! records nothing.

use vstd::prelude::*;
use vstd::string::StringSliceAdditionalSpecFns;
use crate::basic_block::BasicBlock;
use crate::instruction::{records_of, Instruction, InstructionView, Operation};
use crate::types::{AnyType, BasicType, FloatType, IntType, PointerType, Shape};
use crate::values::{
    BasicValueEnum, FloatValue, Handle, InstructionValue, IntValue, PointerValue, ValueRef,
    ValueView,
};

pub mod aggregates;
pub mod arithmetic;
pub mod casts;
pub mod control;
pub mod laws;
pub mod memory;

verus! {

/// Why an operation of a builder recorded nothing.
#[derive(Clone, Copy, Debug, PartialEq, Eq, Structural)]
pub enum BuilderError {
    /// The display name holds a zero byte, which ends a string in the engine.
    InvalidName,
    /// The builder has no insertion position.
    Unpositioned,
    /// The operands have types under which the operation yields no value.
    IllTyped,
}

/// A display name can be handed to the engine when none of its bytes is zero.
pub open spec fn valid_name(name: &str) -> bool {
    forall|i: int| 0 <= i < name.spec_bytes().len() ==> name.spec_bytes()[i] != 0u8
}

/// Whether `name` can be handed to the engine.
pub fn is_valid_name(name: &str) -> (r: bool)
    ensures
        r == valid_name(name),
{
    let bytes = name.as_bytes();
    let mut i: usize = 0;
    while i < bytes.len()
        invariant
            i <= bytes.len(),
            bytes@ == name.spec_bytes(),
            forall|j: int| 0 <= j < i ==> bytes@[j] != 0u8,
        decreases bytes.len() - i,
    {
        if bytes[i] == 0 {
            return false;
        }
        i += 1;
    }
    true
}

/// The characters of a display name that may be absent: none where it is.
pub open spec fn name_chars(name: Option<&str>) -> Seq<char> {
    match name {
        Some(n) => n@,
        None => Seq::empty(),
    }
}

/// The shape of a type that may be absent.
pub open spec fn shape_of(ty: Option<AnyType>) -> Option<Shape> {
    match ty {
        Some(t) => Some(t@),
        None => None,
    }
}

/// The shape of a basic type that may be absent.
pub open spec fn basic_shape_of(ty: Option<BasicType>) -> Option<Shape> {
    match ty {
        Some(t) => Some(t@),
        None => None,
    }
}

/// The shape itself, or `Void` where there is none.
pub open spec fn or_void(shape: Option<Shape>) -> Shape {
    match shape {
        Some(s) => s,
        None => Shape::Void,
    }
}

/// The mathematical content of a [`Builder`]: the number of its cursor, the
/// block it is positioned at, if any, and the instructions it has recorded,
/// oldest first.
pub ghost struct BuilderState {
    pub cursor: u64,
    pub position: Option<BasicBlock>,
    pub emitted: Seq<InstructionView>,
}

impl BuilderState {
    /// The state after the cursor was moved to the end of `block`.
    pub open spec fn position_at_end(self, block: BasicBlock) -> BuilderState {
        BuilderState { position: Some(block), ..self }
    }

    /// The state after the insertion position was cleared.
    pub open spec fn clear_insertion_position(self) -> BuilderState {
        BuilderState { position: None, ..self }
    }

    /// The instructions that were appended to `block`, oldest first.
    pub open spec fn body(self, block: BasicBlock) -> Seq<InstructionView> {
        self.emitted.filter(|i: InstructionView| i.block == block)
    }

    /// Why a request records nothing, if it does not: a display name that
    /// cannot be handed on, else no insertion position, else operands under
    /// which there is no result type.
    pub open spec fn failure(self, result_type: Option<Shape>, name: Option<&str>) -> Option<
        BuilderError,
    > {
        if name matches Some(n) && !valid_name(n) {
            Some(BuilderError::InvalidName)
        } else if self.position is None {
            Some(BuilderError::Unpositioned)
        } else if result_type is None {
            Some(BuilderError::IllTyped)
        } else {
            None
        }
    }

    /// The reference that names the next instruction of `operation` that this
    /// builder emits.
    pub open spec fn next_result(self, operation: Operation) -> ValueRef {
        ValueRef {
            handle: Handle::Emitted { cursor: self.cursor, index: self.emitted.len() as usize },
            opcode: Some(operation.opcode()),
        }
    }

    /// The state in which only the first `n` instructions were emitted.
    pub open spec fn first(self, n: int) -> BuilderState {
        BuilderState { emitted: self.emitted.subrange(0, n), ..self }
    }

    /// The state after `instruction` was appended at the insertion position.
    pub open spec fn append(self, instruction: InstructionView) -> BuilderState {
        BuilderState { emitted: self.emitted.push(instruction), ..self }
    }

    /// What a request to emit does: the state after it, and the reference to
    /// the new instruction or the reason why there is none. A request that
    /// fails leaves the state as it was. One that succeeds appends one record
    /// to the block at the insertion position.
    pub open spec fn emit(
        self,
        operation: Operation,
        operands: Seq<ValueRef>,
        targets: Seq<BasicBlock>,
        result_type: Option<Shape>,
        name: Option<&str>,
    ) -> (BuilderState, Result<ValueRef, BuilderError>) {
        match self.failure(result_type, name) {
            Some(e) => (self, Err(e)),
            None => (
                self.append(
                    InstructionView {
                        block: self.position->0,
                        operation,
                        operands,
                        targets,
                        result_type: result_type->0,
                        name: name_chars(name),
                        result: self.next_result(operation),
                    },
                ),
                Ok(self.next_result(operation)),
            ),
        }
    }

    /// What a request to splice in an instruction that was made elsewhere
    /// does. The record keeps the instruction's own reference.
    pub open spec fn insert(self, instruction: InstructionValue, name: Option<&str>) -> (
        BuilderState,
        Result<(), BuilderError>,
    ) {
        match self.failure(Some(Shape::Void), name) {
            Some(e) => (self, Err(e)),
            None => (
                self.append(
                    InstructionView {
                        block: self.position->0,
                        operation: Operation::Insert { opcode: instruction.opcode },
                        operands: Seq::empty(),
                        targets: Seq::empty(),
                        result_type: Shape::Void,
                        name: name_chars(name),
                        result: instruction.value_ref(),
                    },
                ),
                Ok(()),
            ),
        }
    }
}

/// Whether `r` is what an operation returns that yields a value of shape
/// `ty`, given the outcome of its request: the value that the new reference
/// names, or the same failure.
pub open spec fn yields<T: View<V = ValueView>>(
    r: Result<T, BuilderError>,
    outcome: Result<ValueRef, BuilderError>,
    ty: Shape,
) -> bool {
    match outcome {
        Ok(handle) => r matches Ok(v) && v@ == (ValueView { handle, ty, constant: None }),
        Err(e) => r matches Err(x) && x == e,
    }
}

/// Whether `r` is what an operation returns that yields an instruction
/// without a value, given the outcome of its request.
pub open spec fn yields_instruction(
    r: Result<InstructionValue, BuilderError>,
    outcome: Result<ValueRef, BuilderError>,
) -> bool {
    match outcome {
        Ok(handle) => r matches Ok(v) && v.value_ref() == handle,
        Err(e) => r == Err::<InstructionValue, BuilderError>(e),
    }
}

/// The list of one operand.
pub(crate) fn operands1(a: ValueRef) -> (r: Vec<ValueRef>)
    ensures
        r@ == seq![a],
{
    let mut r: Vec<ValueRef> = Vec::new();
    r.push(a);
    assert(r@ =~= seq![a]);
    r
}

/// The list of two operands.
pub(crate) fn operands2(a: ValueRef, b: ValueRef) -> (r: Vec<ValueRef>)
    ensures
        r@ == seq![a, b],
{
    let mut r: Vec<ValueRef> = Vec::new();
    r.push(a);
    r.push(b);
    assert(r@ =~= seq![a, b]);
    r
}

/// The list of three operands.
pub(crate) fn operands3(a: ValueRef, b: ValueRef, c: ValueRef) -> (r: Vec<ValueRef>)
    ensures
        r@ == seq![a, b, c],
{
    let mut r: Vec<ValueRef> = Vec::new();
    r.push(a);
    r.push(b);
    r.push(c);
    assert(r@ =~= seq![a, b, c]);
    r
}

/// A cursor into a basic block, and the record of what was emitted through it.
pub struct Builder {
    cursor: u64,
    position: Option<BasicBlock>,
    emitted: Vec<Instruction>,
}

impl View for Builder {
    type V = BuilderState;

    closed spec fn view(&self) -> BuilderState {
        BuilderState {
            cursor: self.cursor,
            position: self.position,
            emitted: records_of(self.emitted@),
        }
    }
}

impl Builder {
    /// A builder over the cursor resource that `cursor` names. It starts
    /// without a position and with nothing emitted. The number zero names no
    /// resource.
    pub fn new(cursor: u64) -> (r: Builder)
        requires
            cursor != 0,
        ensures
            r@ == (BuilderState { cursor, position: None, emitted: Seq::empty() }),
    {
        let r = Builder { cursor, position: None, emitted: Vec::new() };
        assert(r@.emitted =~= Seq::empty());
        r
    }

    /// Gives up the builder and hands back the number of its cursor resource,
    /// for the one release that is due.
    pub fn into_cursor(self) -> (r: u64)
        ensures
            r == self@.cursor,
    {
        self.cursor
    }

    /// The instructions recorded so far, oldest first.
    pub fn emitted(&self) -> (r: &Vec<Instruction>)
        ensures
            records_of(r@) == self@.emitted,
    {
        &self.emitted
    }

    /// Records one instruction at the insertion position, or fails and
    /// records nothing.
    pub(crate) fn emit(
        &mut self,
        operation: Operation,
        operands: Vec<ValueRef>,
        targets: Vec<BasicBlock>,
        result_type: Option<AnyType>,
        name: Option<&str>,
    ) -> (r: Result<ValueRef, BuilderError>)
        ensures
            (final(self)@, r) == old(self)@.emit(
                operation,
                operands@,
                targets@,
                shape_of(result_type),
                name,
            ),
    {
        if let Some(n) = name {
            if !is_valid_name(n) {
                return Err(BuilderError::InvalidName);
            }
        }
        let block = match self.position {
            Some(block) => block,
            None => {
                return Err(BuilderError::Unpositioned);
            },
        };
        let result_type = match result_type {
            Some(t) => t,
            None => {
                return Err(BuilderError::IllTyped);
            },
        };
        let name = match name {
            Some(n) => n.to_owned(),
            None => String::new(),
        };
        let result = ValueRef {
            handle: Handle::Emitted { cursor: self.cursor, index: self.emitted.len() },
            opcode: Some(operation.get_opcode()),
        };
        let instruction = Instruction {
            block,
            operation,
            operands,
            targets,
            result_type,
            name,
            result,
        };
        let ghost record = instruction@;
        self.emitted.push(instruction);
        assert(self@.emitted =~= old(self)@.emitted.push(record));
        Ok(result)
    }

    /// Emits an instruction that is handed back as an instruction.
    pub(crate) fn emit_instruction(
        &mut self,
        operation: Operation,
        operands: Vec<ValueRef>,
        targets: Vec<BasicBlock>,
        result_type: AnyType,
        name: Option<&str>,
    ) -> (r: Result<InstructionValue, BuilderError>)
        ensures
            ({
                let outcome = old(self)@.emit(
                    operation,
                    operands@,
                    targets@,
                    Some(result_type@),
                    name,
                );
                final(self)@ == outcome.0 && yields_instruction(r, outcome.1)
            }),
    {
        match self.emit(operation, operands, targets, Some(result_type), name) {
            Ok(result) => Ok(
                InstructionValue { handle: result.handle, opcode: operation.get_opcode() },
            ),
            Err(e) => Err(e),
        }
    }

    /// Emits an instruction that yields an integer of type `ty`.
    pub(crate) fn emit_int(
        &mut self,
        operation: Operation,
        operands: Vec<ValueRef>,
        ty: IntType,
        name: &str,
    ) -> (r: Result<IntValue, BuilderError>)
        ensures
            ({
                let outcome = old(self)@.emit(
                    operation,
                    operands@,
                    Seq::empty(),
                    Some(ty@),
                    Some(name),
                );
                final(self)@ == outcome.0 && yields(r, outcome.1, ty@)
            }),
    {
        let result_type = AnyType::Basic(BasicType::Int(ty));
        match self.emit(operation, operands, Vec::new(), Some(result_type), Some(name)) {
            Ok(handle) => Ok(IntValue { handle, ty, constant: None }),
            Err(e) => Err(e),
        }
    }

    /// Emits an instruction that yields a floating-point number of type `ty`.
    pub(crate) fn emit_float(
        &mut self,
        operation: Operation,
        operands: Vec<ValueRef>,
        ty: FloatType,
        name: &str,
    ) -> (r: Result<FloatValue, BuilderError>)
        ensures
            ({
                let outcome = old(self)@.emit(
                    operation,
                    operands@,
                    Seq::empty(),
                    Some(ty@),
                    Some(name),
                );
                final(self)@ == outcome.0 && yields(r, outcome.1, ty@)
            }),
    {
        let result_type = AnyType::Basic(BasicType::Float(ty));
        match self.emit(operation, operands, Vec::new(), Some(result_type), Some(name)) {
            Ok(handle) => Ok(FloatValue { handle, ty }),
            Err(e) => Err(e),
        }
    }

    /// Emits an instruction that yields a pointer of type `ty`.
    pub(crate) fn emit_pointer(
        &mut self,
        operation: Operation,
        operands: Vec<ValueRef>,
        ty: PointerType,
        name: &str,
    ) -> (r: Result<PointerValue, BuilderError>)
        ensures
            ({
                let outcome = old(self)@.emit(
                    operation,
                    operands@,
                    Seq::empty(),
                    Some(ty@),
                    Some(name),
                );
                final(self)@ == outcome.0 && yields(r, outcome.1, ty@)
            }),
    {
        let result_type = AnyType::Basic(BasicType::Pointer(ty.duplicate()));
        match self.emit(operation, operands, Vec::new(), Some(result_type), Some(name)) {
            Ok(handle) => Ok(PointerValue { handle, ty }),
            Err(e) => Err(e),
        }
    }

    /// Emits an instruction that yields a value of type `ty`, under the kind
    /// that `ty` has. Without a type the request is ill-typed.
    pub(crate) fn emit_basic(
        &mut self,
        operation: Operation,
        operands: Vec<ValueRef>,
        ty: Option<BasicType>,
        name: &str,
    ) -> (r: Result<BasicValueEnum, BuilderError>)
        ensures
            ({
                let outcome = old(self)@.emit(
                    operation,
                    operands@,
                    Seq::empty(),
                    basic_shape_of(ty),
                    Some(name),
                );
                final(self)@ == outcome.0 && yields(r, outcome.1, or_void(basic_shape_of(ty)))
            }),
    {
        match ty {
            Some(ty) => {
                let result_type = AnyType::Basic(ty.duplicate());
                match self.emit(operation, operands, Vec::new(), Some(result_type), Some(name)) {
                    Ok(handle) => Ok(BasicValueEnum::new(handle, ty)),
                    Err(e) => Err(e),
                }
            },
            None => {
                match self.emit(operation, operands, Vec::new(), None, Some(name)) {
                    Ok(_) => Err(BuilderError::IllTyped),
                    Err(e) => Err(e),
                }
            },
        }
    }

    /// Moves the cursor to the end of `basic_block`. What was emitted before
    /// stays where it is; what is emitted next is appended to `basic_block`.
    pub fn position_at_end(&mut self, basic_block: &BasicBlock)
        ensures
            final(self)@ == old(self)@.position_at_end(*basic_block),
    {
        self.position = Some(*basic_block);
    }

    /// Clears the insertion position. Nothing can be emitted until the
    /// builder is positioned again.
    pub fn clear_insertion_position(&mut self)
        ensures
            final(self)@ == old(self)@.clear_insertion_position(),
    {
        self.position = None;
    }

    /// The block that the builder is positioned at, if any.
    pub fn get_insert_block(&self) -> (r: Option<BasicBlock>)
        ensures
            r == self@.position,
    {
        self.position
    }

    /// Splices in at the cursor an instruction that was made elsewhere and is
    /// in no block yet.
    pub fn insert_instruction(&mut self, value: &InstructionValue) -> (r: Result<
        (),
        BuilderError,
    >)
        ensures
            (final(self)@, r) == old(self)@.insert(*value, None),
    {
        self.splice(value, None)
    }

    /// Splices in at the cursor an instruction that was made elsewhere, and
    /// gives it a display name.
    pub fn insert_instruction_with_name(&mut self, instruction: &InstructionValue, name: &str) -> (r:
        Result<(), BuilderError>)
        ensures
            (final(self)@, r) == old(self)@.insert(*instruction, Some(name)),
    {
        self.splice(instruction, Some(name))
    }

    /// Records the splicing in of an instruction, or fails and records
    /// nothing.
    fn splice(&mut self, instruction: &InstructionValue, name: Option<&str>) -> (r: Result<
        (),
        BuilderError,
    >)
        ensures
            (final(self)@, r) == old(self)@.insert(*instruction, name),
    {
        if let Some(n) = name {
            if !is_valid_name(n) {
                return Err(BuilderError::InvalidName);
            }
        }
        let block = match self.position {
            Some(block) => block,
            None => {
                return Err(BuilderError::Unpositioned);
            },
        };
        let name = match name {
            Some(n) => n.to_owned(),
            None => String::new(),
        };
        let record = Instruction {
            block,
            operation: Operation::Insert { opcode: instruction.opcode },
            operands: Vec::new(),
            targets: Vec::new(),
            result_type: AnyType::Void,
            name,
            result: instruction.as_value_ref(),
        };
        let ghost appended = record@;
        self.emitted.push(record);
        assert(self@.emitted =~= old(self)@.emitted.push(appended));
        Ok(())
    }

    /// The instructions that this builder appended to `block`, oldest first.
    pub fn get_block_instructions(&self, block: &BasicBlock) -> (r: Vec<&Instruction>)
        ensures
            r@.map_values(|i: &Instruction| i@) == self@.body(*block),
    {
        let mut found: Vec<&Instruction> = Vec::new();
        let ghost view_of = |i: &Instruction| i@;
        let mut i: usize = 0;
        while i < self.emitted.len()
            invariant
                i <= self.emitted.len(),
                view_of == |i: &Instruction| i@,
                found@.map_values(view_of) == self@.first(i as int).body(*block),
            decreases self.emitted.len() - i,
        {
            proof {
                let seen = self@.first(i as int);
                let record = self.emitted@[i as int]@;
                assert(self@.first(i + 1).emitted =~= seen.emitted.push(record));
                lemma_append_extends_one_body(seen, record, *block);
            }
            if self.emitted[i].block == *block {
                let ghost old_found = found@;
                found.push(&self.emitted[i]);
                assert(found@.map_values(view_of) =~= old_found.map_values(view_of).push(
                    self.emitted@[i as int]@,
                ));
            }
            i += 1;
        }
        assert(self@.first(i as int).emitted =~= self@.emitted);
        found
    }
}

/// Appending a record to a state appends it to the body of its own block and
/// leaves the body of every other block as it was.
pub proof fn lemma_append_extends_one_body(
    s: BuilderState,
    instruction: InstructionView,
    block: BasicBlock,
)
    ensures
        s.append(instruction).body(block) == if instruction.block == block {
            s.body(block).push(instruction)
        } else {
            s.body(block)
        },
{
    let in_block = |i: InstructionView| i.block == block;
    let after = s.emitted.push(instruction);
    assert(after.drop_last() =~= s.emitted);
    reveal_with_fuel(Seq::filter, 2);
    assert(after.filter(in_block) == if in_block(instruction) {
        s.emitted.filter(in_block).push(instruction)
    } else {
        s.emitted.filter(in_block)
    });
}

} // verus!
