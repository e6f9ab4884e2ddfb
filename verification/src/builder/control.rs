//! Control flow: terminators, calls, phi nodes and fences.

use vstd::prelude::*;
use crate::basic_block::BasicBlock;
use crate::builder::{operands1, yields, yields_instruction, Builder, BuilderError};
use crate::instruction::{AtomicOrdering, Operation};
use crate::types::{AnyType, Shape};
use crate::values::{
    BasicValueEnum, FunctionValue, InstructionValue, IntValue, PhiValue, ValueRef, ValueView,
};

verus! {

/// The name under which a call is recorded: none where the callee returns
/// nothing, the requested one otherwise.
pub open spec fn call_name(return_shape: Shape, name: &str) -> Option<&str> {
    if return_shape is Void {
        None
    } else {
        Some(name)
    }
}

/// The operands of a return: the value, where one is returned.
pub open spec fn return_operands(value: Option<&BasicValueEnum>) -> Seq<ValueRef> {
    match value {
        Some(v) => seq![v@.handle],
        None => Seq::empty(),
    }
}

/// The operands of a call: the callee, then the arguments in order.
pub open spec fn call_operands(callee: ValueRef, args: Seq<&BasicValueEnum>) -> Seq<ValueRef> {
    seq![callee] + args.map_values(|a: &BasicValueEnum| a@.handle)
}

impl Builder {
    /// Emits a call of `function` with `args`. Where the function returns
    /// nothing, `name` is discarded, whatever it holds, and the call is
    /// recorded without a name; otherwise the call carries `name`. The result
    /// is the value of the call, or `None` for a call that returns nothing.
    pub fn build_call(
        &mut self,
        function: &FunctionValue,
        args: &[&BasicValueEnum],
        name: &str,
        tail_call: bool,
    ) -> (r: Result<Option<BasicValueEnum>, BuilderError>)
        ensures
            ({
                let outcome = old(self)@.emit(
                    Operation::Call { tail_call },
                    call_operands(function@.handle, args@),
                    Seq::empty(),
                    Some(function.ty.return_shape()),
                    call_name(function.ty.return_shape(), name),
                );
                &&& final(self)@ == outcome.0
                &&& match outcome.1 {
                    Ok(handle) => if function.ty.return_shape() is Void {
                        r == Ok::<Option<BasicValueEnum>, BuilderError>(None)
                    } else {
                        r matches Ok(Some(v)) && v@ == (ValueView {
                            handle,
                            ty: function.ty.return_shape(),
                            constant: None,
                        })
                    },
                    Err(e) => r matches Err(x) && x == e,
                }
            }),
    {
        let mut operands: Vec<ValueRef> = Vec::new();
        operands.push(function.handle);
        let mut i: usize = 0;
        while i < args.len()
            invariant
                i <= args.len(),
                operands@ =~= call_operands(function@.handle, args@.subrange(0, i as int)),
            decreases args.len() - i,
        {
            operands.push(args[i].as_value_ref());
            i += 1;
        }
        assert(args@.subrange(0, args.len() as int) =~= args@);
        match &function.ty.return_type {
            None => {
                match self.emit(
                    Operation::Call { tail_call },
                    operands,
                    Vec::new(),
                    Some(AnyType::Void),
                    None,
                ) {
                    Ok(_) => Ok(None),
                    Err(e) => Err(e),
                }
            },
            Some(return_type) => {
                let ty = return_type.duplicate();
                match self.emit(
                    Operation::Call { tail_call },
                    operands,
                    Vec::new(),
                    Some(AnyType::Basic(return_type.duplicate())),
                    Some(name),
                ) {
                    Ok(handle) => Ok(Some(BasicValueEnum::new(handle, ty))),
                    Err(e) => Err(e),
                }
            },
        }
    }

    /// Emits a return: of `value`, or of nothing where there is none.
    pub fn build_return(
        &mut self,
        value: Option<&BasicValueEnum>,
    ) -> (r: Result<InstructionValue, BuilderError>)
        ensures
            ({
                let outcome = old(self)@.emit(
                    Operation::Return,
                    return_operands(value),
                    Seq::empty(),
                    Some(Shape::Void),
                    None,
                );
                final(self)@ == outcome.0 && yields_instruction(r, outcome.1)
            }),
    {
        let operands = match value {
            Some(v) => operands1(v.as_value_ref()),
            None => Vec::new(),
        };
        self.emit_instruction(Operation::Return, operands, Vec::new(), AnyType::Void, None)
    }

    /// Emits a branch to `destination_block`.
    pub fn build_unconditional_branch(
        &mut self,
        destination_block: &BasicBlock,
    ) -> (r: Result<InstructionValue, BuilderError>)
        ensures
            ({
                let outcome = old(self)@.emit(
                    Operation::UnconditionalBranch,
                    Seq::empty(),
                    seq![*destination_block],
                    Some(Shape::Void),
                    None,
                );
                final(self)@ == outcome.0 && yields_instruction(r, outcome.1)
            }),
    {
        let mut targets: Vec<BasicBlock> = Vec::new();
        targets.push(*destination_block);
        assert(targets@ =~= seq![*destination_block]);
        self.emit_instruction(
            Operation::UnconditionalBranch,
            Vec::new(),
            targets,
            AnyType::Void,
            None,
        )
    }

    /// Emits a branch to `then_block` where `comparison` holds when the
    /// program runs, and to `else_block` where it does not.
    pub fn build_conditional_branch(
        &mut self,
        comparison: &IntValue,
        then_block: &BasicBlock,
        else_block: &BasicBlock,
    ) -> (r: Result<InstructionValue, BuilderError>)
        ensures
            ({
                let outcome = old(self)@.emit(
                    Operation::ConditionalBranch,
                    seq![comparison.handle],
                    seq![*then_block, *else_block],
                    Some(Shape::Void),
                    None,
                );
                final(self)@ == outcome.0 && yields_instruction(r, outcome.1)
            }),
    {
        let mut targets: Vec<BasicBlock> = Vec::new();
        targets.push(*then_block);
        targets.push(*else_block);
        assert(targets@ =~= seq![*then_block, *else_block]);
        self.emit_instruction(
            Operation::ConditionalBranch,
            operands1(comparison.handle),
            targets,
            AnyType::Void,
            None,
        )
    }

    /// Emits the instruction that marks a place that is never reached.
    pub fn build_unreachable(&mut self) -> (r: Result<InstructionValue, BuilderError>)
        ensures
            ({
                let outcome = old(self)@.emit(
                    Operation::Unreachable,
                    Seq::empty(),
                    Seq::empty(),
                    Some(Shape::Void),
                    None,
                );
                final(self)@ == outcome.0 && yields_instruction(r, outcome.1)
            }),
    {
        self.emit_instruction(Operation::Unreachable, Vec::new(), Vec::new(), AnyType::Void, None)
    }

    /// Emits a phi node of type `type_`. It starts without incoming values.
    pub fn build_phi(&mut self, type_: &AnyType, name: &str) -> (r: Result<PhiValue, BuilderError>)
        ensures
            ({
                let outcome = old(self)@.emit(
                    Operation::Phi,
                    Seq::empty(),
                    Seq::empty(),
                    Some(type_@),
                    Some(name),
                );
                final(self)@ == outcome.0 && yields(r, outcome.1, type_@)
            }),
    {
        match self.emit(
            Operation::Phi,
            Vec::new(),
            Vec::new(),
            Some(type_.duplicate()),
            Some(name),
        ) {
            Ok(handle) => Ok(PhiValue { handle, ty: type_.duplicate() }),
            Err(e) => Err(e),
        }
    }

    /// Emits a memory fence of the given ordering. `num` is handed to the
    /// engine as it is.
    pub fn build_fence(
        &mut self,
        atomic_ordering: AtomicOrdering,
        num: i32,
        name: &str,
    ) -> (r: Result<InstructionValue, BuilderError>)
        ensures
            ({
                let outcome = old(self)@.emit(
                    Operation::Fence { ordering: atomic_ordering, num },
                    Seq::empty(),
                    Seq::empty(),
                    Some(Shape::Void),
                    Some(name),
                );
                final(self)@ == outcome.0 && yields_instruction(r, outcome.1)
            }),
    {
        self.emit_instruction(
            Operation::Fence { ordering: atomic_ordering, num },
            Vec::new(),
            Vec::new(),
            AnyType::Void,
            Some(name),
        )
    }
}

} // verus!
