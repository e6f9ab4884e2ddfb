use inkwell::basic_block::BasicBlock;
use inkwell::builder::{is_valid_name, Builder, BuilderError};
use inkwell::instruction::{AtomicOrdering, FloatPredicate, IntPredicate, Operation};
use inkwell::types::{
    AnyType, ArrayType, BasicType, FloatKind, FloatType, FunctionType, IntType, PointerType,
    StructType, VectorType,
};
use inkwell::values::InstructionOpcode::{
    Add, Alloca, BitCast, Br, Call, FAdd, FCmp, FDiv, FMul, FNeg, FSub, Fence, GetElementPtr,
    ICmp, IntToPtr, Load, Mul, Phi, PtrToInt, Return, Store, Sub, Trunc, UDiv, Unreachable, Xor,
};
use inkwell::values::{
    ArrayValue, FloatValue, FunctionValue, Handle, InstructionValue, IntValue,
    PointerValue, StructValue, ValueKind, ValueRef, VectorValue,
};

/// Stands for the owner of the module: it numbers the nodes that no builder
/// makes.
struct Context {
    next: u64,
}

impl Context {
    fn create() -> Context {
        Context { next: 1 }
    }

    fn fresh(&mut self) -> u64 {
        self.next += 1;
        self.next
    }

    fn create_module(&mut self, _name: &str) -> u64 {
        self.fresh()
    }

    fn create_builder(&mut self) -> Builder {
        Builder::new(self.fresh())
    }

    fn add_function(&mut self, _module: u64, _name: &str, fn_type: &FunctionType) -> FunctionValue {
        FunctionValue::new(ValueRef::given(self.fresh()), fn_type.clone())
    }

    fn append_basic_block(&mut self, _function: &FunctionValue, _name: &str) -> BasicBlock {
        BasicBlock::new(self.fresh())
    }

    /// A constant is one node per value: the number that names it holds the
    /// bits of the value.
    fn const_float(&mut self, ty: FloatType, value: f32) -> FloatValue {
        FloatValue::new(ValueRef::given((1 << 32) | u64::from(value.to_bits())), ty)
    }

    fn const_int(&mut self, ty: IntType, value: u64) -> IntValue {
        IntValue::new_constant(ValueRef::given(self.fresh()), ty, value)
    }

    fn int_param(&mut self, ty: IntType) -> IntValue {
        IntValue::new(ValueRef::given(self.fresh()), ty)
    }

    fn float_param(&mut self, ty: FloatType) -> FloatValue {
        FloatValue::new(ValueRef::given(self.fresh()), ty)
    }

    fn pointer_param(&mut self, ty: PointerType) -> PointerValue {
        PointerValue::new(ValueRef::given(self.fresh()), ty)
    }
}

fn f32_type() -> FloatType {
    FloatType::new(FloatKind::Float)
}

fn i32_type() -> IntType {
    IntType::new(32)
}

fn i64_type() -> IntType {
    IntType::new(64)
}

fn emitted_by(builder: &Builder, index: usize, opcode: inkwell::values::InstructionOpcode) -> ValueRef {
    let cursor = match builder.emitted()[index].result.handle {
        Handle::Emitted { cursor, .. } => cursor,
        Handle::Given(_) => panic!("a builder's own instruction carries the builder's cursor"),
    };
    ValueRef { handle: Handle::Emitted { cursor, index }, opcode: Some(opcode) }
}

#[test]
fn test_build_call() {
    let mut context = Context::create();
    let module = context.create_module("sum");
    let mut builder = context.create_builder();

    let f32_type = f32_type();
    let fn_type = f32_type.as_basic_type().fn_type(&vec![], false);

    let function = context.add_function(module, "get_pi", &fn_type);
    let basic_block = context.append_basic_block(&function, "entry");

    builder.position_at_end(&basic_block);

    let pi = context.const_float(f32_type, 3.14);

    builder.build_return(Some(&pi.as_basic_value_enum())).unwrap();

    let function2 = context.add_function(module, "wrapper", &fn_type);
    let basic_block2 = context.append_basic_block(&function2, "entry");

    builder.position_at_end(&basic_block2);

    let pi2 = builder.build_call(&function, &[], "get_pi", false).unwrap().unwrap();

    builder.build_return(Some(&pi2)).unwrap();

    // The body of `wrapper` is a call that yields a value, then a return.
    let body = builder.get_block_instructions(&basic_block2);
    assert_eq!(body.len(), 2);
    assert_eq!(body[0].operation, Operation::Call { tail_call: false });
    assert_eq!(body[0].result.opcode, Some(Call));
    assert_eq!(body[0].name, "get_pi");
    assert_eq!(body[0].result_type, AnyType::Basic(f32_type.as_basic_type()));
    assert_eq!(body[0].operands, vec![function.as_value_ref()]);
    assert_eq!(body[1].operation, Operation::Return);
    assert_eq!(body[1].result.opcode, Some(Return));
    assert_eq!(body[1].operands, vec![pi2.as_value_ref()]);
    assert_eq!(pi2.kind(), ValueKind::Float);
    assert_eq!(pi2.as_value_ref(), body[0].result);

    // The body of `get_pi` is the one return of the constant.
    let first = builder.get_block_instructions(&basic_block);
    assert_eq!(first.len(), 1);
    assert_eq!(first[0].operation, Operation::Return);
    assert_eq!(first[0].operands, vec![pi.as_value_ref()]);
}

#[test]
fn test_instructions() {
    let mut context = Context::create();
    let module = context.create_module("testing");
    let mut builder = context.create_builder();

    let i64_type = i64_type();
    let f32_type = f32_type();
    let f32_ptr_type = f32_type.as_basic_type().ptr_type(0);
    let fn_type = AnyType::void_fn_type(&vec![f32_ptr_type.as_basic_type()], false);

    let function = context.add_function(module, "free_f32", &fn_type);
    let basic_block = context.append_basic_block(&function, "entry");

    builder.position_at_end(&basic_block);

    let arg1 = context.pointer_param(f32_ptr_type.clone());

    let f32_val = context.const_float(f32_type, 3.14);

    let store_instruction = builder.build_store(&arg1, &f32_val.as_basic_value_enum()).unwrap();
    let ptr_val = builder.build_ptr_to_int(&arg1, &i64_type, "ptr_val").unwrap();
    let ptr = builder.build_int_to_ptr(&ptr_val, &f32_ptr_type, "ptr").unwrap();
    let free_instruction = builder.build_free(&arg1).unwrap();
    let return_instruction = builder.build_return(None).unwrap();

    assert_eq!(store_instruction.get_opcode(), Store);
    assert_eq!(ptr_val.as_instruction().unwrap().get_opcode(), PtrToInt);
    assert_eq!(ptr.as_instruction().unwrap().get_opcode(), IntToPtr);
    assert_eq!(free_instruction.get_opcode(), Call);
    assert_eq!(return_instruction.get_opcode(), Return);

    // The five stand in the block in the order in which they were asked for.
    let body = builder.get_block_instructions(&basic_block);
    let opcodes: Vec<_> = body.iter().map(|i| i.result.opcode.unwrap()).collect();
    assert_eq!(opcodes, vec![Store, PtrToInt, IntToPtr, Call, Return]);
    assert_eq!(ptr_val.get_type(), i64_type);
    assert_eq!(ptr.get_type(), f32_ptr_type);
}

#[test]
fn arithmetic_and_comparisons_yield_the_documented_kinds() {
    let mut context = Context::create();
    let mut builder = context.create_builder();
    let block = BasicBlock::new(7);
    builder.position_at_end(&block);
    let a = context.int_param(i32_type());
    let b = context.int_param(i32_type());
    let x = context.float_param(f32_type());
    let y = context.float_param(f32_type());

    let sum = builder.build_int_add(&a, &b, "sum").unwrap();
    assert_eq!(sum.get_type(), i32_type());
    assert_eq!(sum.as_basic_value_enum().kind(), ValueKind::Int);
    assert_eq!(sum.constant, None);
    assert_eq!(sum.handle, emitted_by(&builder, 0, Add));

    let product = builder.build_float_mul(&x, &y, "product").unwrap();
    assert_eq!(product.get_type(), f32_type());
    assert_eq!(product.as_basic_value_enum().kind(), ValueKind::Float);
    assert_eq!(product.handle, emitted_by(&builder, 1, FMul));

    let less = builder.build_int_compare(IntPredicate::SLT, &a, &b, "less").unwrap();
    assert_eq!(less.get_type(), IntType::new(1));
    assert_eq!(less.handle, emitted_by(&builder, 2, ICmp));

    let equal = builder.build_float_compare(FloatPredicate::OEQ, &x, &y, "equal").unwrap();
    assert_eq!(equal.get_type(), IntType::new(1));
    assert_eq!(equal.as_basic_value_enum().kind(), ValueKind::Int);
    assert_eq!(equal.handle, emitted_by(&builder, 3, FCmp));

    let records = builder.emitted();
    assert_eq!(records[0].operands, vec![a.handle, b.handle]);
    assert_eq!(records[0].result_type, AnyType::Basic(BasicType::Int(i32_type())));
    assert_eq!(records[2].operation, Operation::IntCompare { predicate: IntPredicate::SLT });
    assert_eq!(records[2].result_type, AnyType::Basic(BasicType::Int(IntType::new(1))));
    assert_eq!(records[3].operation, Operation::FloatCompare { predicate: FloatPredicate::OEQ });
}

#[test]
fn every_arithmetic_operation_is_recorded_under_its_code() {
    let mut context = Context::create();
    let mut builder = context.create_builder();
    builder.position_at_end(&BasicBlock::new(7));
    let a = context.int_param(i64_type());
    let b = context.int_param(i64_type());
    let x = context.float_param(f32_type());
    let y = context.float_param(f32_type());

    // Integer division is the unsigned one.
    assert_eq!(builder.build_int_div(&a, &b, "q").unwrap().as_instruction().unwrap().get_opcode(), UDiv);
    assert_eq!(builder.build_float_div(&x, &y, "q").unwrap().as_instruction().unwrap().get_opcode(), FDiv);
    assert_eq!(builder.build_float_add(&x, &y, "s").unwrap().as_instruction().unwrap().get_opcode(), FAdd);
    assert_eq!(builder.build_xor(&a, &b, "x").unwrap().as_instruction().unwrap().get_opcode(), Xor);
    assert_eq!(
        builder.build_and(&a, &b, "x").unwrap().as_instruction().unwrap().get_opcode(),
        inkwell::values::InstructionOpcode::And
    );
    assert_eq!(
        builder.build_or(&a, &b, "x").unwrap().as_instruction().unwrap().get_opcode(),
        inkwell::values::InstructionOpcode::Or
    );
    assert_eq!(builder.build_int_sub(&a, &b, "d").unwrap().as_instruction().unwrap().get_opcode(), Sub);
    assert_eq!(builder.build_float_sub(&x, &y, "d").unwrap().as_instruction().unwrap().get_opcode(), FSub);
    assert_eq!(builder.build_int_mul(&a, &b, "p").unwrap().as_instruction().unwrap().get_opcode(), Mul);
    assert_eq!(builder.build_int_neg(&a, "n").unwrap().as_instruction().unwrap().get_opcode(), Sub);
    assert_eq!(builder.build_float_neg(&x, "n").unwrap().as_instruction().unwrap().get_opcode(), FNeg);
    assert_eq!(builder.build_not(&a, "n").unwrap().as_instruction().unwrap().get_opcode(), Xor);

    let records = builder.emitted();
    assert_eq!(records.len(), 12);
    assert_eq!(records[0].operation, Operation::IntDiv);
    assert_eq!(records[9].operation, Operation::IntNeg);
    assert_eq!(records[9].operands, vec![a.handle]);
    assert_eq!(records[11].operation, Operation::Not);
    for (index, record) in records.iter().enumerate() {
        assert_eq!(record.result, emitted_by(&builder, index, record.operation.get_opcode()));
        assert_eq!(record.block, BasicBlock::new(7));
    }
}

#[test]
fn a_stored_value_loads_back_with_its_type() {
    let mut context = Context::create();
    let mut builder = context.create_builder();
    builder.position_at_end(&BasicBlock::new(7));
    let value = context.const_float(f32_type(), 3.14);

    let location = builder.build_stack_allocation(&f32_type().as_basic_type(), "slot").unwrap();
    assert_eq!(location.get_type(), f32_type().as_basic_type().ptr_type(0));
    builder.build_store(&location, &value.as_basic_value_enum()).unwrap();
    let loaded = builder.build_load(&location, "back").unwrap();

    assert_eq!(loaded.get_type(), value.as_basic_value_enum().get_type());
    assert_eq!(loaded.kind(), ValueKind::Float);
    let loaded = loaded.into_float_value().unwrap();
    assert_eq!(loaded.get_type(), f32_type());

    let records = builder.emitted();
    let opcodes: Vec<_> = records.iter().map(|i| i.result.opcode.unwrap()).collect();
    assert_eq!(opcodes, vec![Alloca, Store, Load]);
    assert_eq!(records[1].operands, vec![value.handle, location.handle]);
    assert_eq!(records[2].operands, vec![location.handle]);
    assert_eq!(records[2].result_type, AnyType::Basic(f32_type().as_basic_type()));
    assert_eq!(records[2].name, "back");
}

#[test]
fn positioning_twice_then_emitting_appends_one_instruction_at_the_tail() {
    let mut context = Context::create();
    let mut builder = context.create_builder();
    let block = BasicBlock::new(7);
    let other = BasicBlock::new(8);
    let a = context.int_param(i32_type());
    builder.position_at_end(&other);
    builder.build_int_neg(&a, "elsewhere").unwrap();
    builder.position_at_end(&block);
    builder.build_int_neg(&a, "first").unwrap();
    let before = builder.get_block_instructions(&block).len();
    let before_other = builder.get_block_instructions(&other).len();
    let before_all = builder.emitted().len();

    builder.position_at_end(&block);
    builder.position_at_end(&block);
    assert_eq!(builder.get_insert_block(), Some(block));
    let sum = builder.build_int_add(&a, &a, "twice").unwrap();

    assert_eq!(builder.emitted().len(), before_all + 1);
    let body = builder.get_block_instructions(&block);
    assert_eq!(body.len(), before + 1);
    assert_eq!(body[0].name, "first");
    assert_eq!(body[before].result, sum.handle);
    assert_eq!(body[before].name, "twice");
    assert_eq!(builder.get_block_instructions(&other).len(), before_other);
    assert_eq!(builder.get_block_instructions(&other)[0].name, "elsewhere");
}

#[test]
fn a_call_that_returns_nothing_is_recorded_without_a_name() {
    let mut context = Context::create();
    let mut builder = context.create_builder();
    let block = BasicBlock::new(7);
    builder.position_at_end(&block);
    let callee = context.add_function(0, "log", &AnyType::void_fn_type(&vec![BasicType::Int(i32_type())], false));
    let argument = context.const_int(i32_type(), 5);

    let called = builder
        .build_call(&callee, &[&argument.as_basic_value_enum()], "ignored", true)
        .unwrap();
    assert_eq!(called, None);
    // Even a name that could not be handed on is discarded.
    let again = builder.build_call(&callee, &[&argument.as_basic_value_enum()], "bad\0name", false);
    assert_eq!(again, Ok(None));

    let records = builder.emitted();
    assert_eq!(records.len(), 2);
    assert_eq!(records[0].name, "");
    assert!(records[0].is_unnamed());
    assert_eq!(records[0].operation, Operation::Call { tail_call: true });
    assert_eq!(records[0].operands, vec![callee.as_value_ref(), argument.handle]);
    assert_eq!(records[0].result_type, AnyType::Void);
    assert_eq!(records[1].name, "");
    assert_eq!(records[1].operation, Operation::Call { tail_call: false });

    // The same requests in the other order are recorded without a name too.
    let mut second = context.create_builder();
    second.position_at_end(&block);
    assert_eq!(second.build_call(&callee, &[], "bad\0name", false), Ok(None));
    assert_eq!(second.build_call(&callee, &[], "ignored", true), Ok(None));
    assert!(second.emitted().iter().all(|i| i.name.is_empty()));
}

#[test]
fn a_call_that_returns_a_value_keeps_its_name_and_rejects_a_bad_one() {
    let mut context = Context::create();
    let mut builder = context.create_builder();
    builder.position_at_end(&BasicBlock::new(7));
    let callee = context.add_function(0, "answer", &BasicType::Int(i32_type()).fn_type(&vec![], false));

    assert_eq!(builder.build_call(&callee, &[], "bad\0name", false), Err(BuilderError::InvalidName));
    assert_eq!(builder.emitted().len(), 0);

    let value = builder.build_call(&callee, &[], "answer", false).unwrap().unwrap();
    assert_eq!(value.kind(), ValueKind::Int);
    assert_eq!(value.get_type(), BasicType::Int(i32_type()));
    assert_eq!(builder.emitted()[0].name, "answer");
    assert!(!builder.emitted()[0].is_unnamed());
}

#[test]
fn nothing_is_emitted_after_the_position_was_cleared() {
    let mut context = Context::create();
    let mut builder = context.create_builder();
    let block = BasicBlock::new(7);
    let a = context.int_param(i32_type());
    let p = context.pointer_param(BasicType::Int(i32_type()).ptr_type(0));
    builder.position_at_end(&block);
    builder.build_int_add(&a, &a, "kept").unwrap();

    builder.clear_insertion_position();
    assert_eq!(builder.get_insert_block(), None);

    assert_eq!(builder.build_int_add(&a, &a, "lost"), Err(BuilderError::Unpositioned));
    assert_eq!(builder.build_return(None), Err(BuilderError::Unpositioned));
    assert_eq!(builder.build_store(&p, &a.as_basic_value_enum()), Err(BuilderError::Unpositioned));
    assert_eq!(builder.build_load(&p, "lost"), Err(BuilderError::Unpositioned));
    assert_eq!(builder.build_unreachable(), Err(BuilderError::Unpositioned));
    assert_eq!(
        builder.insert_instruction(&InstructionValue::new(99, Add)),
        Err(BuilderError::Unpositioned)
    );
    // The name is looked at first.
    assert_eq!(builder.build_int_add(&a, &a, "\0"), Err(BuilderError::InvalidName));

    // Nothing was attached to the block at which the builder stood.
    assert_eq!(builder.emitted().len(), 1);
    assert_eq!(builder.get_block_instructions(&block).len(), 1);

    builder.position_at_end(&block);
    builder.build_int_add(&a, &a, "again").unwrap();
    assert_eq!(builder.get_block_instructions(&block).len(), 2);
}

#[test]
fn a_new_builder_has_no_position() {
    let mut builder = Builder::new(17);
    assert_eq!(builder.get_insert_block(), None);
    assert_eq!(builder.emitted().len(), 0);
    assert_eq!(builder.build_unreachable(), Err(BuilderError::Unpositioned));
    assert_eq!(builder.emitted().len(), 0);
    assert_eq!(builder.into_cursor(), 17);
}

#[test]
fn a_name_with_a_zero_byte_is_rejected_and_nothing_is_recorded() {
    let mut context = Context::create();
    let mut builder = context.create_builder();
    builder.position_at_end(&BasicBlock::new(7));
    let a = context.int_param(i32_type());
    let p = context.pointer_param(BasicType::Int(i32_type()).ptr_type(0));

    assert_eq!(builder.build_int_add(&a, &a, "a\0b"), Err(BuilderError::InvalidName));
    assert_eq!(builder.build_load(&p, "\0"), Err(BuilderError::InvalidName));
    assert_eq!(
        builder.build_stack_allocation(&BasicType::Int(i32_type()), "x\0"),
        Err(BuilderError::InvalidName)
    );
    assert_eq!(builder.build_phi(&AnyType::Basic(BasicType::Int(i32_type())), "\0x"), Err(BuilderError::InvalidName));
    assert_eq!(
        builder.build_fence(AtomicOrdering::Acquire, 0, "f\0"),
        Err(BuilderError::InvalidName)
    );
    assert_eq!(
        builder.insert_instruction_with_name(&InstructionValue::new(99, Add), "i\0"),
        Err(BuilderError::InvalidName)
    );
    assert_eq!(builder.emitted().len(), 0);

    // The empty name and names beyond ASCII can be handed on.
    builder.build_int_add(&a, &a, "").unwrap();
    builder.build_int_add(&a, &a, "größe").unwrap();
    assert_eq!(builder.emitted().len(), 2);
    assert_eq!(builder.emitted()[1].name, "größe");
}

#[test]
fn a_name_is_valid_exactly_when_no_byte_of_it_is_zero() {
    assert!(is_valid_name(""));
    assert!(is_valid_name("entry"));
    assert!(is_valid_name("größe"));
    assert!(is_valid_name("0"));
    assert!(!is_valid_name("\0"));
    assert!(!is_valid_name("a\0"));
    assert!(!is_valid_name("\0a"));
    assert!(!is_valid_name("a\0b"));
}

#[test]
fn operands_without_a_result_type_are_rejected() {
    let mut context = Context::create();
    let mut builder = context.create_builder();
    builder.position_at_end(&BasicBlock::new(7));
    let fn_type = AnyType::void_fn_type(&vec![], false);
    let to_function = context.pointer_param(PointerType::new(AnyType::Function(fn_type), 0));
    let to_nothing = context.pointer_param(PointerType::new(AnyType::Void, 0));
    let pair = StructValue::new(
        ValueRef::given(context.fresh()),
        StructType { fields: vec![BasicType::Int(i32_type()), BasicType::Float(f32_type())], packed: false },
    );
    let zero = context.const_int(i32_type(), 0);
    let unknown = context.int_param(i32_type());
    let to_pair = context.pointer_param(BasicType::Struct(pair.get_type()).ptr_type(0));
    let to_int = context.pointer_param(BasicType::Int(i32_type()).ptr_type(0));

    assert_eq!(builder.build_load(&to_function, "f"), Err(BuilderError::IllTyped));
    assert_eq!(builder.build_load(&to_nothing, "n"), Err(BuilderError::IllTyped));
    assert_eq!(
        builder.build_extract_value(&pair.as_aggregate_value(), 2, "third"),
        Err(BuilderError::IllTyped)
    );
    // A member of a structure is selected by a constant only.
    assert_eq!(builder.build_gep(&to_pair, &[&zero, &unknown], "m"), Err(BuilderError::IllTyped));
    // An integer has no members.
    assert_eq!(builder.build_gep(&to_int, &[&zero, &zero], "m"), Err(BuilderError::IllTyped));
    assert_eq!(builder.emitted().len(), 0);

    // The name is looked at before the types, the position after the name.
    assert_eq!(builder.build_load(&to_function, "\0"), Err(BuilderError::InvalidName));
    builder.clear_insertion_position();
    assert_eq!(builder.build_load(&to_function, "f"), Err(BuilderError::Unpositioned));
}

#[test]
fn an_address_computation_points_at_what_the_indexes_reach() {
    let mut context = Context::create();
    let mut builder = context.create_builder();
    builder.position_at_end(&BasicBlock::new(7));
    let row = ArrayType { element: Box::new(BasicType::Float(f32_type())), len: 4 };
    let record = StructType {
        fields: vec![BasicType::Int(i64_type()), BasicType::Array(row.clone())],
        packed: false,
    };
    let base = context.pointer_param(BasicType::Struct(record.clone()).ptr_type(3));
    let zero = context.const_int(i32_type(), 0);
    let one = context.const_int(i32_type(), 1);
    let two = context.const_int(i32_type(), 2);
    let i = context.int_param(i64_type());

    // No index: the pointer's own type.
    let same = builder.build_gep(&base, &[], "same").unwrap();
    assert_eq!(same.get_type(), base.get_type());
    // One index steps over whole structures.
    let next = builder.build_gep(&base, &[&i], "next").unwrap();
    assert_eq!(next.get_type(), base.get_type());
    // Member 0 of the structure.
    let first = builder.build_gep(&base, &[&zero, &zero], "first").unwrap();
    assert_eq!(first.get_type(), BasicType::Int(i64_type()).ptr_type(3));
    // Member 1 is the array; an index that is known only at run time selects
    // its element.
    let cell = builder.build_gep(&base, &[&zero, &one, &i], "cell").unwrap();
    assert_eq!(cell.get_type(), BasicType::Float(f32_type()).ptr_type(3));
    let whole = builder.build_gep(&base, &[&zero, &one], "row").unwrap();
    assert_eq!(whole.get_type(), BasicType::Array(row).ptr_type(3));
    // There is no member 2.
    assert_eq!(builder.build_gep(&base, &[&zero, &two], "none"), Err(BuilderError::IllTyped));

    let records = builder.emitted();
    assert_eq!(records.len(), 5);
    assert_eq!(records[3].operation, Operation::GetElementPointer);
    assert_eq!(records[3].result.opcode, Some(GetElementPtr));
    assert_eq!(records[3].operands, vec![base.handle, zero.handle, one.handle, i.handle]);
    assert_eq!(records[3].name, "cell");
    assert_eq!(cell.handle, emitted_by(&builder, 3, GetElementPtr));
}

#[test]
fn allocations_point_at_the_allocated_type() {
    let mut context = Context::create();
    let mut builder = context.create_builder();
    builder.position_at_end(&BasicBlock::new(7));
    let ty = BasicType::Int(i64_type());
    let n = context.int_param(i32_type());

    let a = builder.build_stack_allocation(&ty, "a").unwrap();
    let b = builder.build_heap_allocation(&ty, "b").unwrap();
    let c = builder.build_array_heap_allocation(&ty, &n, "c").unwrap();
    let d = builder.build_stack_allocated_array(&ty, &n, "d").unwrap();
    for pointer in [&a, &b, &c, &d] {
        assert_eq!(pointer.get_type(), ty.ptr_type(0));
    }
    let null = builder.build_is_null(&a, "null").unwrap();
    let not_null = builder.build_is_not_null(&b, "not_null").unwrap();
    assert_eq!(null.get_type(), IntType::new(1));
    assert_eq!(not_null.get_type(), IntType::new(1));

    let records = builder.emitted();
    let operations: Vec<_> = records.iter().map(|i| i.operation).collect();
    assert_eq!(
        operations,
        vec![
            Operation::StackAllocation,
            Operation::HeapAllocation,
            Operation::ArrayHeapAllocation,
            Operation::StackAllocatedArray,
            Operation::IsNull,
            Operation::IsNotNull,
        ]
    );
    let opcodes: Vec<_> = records.iter().map(|i| i.result.opcode.unwrap()).collect();
    assert_eq!(opcodes, vec![Alloca, Call, Call, Alloca, ICmp, ICmp]);
    assert_eq!(records[0].operands, vec![]);
    assert_eq!(records[2].operands, vec![n.handle]);
    assert_eq!(records[4].operands, vec![a.handle]);
    assert_eq!(records[0].result_type, AnyType::Basic(BasicType::Pointer(ty.ptr_type(0))));
}

#[test]
fn casts_yield_a_value_of_the_destination() {
    let mut context = Context::create();
    let mut builder = context.create_builder();
    builder.position_at_end(&BasicBlock::new(7));
    let wide = context.int_param(i64_type());
    let p = context.pointer_param(BasicType::Int(i64_type()).ptr_type(0));
    let bytes = BasicType::Int(IntType::new(8)).ptr_type(0);

    let narrow = builder
        .build_cast(Trunc, &wide.as_basic_value_enum(), &BasicType::Int(i32_type()), "narrow")
        .unwrap();
    assert_eq!(narrow.get_type(), BasicType::Int(i32_type()));
    assert_eq!(narrow.as_instruction().unwrap().get_opcode(), Trunc);
    assert_eq!(narrow.clone().into_int_value().unwrap().get_type(), i32_type());

    let as_pointer = builder
        .build_cast(IntToPtr, &wide.as_basic_value_enum(), &bytes.as_basic_type(), "as_pointer")
        .unwrap();
    assert_eq!(as_pointer.kind(), ValueKind::Pointer);

    let cast = builder.build_pointer_cast(&p, &bytes, "bytes").unwrap();
    assert_eq!(cast.get_type(), bytes);
    assert_eq!(cast.as_instruction().unwrap().get_opcode(), BitCast);

    let records = builder.emitted();
    assert_eq!(records[0].operation, Operation::Cast { opcode: Trunc });
    assert_eq!(records[0].operands, vec![wide.handle]);
    assert_eq!(records[2].operation, Operation::PointerCast);
    assert_eq!(records[2].result_type, AnyType::Basic(bytes.as_basic_type()));
}

#[test]
fn aggregates_and_vectors_give_and_take_their_members() {
    let mut context = Context::create();
    let mut builder = context.create_builder();
    builder.position_at_end(&BasicBlock::new(7));
    let pair_type = StructType {
        fields: vec![BasicType::Int(i32_type()), BasicType::Float(f32_type())],
        packed: true,
    };
    let pair = StructValue::new(ValueRef::given(context.fresh()), pair_type.clone());
    let row_type = ArrayType { element: Box::new(BasicType::Int(i64_type())), len: 2 };
    let row = ArrayValue::new(ValueRef::given(context.fresh()), row_type);
    let lanes_type = VectorType { element: Box::new(BasicType::Float(f32_type())), len: 4 };
    let lanes = VectorValue::new(ValueRef::given(context.fresh()), lanes_type.clone());
    let i = context.int_param(i32_type());
    let x = context.float_param(f32_type());
    let p = context.pointer_param(BasicType::Int(i32_type()).ptr_type(0));

    let first = builder.build_extract_value(&pair.as_aggregate_value(), 0, "first").unwrap();
    assert_eq!(first.get_type(), BasicType::Int(i32_type()));
    let second = builder.build_extract_value(&pair.as_aggregate_value(), 1, "second").unwrap();
    assert_eq!(second.get_type(), BasicType::Float(f32_type()));
    // Whether an index lies within an array is left to the engine.
    let beyond = builder.build_extract_value(&row.as_aggregate_value(), 9, "beyond").unwrap();
    assert_eq!(beyond.get_type(), BasicType::Int(i64_type()));

    let inserted = builder.build_insert_value(&pair.as_basic_value_enum(), &p, 1, "inserted").unwrap();
    assert_eq!(inserted.get_opcode(), inkwell::values::InstructionOpcode::InsertValue);

    let lane = builder.build_extract_element(&lanes, &i, "lane").unwrap();
    assert_eq!(lane.get_type(), BasicType::Float(f32_type()));
    let updated = builder
        .build_insert_element(&lanes, &x.as_basic_value_enum(), &i, "updated")
        .unwrap();
    assert_eq!(updated.get_type(), BasicType::Vector(lanes_type));
    assert_eq!(updated.kind(), ValueKind::Vector);

    let records = builder.emitted();
    assert_eq!(records[1].operation, Operation::ExtractValue { index: 1 });
    assert_eq!(records[2].operation, Operation::ExtractValue { index: 9 });
    assert_eq!(records[3].operation, Operation::InsertValue { index: 1 });
    assert_eq!(records[3].operands, vec![pair.handle, p.handle]);
    assert_eq!(records[3].result_type, AnyType::Basic(BasicType::Struct(pair_type)));
    assert_eq!(records[5].operands, vec![lanes.handle, x.handle, i.handle]);
}

#[test]
fn terminators_record_their_targets() {
    let mut context = Context::create();
    let mut builder = context.create_builder();
    let entry = BasicBlock::new(1);
    let then_block = BasicBlock::new(2);
    let else_block = BasicBlock::new(3);
    let flag = context.int_param(IntType::bool_type());

    builder.position_at_end(&entry);
    let branch = builder.build_conditional_branch(&flag, &then_block, &else_block).unwrap();
    builder.position_at_end(&then_block);
    let jump = builder.build_unconditional_branch(&else_block).unwrap();
    builder.position_at_end(&else_block);
    let end = builder.build_unreachable().unwrap();

    assert_eq!(branch.get_opcode(), Br);
    assert_eq!(jump.get_opcode(), Br);
    assert_eq!(end.get_opcode(), Unreachable);
    let records = builder.emitted();
    assert_eq!(records[0].operation, Operation::ConditionalBranch);
    assert_eq!(records[0].operands, vec![flag.handle]);
    assert_eq!(records[0].targets, vec![then_block, else_block]);
    assert_eq!(records[0].block, entry);
    assert_eq!(records[1].targets, vec![else_block]);
    assert_eq!(records[1].block, then_block);
    assert_eq!(records[2].targets, vec![]);
    assert_eq!(records[2].block, else_block);
    assert!(records.iter().all(|i| i.is_unnamed() && i.result_type == AnyType::Void));
    assert_eq!(builder.get_block_instructions(&entry).len(), 1);
    assert_eq!(builder.get_block_instructions(&BasicBlock::new(4)).len(), 0);
}

#[test]
fn a_phi_node_and_a_fence_are_recorded_as_asked() {
    let mut context = Context::create();
    let mut builder = context.create_builder();
    builder.position_at_end(&BasicBlock::new(7));
    let ty = AnyType::Basic(BasicType::Int(i32_type()));

    let phi = builder.build_phi(&ty, "joined").unwrap();
    assert_eq!(phi.ty, ty);
    assert_eq!(phi.handle, emitted_by(&builder, 0, Phi));
    assert_eq!(phi.as_basic_value().unwrap().kind(), ValueKind::Int);

    let fence = builder.build_fence(AtomicOrdering::SequentiallyConsistent, 1, "").unwrap();
    assert_eq!(fence.get_opcode(), Fence);
    assert_eq!(
        builder.emitted()[1].operation,
        Operation::Fence { ordering: AtomicOrdering::SequentiallyConsistent, num: 1 }
    );
    assert_eq!(fence.as_value_ref(), builder.emitted()[1].result);
}

#[test]
fn an_instruction_made_elsewhere_is_spliced_in_under_its_own_reference() {
    let mut builder = Builder::new(5);
    let block = BasicBlock::new(7);
    builder.position_at_end(&block);
    let detached = InstructionValue::new(41, Load);
    let named = InstructionValue::new(42, Mul);

    assert_eq!(builder.insert_instruction(&detached), Ok(()));
    assert_eq!(builder.insert_instruction_with_name(&named, "spliced"), Ok(()));

    let body = builder.get_block_instructions(&block);
    assert_eq!(body.len(), 2);
    assert_eq!(body[0].operation, Operation::Insert { opcode: Load });
    assert_eq!(body[0].result, detached.as_value_ref());
    assert_eq!(body[0].as_instruction_value(), Some(detached));
    assert_eq!(body[0].name, "");
    assert_eq!(body[1].result, ValueRef { handle: Handle::Given(42), opcode: Some(Mul) });
    assert_eq!(body[1].name, "spliced");
}

#[test]
fn references_number_the_instructions_of_one_builder() {
    let mut builder = Builder::new(9);
    builder.position_at_end(&BasicBlock::new(7));
    let first = builder.build_unreachable().unwrap();
    let second = builder.build_return(None).unwrap();
    assert_eq!(first.handle, Handle::Emitted { cursor: 9, index: 0 });
    assert_eq!(second.handle, Handle::Emitted { cursor: 9, index: 1 });
    assert_eq!(
        first.as_value_ref(),
        ValueRef { handle: Handle::Emitted { cursor: 9, index: 0 }, opcode: Some(Unreachable) }
    );
    assert_ne!(first.as_value_ref(), second.as_value_ref());
}
