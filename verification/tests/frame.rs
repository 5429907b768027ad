use rust_jvm::model::class_file::access_flags::class_access_flags;
use rust_jvm::vm::bytecode::opcode;
use rust_jvm::vm::frame::semantics::{
    Action, ArrayOp, ArrayType, FieldOp, Fault, InvokeKind, PoolEntry, Receiver,
};
use rust_jvm::vm::frame::Frame;
use rust_jvm::vm::value::Value;

fn frame(code: Vec<u8>) -> Frame {
    Frame::new(code, vec![], vec![None, None, None, None])
}

fn frame_with_stack(code: Vec<u8>, stack: Vec<Value>) -> Frame {
    let mut f = Frame::new(code, vec![], vec![None, None, None, None]);
    for v in stack {
        f.push(v);
    }
    f
}

fn pool_frame(code: Vec<u8>, stack: Vec<Value>) -> Frame {
    let pool = vec![
        PoolEntry::Empty,
        PoolEntry::ClassRef,
        PoolEntry::FieldRef,
        PoolEntry::MethodRef,
        PoolEntry::Other,
    ];
    let mut f = Frame::new(code, pool, vec![]);
    for v in stack {
        f.push(v);
    }
    f
}

#[test]
fn new_frame_starts_at_first_byte_with_empty_stack() {
    let f = Frame::new(vec![opcode::NOP], vec![PoolEntry::Empty], vec![Some(Value::Int(3))]);
    assert_eq!(f.pc(), 0);
    assert!(f.operand_stack().is_empty());
    assert_eq!(f.local_variables(), &vec![Some(Value::Int(3))]);
}

#[test]
fn nop_advances_pc() {
    let mut f = frame(vec![opcode::NOP, opcode::NOP]);
    assert_eq!(f.step(), Ok(Action::Continue));
    assert_eq!(f.pc(), 1);
    assert_eq!(f.step(), Ok(Action::Continue));
    assert_eq!(f.pc(), 2);
    assert_eq!(f.step(), Err(Fault::CodeOverrun));
    assert_eq!(f.pc(), 2);
}

#[test]
fn int_constants() {
    let code: Vec<u8> = (opcode::ICONST_M1..=opcode::ICONST_5).collect();
    let mut f = frame(code);
    for _ in 0..7 {
        assert_eq!(f.step(), Ok(Action::Continue));
    }
    assert_eq!(f.operand_stack(), &vec![
        Value::Int(-1), Value::Int(0), Value::Int(1), Value::Int(2),
        Value::Int(3), Value::Int(4), Value::Int(5),
    ]);
}

#[test]
fn other_constants() {
    let mut f = frame(vec![
        opcode::ACONST_NULL, opcode::LCONST_0, opcode::LCONST_1, opcode::FCONST_0,
        opcode::FCONST_1, opcode::FCONST_2, opcode::DCONST_0, opcode::DCONST_1,
    ]);
    for _ in 0..8 {
        assert_eq!(f.step(), Ok(Action::Continue));
    }
    assert_eq!(f.operand_stack(), &vec![
        Value::NullReference,
        Value::Long(0),
        Value::Long(1),
        Value::Float(0.0f32.to_bits()),
        Value::Float(1.0f32.to_bits()),
        Value::Float(2.0f32.to_bits()),
        Value::Double(0.0f64.to_bits()),
        Value::Double(1.0f64.to_bits()),
    ]);
}

#[test]
fn bipush_and_sipush_zero_extend_their_operand() {
    let mut f = frame(vec![opcode::BIPUSH, 0xff, opcode::SIPUSH, 0x12, 0x34, opcode::SIPUSH, 0xff, 0xfe]);
    assert_eq!(f.step(), Ok(Action::Continue));
    assert_eq!(f.pc(), 2);
    assert_eq!(f.step(), Ok(Action::Continue));
    assert_eq!(f.pc(), 5);
    assert_eq!(f.step(), Ok(Action::Continue));
    assert_eq!(f.pc(), 8);
    assert_eq!(f.operand_stack(), &vec![Value::Int(255), Value::Int(0x1234), Value::Int(0xfffe)]);
}

#[test]
fn truncated_operand_is_a_code_overrun() {
    let mut f = frame(vec![opcode::SIPUSH, 0x12]);
    assert_eq!(f.step(), Err(Fault::CodeOverrun));
    assert_eq!(f.pc(), 0);
    assert!(f.operand_stack().is_empty());
}

#[test]
fn ldc_reads_the_pool_index() {
    let mut f = frame(vec![opcode::LDC, 7, opcode::LDC_W, 0x01, 0x02, opcode::LDC2_W, 0x00, 0x09]);
    assert_eq!(f.step(), Ok(Action::Ldc(7)));
    assert_eq!(f.step(), Ok(Action::Ldc(0x0102)));
    assert_eq!(f.step(), Ok(Action::Ldc(9)));
    assert_eq!(f.pc(), 8);
    f.push(Value::Int(42));
    assert_eq!(f.operand_stack(), &vec![Value::Int(42)]);
}

#[test]
fn store_then_load_round_trip() {
    let mut f = frame_with_stack(vec![opcode::ISTORE_2, opcode::ILOAD_2], vec![Value::Int(7)]);
    assert_eq!(f.step(), Ok(Action::Continue));
    assert!(f.operand_stack().is_empty());
    assert_eq!(f.local_variables()[2], Some(Value::Int(7)));
    assert_eq!(f.step(), Ok(Action::Continue));
    assert_eq!(f.operand_stack(), &vec![Value::Int(7)]);
}

#[test]
fn explicit_index_store_and_load() {
    let mut f = frame_with_stack(vec![opcode::ASTORE, 3, opcode::ALOAD, 3], vec![Value::ScalarReference(5)]);
    assert_eq!(f.step(), Ok(Action::Continue));
    assert_eq!(f.pc(), 2);
    assert_eq!(f.step(), Ok(Action::Continue));
    assert_eq!(f.pc(), 4);
    assert_eq!(f.operand_stack(), &vec![Value::ScalarReference(5)]);
}

#[test]
fn wide_store_empties_the_next_slot() {
    let mut f = Frame::new(vec![opcode::LSTORE_1], vec![], vec![None, Some(Value::Int(1)), Some(Value::Int(2))]);
    f.push(Value::Long(9));
    assert_eq!(f.step(), Ok(Action::Continue));
    assert_eq!(f.local_variables(), &vec![None, Some(Value::Long(9)), None]);
}

#[test]
fn store_empties_a_wide_value_below_from_slot_two_on() {
    let mut f = Frame::new(vec![opcode::ISTORE_3], vec![], vec![None, None, Some(Value::Double(4)), None]);
    f.push(Value::Int(1));
    assert_eq!(f.step(), Ok(Action::Continue));
    assert_eq!(f.local_variables(), &vec![None, None, None, Some(Value::Int(1))]);
}

#[test]
fn store_into_slot_one_empties_a_wide_value_in_slot_zero() {
    let mut f = Frame::new(vec![opcode::ISTORE_1], vec![], vec![Some(Value::Long(4)), None]);
    f.push(Value::Int(1));
    assert_eq!(f.step(), Ok(Action::Continue));
    assert_eq!(f.local_variables(), &vec![None, Some(Value::Int(1))]);
    let mut g = Frame::new(vec![opcode::DSTORE, 1], vec![], vec![Some(Value::Double(4)), None, None]);
    g.push(Value::Double(2));
    assert_eq!(g.step(), Ok(Action::Continue));
    assert_eq!(g.local_variables(), &vec![None, Some(Value::Double(2)), None]);
}

#[test]
fn explicit_store_at_zero_faults() {
    let mut f = frame_with_stack(vec![opcode::ISTORE, 0], vec![Value::Int(1)]);
    assert_eq!(f.step(), Err(Fault::LocalIndexUnderflow));
    assert_eq!(f.operand_stack(), &vec![Value::Int(1)]);
    let mut g = frame_with_stack(vec![opcode::ISTORE_0], vec![Value::Int(1)]);
    assert_eq!(g.step(), Ok(Action::Continue));
    assert_eq!(g.local_variables()[0], Some(Value::Int(1)));
}

#[test]
fn local_variable_faults() {
    let mut f = Frame::new(vec![opcode::ILOAD_1], vec![], vec![Some(Value::Int(0))]);
    assert_eq!(f.step(), Err(Fault::LocalIndexOutOfRange));
    let mut f = Frame::new(vec![opcode::ILOAD_0], vec![], vec![None]);
    assert_eq!(f.step(), Err(Fault::LocalUnset));
    let mut f = Frame::new(vec![opcode::LSTORE_0], vec![], vec![None]);
    f.push(Value::Long(1));
    assert_eq!(f.step(), Err(Fault::LocalIndexOutOfRange));
    let mut f = Frame::new(vec![opcode::ISTORE_0], vec![], vec![None]);
    assert_eq!(f.step(), Err(Fault::StackUnderflow));
}

#[test]
fn array_load_hands_out_array_and_index() {
    let mut f = frame_with_stack(vec![opcode::IALOAD], vec![Value::ArrayReference(3), Value::Int(-2)]);
    assert_eq!(f.step(), Ok(Action::ArrayLoad { array: 3, index: -2 }));
    assert!(f.operand_stack().is_empty());
}

#[test]
fn array_load_faults() {
    let mut f = frame_with_stack(vec![opcode::BALOAD], vec![Value::NullReference, Value::Int(0)]);
    assert_eq!(f.step(), Err(Fault::NullPointer));
    let mut f = frame_with_stack(vec![opcode::BALOAD], vec![Value::Int(1), Value::Int(0)]);
    assert_eq!(f.step(), Err(Fault::NotAnArray(ArrayOp::Load)));
    let mut f = frame_with_stack(vec![opcode::BALOAD], vec![Value::ArrayReference(1), Value::Long(0)]);
    assert_eq!(f.step(), Err(Fault::IndexNotInt(ArrayOp::Load)));
    let mut f = frame_with_stack(vec![opcode::BALOAD], vec![Value::Int(0)]);
    assert_eq!(f.step(), Err(Fault::StackUnderflow));
}

#[test]
fn array_store_hands_out_array_index_and_value() {
    let mut f = frame_with_stack(
        vec![opcode::LASTORE],
        vec![Value::Int(8), Value::ArrayReference(3), Value::Int(1), Value::Long(5)],
    );
    assert_eq!(f.step(), Ok(Action::ArrayStore { array: 3, index: 1, value: Value::Long(5) }));
    assert_eq!(f.operand_stack(), &vec![Value::Int(8)]);
}

#[test]
fn array_store_faults() {
    let mut f = frame_with_stack(vec![opcode::IASTORE], vec![Value::NullReference, Value::Int(0), Value::Int(1)]);
    assert_eq!(f.step(), Err(Fault::NullPointer));
    let mut f = frame_with_stack(vec![opcode::IASTORE], vec![Value::ScalarReference(2), Value::Int(0), Value::Int(1)]);
    assert_eq!(f.step(), Err(Fault::NotAnArray(ArrayOp::Store)));
    let mut f = frame_with_stack(vec![opcode::IASTORE], vec![Value::ArrayReference(2), Value::NullReference, Value::Int(1)]);
    assert_eq!(f.step(), Err(Fault::IndexNotInt(ArrayOp::Store)));
    let mut f = frame_with_stack(vec![opcode::IASTORE], vec![Value::Int(0), Value::Int(1)]);
    assert_eq!(f.step(), Err(Fault::StackUnderflow));
}

#[test]
fn pop_and_pop2() {
    let mut f = frame_with_stack(vec![opcode::POP, opcode::POP2, opcode::POP2, opcode::POP, opcode::POP2],
        vec![Value::Int(1), Value::Int(2), Value::Long(3), Value::Int(4)]);
    assert_eq!(f.step(), Ok(Action::Continue));
    assert_eq!(f.operand_stack(), &vec![Value::Int(1), Value::Int(2), Value::Long(3)]);
    assert_eq!(f.step(), Ok(Action::Continue));
    assert_eq!(f.operand_stack(), &vec![Value::Int(1), Value::Int(2)]);
    assert_eq!(f.step(), Ok(Action::Continue));
    assert!(f.operand_stack().is_empty());
    assert_eq!(f.step(), Ok(Action::Continue));
    assert_eq!(f.step(), Ok(Action::Continue));
    assert!(f.operand_stack().is_empty());
}

#[test]
fn dup_then_pop_restores_the_stack() {
    let mut f = frame_with_stack(vec![opcode::DUP, opcode::POP], vec![Value::Int(1), Value::Float(2)]);
    assert_eq!(f.step(), Ok(Action::Continue));
    assert_eq!(f.operand_stack(), &vec![Value::Int(1), Value::Float(2), Value::Float(2)]);
    assert_eq!(f.step(), Ok(Action::Continue));
    assert_eq!(f.operand_stack(), &vec![Value::Int(1), Value::Float(2)]);
}

#[test]
fn dup_variants() {
    let mut f = frame_with_stack(vec![opcode::DUP_X1], vec![Value::Int(2), Value::Int(1)]);
    assert_eq!(f.step(), Ok(Action::Continue));
    assert_eq!(f.operand_stack(), &vec![Value::Int(1), Value::Int(2), Value::Int(1)]);

    let mut f = frame_with_stack(vec![opcode::DUP_X2], vec![Value::Int(3), Value::Int(2), Value::Int(1)]);
    assert_eq!(f.step(), Ok(Action::Continue));
    assert_eq!(f.operand_stack(), &vec![Value::Int(1), Value::Int(3), Value::Int(2), Value::Int(1)]);

    let mut f = frame_with_stack(vec![opcode::DUP_X2], vec![Value::Long(2), Value::Int(1)]);
    assert_eq!(f.step(), Ok(Action::Continue));
    assert_eq!(f.operand_stack(), &vec![Value::Int(1), Value::Long(2), Value::Int(1)]);

    let mut f = frame_with_stack(vec![opcode::DUP2], vec![Value::Int(2), Value::Int(1)]);
    assert_eq!(f.step(), Ok(Action::Continue));
    assert_eq!(f.operand_stack(), &vec![Value::Int(2), Value::Int(1), Value::Int(2), Value::Int(1)]);

    let mut f = frame_with_stack(vec![opcode::DUP2], vec![Value::Double(7)]);
    assert_eq!(f.step(), Ok(Action::Continue));
    assert_eq!(f.operand_stack(), &vec![Value::Double(7), Value::Double(7)]);
}

#[test]
fn dup_faults_on_short_stack() {
    let mut f = frame(vec![opcode::DUP]);
    assert_eq!(f.step(), Err(Fault::StackUnderflow));
    let mut f = frame_with_stack(vec![opcode::DUP_X1], vec![Value::Int(1)]);
    assert_eq!(f.step(), Err(Fault::StackUnderflow));
    let mut f = frame_with_stack(vec![opcode::DUP_X2], vec![Value::Int(2), Value::Int(1)]);
    assert_eq!(f.step(), Err(Fault::StackUnderflow));
    assert_eq!(f.operand_stack(), &vec![Value::Int(2), Value::Int(1)]);
    let mut f = frame_with_stack(vec![opcode::DUP2], vec![Value::Int(1)]);
    assert_eq!(f.step(), Err(Fault::StackUnderflow));
}

#[test]
fn return_ends_the_method() {
    let mut f = frame(vec![opcode::RETURN]);
    assert_eq!(f.step(), Ok(Action::Return));
    assert_eq!(f.pc(), 1);
}

#[test]
fn field_instructions() {
    let mut f = pool_frame(
        vec![opcode::GETSTATIC, 0, 2, opcode::PUTSTATIC, 0, 2, opcode::GETFIELD, 0, 2, opcode::PUTFIELD, 0, 2],
        vec![Value::ScalarReference(1), Value::Int(5)],
    );
    assert_eq!(f.step(), Ok(Action::GetStatic(2)));
    assert_eq!(f.step(), Ok(Action::PutStatic(2)));
    assert_eq!(f.step(), Ok(Action::GetField(2)));
    assert_eq!(f.step(), Ok(Action::PutField { pool_index: 2, value: Value::Int(5) }));
    assert_eq!(f.operand_stack(), &vec![Value::ScalarReference(1)]);
    assert_eq!(f.pc(), 12);
    assert_eq!(f.pop_field_object(FieldOp::Put), Ok(1));
    assert!(f.operand_stack().is_empty());
}

#[test]
fn pool_entry_faults() {
    let mut f = pool_frame(vec![opcode::GETSTATIC, 0, 3], vec![]);
    assert_eq!(f.step(), Err(Fault::PoolEntryMismatch(opcode::GETSTATIC)));
    assert_eq!(f.pc(), 0);
    let mut f = pool_frame(vec![opcode::NEW, 0, 9], vec![]);
    assert_eq!(f.step(), Err(Fault::PoolIndexOutOfRange(9)));
    let mut f = pool_frame(vec![opcode::INVOKESTATIC, 0, 1], vec![]);
    assert_eq!(f.step(), Err(Fault::PoolEntryMismatch(opcode::INVOKESTATIC)));
    let mut f = pool_frame(vec![opcode::PUTFIELD, 0, 3], vec![]);
    assert_eq!(f.step(), Err(Fault::StackUnderflow));
}

#[test]
fn invoke_and_new_instructions() {
    let mut f = pool_frame(
        vec![opcode::INVOKEVIRTUAL, 0, 3, opcode::INVOKESPECIAL, 0, 3, opcode::INVOKESTATIC, 0, 3, opcode::NEW, 0, 1],
        vec![],
    );
    assert_eq!(f.step(), Ok(Action::Invoke { kind: InvokeKind::Virtual, pool_index: 3 }));
    assert_eq!(f.step(), Ok(Action::Invoke { kind: InvokeKind::Special, pool_index: 3 }));
    assert_eq!(f.step(), Ok(Action::Invoke { kind: InvokeKind::Static, pool_index: 3 }));
    assert_eq!(f.step(), Ok(Action::New(1)));
}

#[test]
fn newarray_tags() {
    let tags = [
        (4, ArrayType::Boolean), (5, ArrayType::Char), (6, ArrayType::Float), (7, ArrayType::Double),
        (8, ArrayType::Byte), (9, ArrayType::Short), (10, ArrayType::Int), (11, ArrayType::Long),
    ];
    for (tag, ty) in tags {
        let mut f = frame(vec![opcode::NEWARRAY, tag]);
        assert_eq!(f.step(), Ok(Action::NewArray(ty)));
        assert_eq!(f.pc(), 2);
    }
    let mut f = frame(vec![opcode::NEWARRAY, 12]);
    assert_eq!(f.step(), Err(Fault::BadArrayType(12)));
}

#[test]
fn newarray_length_operand() {
    let mut f = frame_with_stack(vec![], vec![Value::Int(4)]);
    assert_eq!(f.pop_array_length(), Ok(4));
    let mut f = frame_with_stack(vec![], vec![Value::Long(4)]);
    assert_eq!(f.pop_array_length(), Err(Fault::LengthNotInt));
    assert_eq!(f.operand_stack(), &vec![Value::Long(4)]);
    let mut f = frame(vec![]);
    assert_eq!(f.pop_array_length(), Err(Fault::StackUnderflow));
}

#[test]
fn arraylength_instruction() {
    let mut f = frame_with_stack(vec![opcode::ARRAYLENGTH], vec![Value::ArrayReference(6)]);
    assert_eq!(f.step(), Ok(Action::ArrayLength(6)));
    assert!(f.operand_stack().is_empty());
    let mut f = frame_with_stack(vec![opcode::ARRAYLENGTH], vec![Value::NullReference]);
    assert_eq!(f.step(), Err(Fault::NullPointer));
    let mut f = frame_with_stack(vec![opcode::ARRAYLENGTH], vec![Value::ScalarReference(1)]);
    assert_eq!(f.step(), Err(Fault::NotAnArray(ArrayOp::Length)));
}

#[test]
fn undefined_opcode() {
    let mut f = frame(vec![0x60]);
    assert_eq!(f.step(), Err(Fault::UndefinedOpcode(0x60)));
    assert_eq!(f.pc(), 0);
}

#[test]
fn field_object_operand() {
    let mut f = frame_with_stack(vec![], vec![Value::ArrayReference(1)]);
    assert_eq!(f.pop_field_object(FieldOp::Get), Err(Fault::FieldOnArray(FieldOp::Get)));
    let mut f = frame_with_stack(vec![], vec![Value::NullReference]);
    assert_eq!(f.pop_field_object(FieldOp::Get), Err(Fault::NullPointer));
    let mut f = frame_with_stack(vec![], vec![Value::Int(0)]);
    assert_eq!(f.pop_field_object(FieldOp::Put), Err(Fault::FieldOnPrimitive(FieldOp::Put)));
    let mut f = frame(vec![]);
    assert_eq!(f.pop_field_object(FieldOp::Get), Err(Fault::StackUnderflow));
}

#[test]
fn pop_operand_takes_the_top() {
    let mut f = frame_with_stack(vec![], vec![Value::Int(1), Value::Int(2)]);
    assert_eq!(f.pop_operand(), Ok(Value::Int(2)));
    assert_eq!(f.operand_stack(), &vec![Value::Int(1)]);
    let mut f = frame(vec![]);
    assert_eq!(f.pop_operand(), Err(Fault::StackUnderflow));
}

#[test]
fn pop_as_locals_lays_out_two_slot_values() {
    let f = frame_with_stack(vec![], vec![Value::Int(9), Value::ScalarReference(1), Value::Long(2), Value::Int(3)]);
    let args = f.pop_as_locals(3);
    assert_eq!(args, vec![Some(Value::ScalarReference(1)), Some(Value::Long(2)), None, Some(Value::Int(3))]);
    assert_eq!(args.len(), 3 + 1);
    assert_eq!(f.operand_stack().len(), 4);
    assert_eq!(f.pop_as_locals(0), vec![]);
}

#[test]
fn receiver_of_invokevirtual() {
    assert_eq!(Frame::receiver(&vec![Some(Value::ScalarReference(4)), Some(Value::Int(1))]), Ok(Receiver::Scalar(4)));
    assert_eq!(Frame::receiver(&vec![Some(Value::ArrayReference(5))]), Ok(Receiver::Array(5)));
    assert_eq!(Frame::receiver(&vec![Some(Value::NullReference)]), Err(Fault::NullPointer));
    assert_eq!(Frame::receiver(&vec![Some(Value::Long(1)), None]), Err(Fault::InvokeOnPrimitive));
}

#[test]
fn invokespecial_method_selection() {
    let sup = class_access_flags::ACC_SUPER | class_access_flags::ACC_PUBLIC;
    assert!(Frame::invokes_resolved_method(class_access_flags::ACC_PUBLIC, true, "m"));
    assert!(Frame::invokes_resolved_method(sup, false, "m"));
    assert!(Frame::invokes_resolved_method(sup, true, "<init>"));
    assert!(!Frame::invokes_resolved_method(sup, true, "m"));
    assert!(!Frame::invokes_resolved_method(sup, true, "<clinit>"));
}

#[test]
fn access_flag_values() {
    assert_eq!(class_access_flags::ACC_SUPER, 0x0020);
    assert_eq!(rust_jvm::model::class_file::access_flags::parameter_access_flags::ACC_MANDATED, 0x8000);
    assert_eq!(rust_jvm::model::class_file::access_flags::method_access_flags::ACC_STRICT, 0x0800);
    assert_eq!(rust_jvm::model::class_file::access_flags::field_access_flags::ACC_TRANSIENT, 0x0080);
    assert_eq!(rust_jvm::model::class_file::access_flags::inner_class_access_flags::ACC_PROTECTED, 0x0004);
}

#[test]
fn invoke_args_take_the_receiver_unless_static() {
    let f = frame_with_stack(vec![], vec![Value::ScalarReference(1), Value::Long(2), Value::Int(3)]);
    assert_eq!(
        f.invoke_args(InvokeKind::Virtual, 2),
        Ok(vec![Some(Value::ScalarReference(1)), Some(Value::Long(2)), None, Some(Value::Int(3))])
    );
    assert_eq!(f.invoke_args(InvokeKind::Static, 1), Ok(vec![Some(Value::Int(3))]));
    assert_eq!(f.invoke_args(InvokeKind::Special, 3), Err(Fault::StackUnderflow));
    assert_eq!(f.invoke_args(InvokeKind::Static, 3).map(|a| a.len()), Ok(4));
    assert_eq!(f.invoke_args(InvokeKind::Static, 4), Err(Fault::StackUnderflow));
    assert_eq!(f.operand_stack().len(), 3);
}
