//! The meaning of one instruction, stated over the abstract state of a frame.
use vstd::prelude::*;

use crate::vm::bytecode::opcode;
use crate::vm::value::{is_wide, Value};

verus! {

/// The kind of an entry of the current class's run-time constant pool, as far
/// as a frame needs to know it.
#[derive(Clone, Copy, Debug, PartialEq, Eq, Structural)]
pub enum PoolEntry {
    /// No entry at this index.
    Empty,
    /// A symbolic reference to a class.
    ClassRef,
    /// A symbolic reference to a field.
    FieldRef,
    /// A symbolic reference to a method.
    MethodRef,
    /// Any other entry (literals, names, descriptors, ...).
    Other,
}

/// The three ways of invoking a method that a frame executes.
#[derive(Clone, Copy, Debug, PartialEq, Eq, Structural)]
pub enum InvokeKind {
    Virtual,
    Special,
    Static,
}

/// The component type of an array created by `newarray`.
#[derive(Clone, Copy, Debug, PartialEq, Eq, Structural)]
pub enum ArrayType {
    Boolean,
    Char,
    Float,
    Double,
    Byte,
    Short,
    Int,
    Long,
}

/// Which array instruction met a bad operand.
#[derive(Clone, Copy, Debug, PartialEq, Eq, Structural)]
pub enum ArrayOp {
    /// `iaload`, `laload`, ... , `saload`.
    Load,
    /// `iastore`, `lastore`, ... , `sastore`.
    Store,
    /// `arraylength`.
    Length,
}

/// Which field instruction met a bad object operand.
#[derive(Clone, Copy, Debug, PartialEq, Eq, Structural)]
pub enum FieldOp {
    Get,
    Put,
}

/// The ways in which executing an instruction can go wrong. Each one ends
/// the execution of the program.
#[derive(Clone, Copy, Debug, PartialEq, Eq, Structural)]
pub enum Fault {
    /// The program counter ran past the end of the code.
    CodeOverrun,
    /// The program counter would pass the largest `u16`.
    PcOverflow,
    /// An instruction needed more operands than the stack holds.
    StackUnderflow,
    /// A local variable index lies beyond the local variable array.
    LocalIndexOutOfRange,
    /// A load read a local variable slot that holds no value.
    LocalUnset,
    /// A store with an explicit index 0 computed the slot below it, `0 - 1`.
    LocalIndexUnderflow,
    /// A `null` reference where an object or array was needed.
    NullPointer,
    /// An array instruction whose index operand is not an `int`.
    IndexNotInt(ArrayOp),
    /// An array instruction whose array operand is not an array reference.
    NotAnArray(ArrayOp),
    /// `newarray` with an unknown component type tag.
    BadArrayType(u8),
    /// `newarray` with a length operand that is not an `int`.
    LengthNotInt,
    /// A constant pool index beyond the constant pool.
    PoolIndexOutOfRange(u16),
    /// The constant pool entry named by the instruction (whose opcode is
    /// given) is not of the kind that the instruction needs.
    PoolEntryMismatch(u8),
    /// `getfield` or `putfield` on an array reference.
    FieldOnArray(FieldOp),
    /// `getfield` or `putfield` on a value that is not a reference.
    FieldOnPrimitive(FieldOp),
    /// `invokevirtual` whose receiver is not a reference.
    InvokeOnPrimitive,
    /// An opcode that the frame does not execute.
    UndefinedOpcode(u8),
}

/// What remains to be done after an instruction has been decoded and its
/// frame-local part performed.
#[derive(Clone, Copy, Debug, PartialEq, Eq, Structural)]
pub enum Action {
    /// The instruction is complete.
    Continue,
    /// `return`: the method returns no value.
    Return,
    /// Push the literal at this constant pool index.
    Ldc(u16),
    /// Push element `index` of the array.
    ArrayLoad { array: u64, index: i32 },
    /// Store `value` into element `index` of the array.
    ArrayStore { array: u64, index: i32, value: Value },
    /// Push the length of the array.
    ArrayLength(u64),
    /// Push the static field named at this constant pool index.
    GetStatic(u16),
    /// Set the static field named at this constant pool index from the value
    /// popped next.
    PutStatic(u16),
    /// Push the field named at this constant pool index of the object popped
    /// next.
    GetField(u16),
    /// Set the field named at this constant pool index of the object popped
    /// next to `value`.
    PutField { pool_index: u16, value: Value },
    /// Invoke the method named at this constant pool index.
    Invoke { kind: InvokeKind, pool_index: u16 },
    /// Push a new object of the class named at this constant pool index.
    New(u16),
    /// Push a new array of this component type and of the length popped next.
    NewArray(ArrayType),
}

/// The abstract state of a frame.
#[verifier::ext_equal]
pub struct FrameState {
    /// The bytecode of the executing method.
    pub code: Seq<u8>,
    /// The kinds of the entries of the current class's constant pool.
    pub pool: Seq<PoolEntry>,
    /// The program counter.
    pub pc: u16,
    /// The local variable array.
    pub locals: Seq<Option<Value>>,
    /// The operand stack; its last element is the top.
    pub stack: Seq<Value>,
}

/// The result of one instruction: the next state and what remains to be
/// done, or the fault that ends execution.
pub type Outcome = Result<(FrameState, Action), Fault>;

/// Reads the byte at `pc`: the byte and the advanced program counter.
pub open spec fn fetch(code: Seq<u8>, pc: u16) -> Result<(u8, u16), Fault> {
    if pc >= code.len() {
        Err(Fault::CodeOverrun)
    } else if pc == u16::MAX {
        Err(Fault::PcOverflow)
    } else {
        Ok((code[pc as int], (pc + 1) as u16))
    }
}

/// Reads the big-endian two-byte operand at `pc`.
pub open spec fn fetch_u16(code: Seq<u8>, pc: u16) -> Result<(u16, u16), Fault> {
    match fetch(code, pc) {
        Err(e) => Err(e),
        Ok((hi, pc1)) => match fetch(code, pc1) {
            Err(e) => Err(e),
            Ok((lo, pc2)) => Ok(((hi as int * 256 + lo as int) as u16, pc2)),
        },
    }
}

/// The state with another program counter.
pub open spec fn at_pc(s: FrameState, pc: u16) -> FrameState {
    FrameState { pc, ..s }
}

/// The state with another program counter and operand stack.
pub open spec fn with_stack(s: FrameState, pc: u16, stack: Seq<Value>) -> FrameState {
    FrameState { pc, stack, ..s }
}

/// Completes an instruction that pushes `v`.
pub open spec fn push_op(s: FrameState, pc: u16, v: Value) -> Outcome {
    Ok((with_stack(s, pc, s.stack.push(v)), Action::Continue))
}

/// Loads local variable `idx` onto the stack.
pub open spec fn load_op(s: FrameState, pc: u16, idx: int) -> Outcome {
    if idx >= s.locals.len() {
        Err(Fault::LocalIndexOutOfRange)
    } else {
        match s.locals[idx] {
            None => Err(Fault::LocalUnset),
            Some(v) => push_op(s, pc, v),
        }
    }
}

/// A slot that holds a `long` or a `double`.
pub open spec fn holds_wide(slot: Option<Value>) -> bool {
    slot matches Some(v) && is_wide(v)
}

/// The local variable array after storing `v` at `idx`: a `long` or `double`
/// also empties the next slot, and a `long` or `double` in the slot below is
/// emptied, since the slot after it no longer is.
pub open spec fn stored_locals(locals: Seq<Option<Value>>, idx: int, v: Value) -> Seq<
    Option<Value>,
> {
    let l1 = if is_wide(v) {
        locals.update(idx + 1, None)
    } else {
        locals
    };
    let l2 = l1.update(idx, Some(v));
    if idx >= 1 && holds_wide(locals[idx - 1]) {
        l2.update(idx - 1, None)
    } else {
        l2
    }
}

/// Pops the top of the stack into local variable `idx`; `explicit` tells an
/// index read from the code (`istore` ...) from one fixed by the opcode
/// (`istore_0` ...).
pub open spec fn store_op(s: FrameState, pc: u16, idx: int, explicit: bool) -> Outcome {
    if s.stack.len() == 0 {
        Err(Fault::StackUnderflow)
    } else {
        let v = s.stack.last();
        if is_wide(v) && idx + 1 >= s.locals.len() {
            Err(Fault::LocalIndexOutOfRange)
        } else if idx >= s.locals.len() {
            Err(Fault::LocalIndexOutOfRange)
        } else if explicit && idx == 0 {
            Err(Fault::LocalIndexUnderflow)
        } else {
            Ok(
                (
                    FrameState {
                        pc,
                        stack: s.stack.drop_last(),
                        locals: stored_locals(s.locals, idx, v),
                        ..s
                    },
                    Action::Continue,
                ),
            )
        }
    }
}

/// `xaload`: pops an index and an array reference.
pub open spec fn array_load_op(s: FrameState, pc: u16) -> Outcome {
    let n = s.stack.len();
    if n == 0 {
        Err(Fault::StackUnderflow)
    } else if !(s.stack[n - 1] is Int) {
        Err(Fault::IndexNotInt(ArrayOp::Load))
    } else if n == 1 {
        Err(Fault::StackUnderflow)
    } else {
        match s.stack[n - 2] {
            Value::ArrayReference(a) => Ok(
                (
                    with_stack(s, pc, s.stack.subrange(0, n - 2)),
                    Action::ArrayLoad { array: a, index: s.stack[n - 1]->Int_0 },
                ),
            ),
            Value::NullReference => Err(Fault::NullPointer),
            _ => Err(Fault::NotAnArray(ArrayOp::Load)),
        }
    }
}

/// `xastore`: pops a value, an index and an array reference.
pub open spec fn array_store_op(s: FrameState, pc: u16) -> Outcome {
    let n = s.stack.len();
    if n < 2 {
        Err(Fault::StackUnderflow)
    } else if !(s.stack[n - 2] is Int) {
        Err(Fault::IndexNotInt(ArrayOp::Store))
    } else if n == 2 {
        Err(Fault::StackUnderflow)
    } else {
        match s.stack[n - 3] {
            Value::ArrayReference(a) => Ok(
                (
                    with_stack(s, pc, s.stack.subrange(0, n - 3)),
                    Action::ArrayStore {
                        array: a,
                        index: s.stack[n - 2]->Int_0,
                        value: s.stack[n - 1],
                    },
                ),
            ),
            Value::NullReference => Err(Fault::NullPointer),
            _ => Err(Fault::NotAnArray(ArrayOp::Store)),
        }
    }
}

/// The stack without its top value, or unchanged when it is empty.
pub open spec fn pop_if_any(stack: Seq<Value>) -> Seq<Value> {
    if stack.len() == 0 {
        stack
    } else {
        stack.drop_last()
    }
}

/// `pop`: drops the top value if there is one.
pub open spec fn pop_op(s: FrameState, pc: u16) -> Outcome {
    Ok((with_stack(s, pc, pop_if_any(s.stack)), Action::Continue))
}

/// `pop2`: drops the top value, and a second one unless the first was a
/// `long` or `double`; an empty stack is left as it is.
pub open spec fn pop2_op(s: FrameState, pc: u16) -> Outcome {
    let st = if s.stack.len() > 0 && is_wide(s.stack.last()) {
        s.stack.drop_last()
    } else {
        pop_if_any(pop_if_any(s.stack))
    };
    Ok((with_stack(s, pc, st), Action::Continue))
}

/// `dup`.
pub open spec fn dup_op(s: FrameState, pc: u16) -> Outcome {
    if s.stack.len() == 0 {
        Err(Fault::StackUnderflow)
    } else {
        push_op(s, pc, s.stack.last())
    }
}

/// `dup_x1`: `..., v2, v1` becomes `..., v1, v2, v1`.
pub open spec fn dup_x1_op(s: FrameState, pc: u16) -> Outcome {
    let n = s.stack.len();
    if n < 2 {
        Err(Fault::StackUnderflow)
    } else {
        let v1 = s.stack[n - 1];
        let v2 = s.stack[n - 2];
        Ok(
            (
                with_stack(s, pc, s.stack.subrange(0, n - 2) + seq![v1, v2, v1]),
                Action::Continue,
            ),
        )
    }
}

/// `dup_x2`: `..., v2, v1` becomes `..., v1, v2, v1` when `v2` is a `long` or
/// `double`, else `..., v3, v2, v1` becomes `..., v1, v3, v2, v1`.
pub open spec fn dup_x2_op(s: FrameState, pc: u16) -> Outcome {
    let n = s.stack.len();
    if n < 2 {
        Err(Fault::StackUnderflow)
    } else {
        let v1 = s.stack[n - 1];
        let v2 = s.stack[n - 2];
        if is_wide(v2) {
            Ok(
                (
                    with_stack(s, pc, s.stack.subrange(0, n - 2) + seq![v1, v2, v1]),
                    Action::Continue,
                ),
            )
        } else if n < 3 {
            Err(Fault::StackUnderflow)
        } else {
            let v3 = s.stack[n - 3];
            Ok(
                (
                    with_stack(s, pc, s.stack.subrange(0, n - 3) + seq![v1, v3, v2, v1]),
                    Action::Continue,
                ),
            )
        }
    }
}

/// `dup2`: `..., v1` becomes `..., v1, v1` when `v1` is a `long` or `double`,
/// else `..., v2, v1` becomes `..., v2, v1, v2, v1`.
pub open spec fn dup2_op(s: FrameState, pc: u16) -> Outcome {
    let n = s.stack.len();
    if n < 1 {
        Err(Fault::StackUnderflow)
    } else {
        let v1 = s.stack[n - 1];
        if is_wide(v1) {
            Ok((with_stack(s, pc, s.stack.push(v1)), Action::Continue))
        } else if n < 2 {
            Err(Fault::StackUnderflow)
        } else {
            let v2 = s.stack[n - 2];
            Ok(
                (
                    with_stack(s, pc, s.stack.subrange(0, n - 2) + seq![v2, v1, v2, v1]),
                    Action::Continue,
                ),
            )
        }
    }
}

/// Whether constant pool entry `index` is of kind `want`, or the fault of
/// instruction `op` if it is not.
pub open spec fn pool_check(pool: Seq<PoolEntry>, index: u16, want: PoolEntry, op: u8) -> Option<
    Fault,
> {
    if index >= pool.len() {
        Some(Fault::PoolIndexOutOfRange(index))
    } else if pool[index as int] != want {
        Some(Fault::PoolEntryMismatch(op))
    } else {
        None
    }
}

/// The constant pool entry kind that a pool-referencing instruction needs.
pub open spec fn wanted_entry(op: u8) -> PoolEntry {
    if op == opcode::NEW {
        PoolEntry::ClassRef
    } else if op == opcode::INVOKEVIRTUAL || op == opcode::INVOKESPECIAL || op
        == opcode::INVOKESTATIC {
        PoolEntry::MethodRef
    } else {
        PoolEntry::FieldRef
    }
}

/// `getstatic`, `putstatic`, `getfield`, `putfield`, the three invokes and
/// `new`: reads a constant pool index and checks the entry's kind;
/// `putfield` also pops its value first.
pub open spec fn pool_op(s: FrameState, op: u8, pc: u16) -> Outcome {
    match fetch_u16(s.code, pc) {
        Err(e) => Err(e),
        Ok((index, pc2)) => {
            if op == opcode::PUTFIELD && s.stack.len() == 0 {
                Err(Fault::StackUnderflow)
            } else {
                match pool_check(s.pool, index, wanted_entry(op), op) {
                    Some(f) => Err(f),
                    None => {
                        if op == opcode::GETSTATIC {
                            Ok((at_pc(s, pc2), Action::GetStatic(index)))
                        } else if op == opcode::PUTSTATIC {
                            Ok((at_pc(s, pc2), Action::PutStatic(index)))
                        } else if op == opcode::GETFIELD {
                            Ok((at_pc(s, pc2), Action::GetField(index)))
                        } else if op == opcode::PUTFIELD {
                            Ok(
                                (
                                    with_stack(s, pc2, s.stack.drop_last()),
                                    Action::PutField { pool_index: index, value: s.stack.last() },
                                ),
                            )
                        } else if op == opcode::INVOKEVIRTUAL {
                            Ok(
                                (
                                    at_pc(s, pc2),
                                    Action::Invoke { kind: InvokeKind::Virtual, pool_index: index },
                                ),
                            )
                        } else if op == opcode::INVOKESPECIAL {
                            Ok(
                                (
                                    at_pc(s, pc2),
                                    Action::Invoke { kind: InvokeKind::Special, pool_index: index },
                                ),
                            )
                        } else if op == opcode::INVOKESTATIC {
                            Ok(
                                (
                                    at_pc(s, pc2),
                                    Action::Invoke { kind: InvokeKind::Static, pool_index: index },
                                ),
                            )
                        } else {
                            Ok((at_pc(s, pc2), Action::New(index)))
                        }
                    },
                }
            }
        },
    }
}

/// The component type that a `newarray` tag denotes.
pub open spec fn array_type_of(tag: u8) -> Option<ArrayType> {
    if tag == 4 {
        Some(ArrayType::Boolean)
    } else if tag == 5 {
        Some(ArrayType::Char)
    } else if tag == 6 {
        Some(ArrayType::Float)
    } else if tag == 7 {
        Some(ArrayType::Double)
    } else if tag == 8 {
        Some(ArrayType::Byte)
    } else if tag == 9 {
        Some(ArrayType::Short)
    } else if tag == 10 {
        Some(ArrayType::Int)
    } else if tag == 11 {
        Some(ArrayType::Long)
    } else {
        None
    }
}

/// `newarray`: reads the component type tag.
pub open spec fn newarray_op(s: FrameState, pc: u16) -> Outcome {
    match fetch(s.code, pc) {
        Err(e) => Err(e),
        Ok((tag, pc2)) => match array_type_of(tag) {
            None => Err(Fault::BadArrayType(tag)),
            Some(t) => Ok((at_pc(s, pc2), Action::NewArray(t))),
        },
    }
}

/// `arraylength`: pops an array reference.
pub open spec fn arraylength_op(s: FrameState, pc: u16) -> Outcome {
    if s.stack.len() == 0 {
        Err(Fault::StackUnderflow)
    } else {
        match s.stack.last() {
            Value::ArrayReference(a) => Ok(
                (with_stack(s, pc, s.stack.drop_last()), Action::ArrayLength(a)),
            ),
            Value::NullReference => Err(Fault::NullPointer),
            _ => Err(Fault::NotAnArray(ArrayOp::Length)),
        }
    }
}

/// The IEEE 754 bit pattern of the `float` pushed by `fconst_<k>`.
pub open spec fn fconst_bits(op: u8) -> u32 {
    if op == opcode::FCONST_0 {
        0x0000_0000
    } else if op == opcode::FCONST_1 {
        0x3f80_0000
    } else {
        0x4000_0000
    }
}

/// The IEEE 754 bit pattern of the `double` pushed by `dconst_<k>`.
pub open spec fn dconst_bits(op: u8) -> u64 {
    if op == opcode::DCONST_0 {
        0
    } else {
        0x3ff0_0000_0000_0000
    }
}

/// Instructions that push a constant or an operand of the code.
pub open spec fn constant_op(s: FrameState, op: u8, pc: u16) -> Outcome {
    if op == opcode::ACONST_NULL {
        push_op(s, pc, Value::NullReference)
    } else if opcode::ICONST_M1 <= op <= opcode::ICONST_5 {
        push_op(s, pc, Value::Int((op - opcode::ICONST_0) as i32))
    } else if op == opcode::LCONST_0 || op == opcode::LCONST_1 {
        push_op(s, pc, Value::Long((op - opcode::LCONST_0) as i64))
    } else if opcode::FCONST_0 <= op <= opcode::FCONST_2 {
        push_op(s, pc, Value::Float(fconst_bits(op)))
    } else if op == opcode::DCONST_0 || op == opcode::DCONST_1 {
        push_op(s, pc, Value::Double(dconst_bits(op)))
    } else if op == opcode::BIPUSH {
        match fetch(s.code, pc) {
            Err(e) => Err(e),
            Ok((b, pc2)) => push_op(s, pc2, Value::Int(b as i32)),
        }
    } else if op == opcode::SIPUSH {
        match fetch_u16(s.code, pc) {
            Err(e) => Err(e),
            Ok((v, pc2)) => push_op(s, pc2, Value::Int(v as i32)),
        }
    } else if op == opcode::LDC {
        match fetch(s.code, pc) {
            Err(e) => Err(e),
            Ok((b, pc2)) => Ok((at_pc(s, pc2), Action::Ldc(b as u16))),
        }
    } else {
        // ldc_w, ldc2_w
        match fetch_u16(s.code, pc) {
            Err(e) => Err(e),
            Ok((v, pc2)) => Ok((at_pc(s, pc2), Action::Ldc(v))),
        }
    }
}

/// Loads and stores of local variables.
pub open spec fn local_op(s: FrameState, op: u8, pc: u16) -> Outcome {
    if opcode::ILOAD <= op <= opcode::ALOAD {
        match fetch(s.code, pc) {
            Err(e) => Err(e),
            Ok((b, pc2)) => load_op(s, pc2, b as int),
        }
    } else if opcode::ILOAD_0 <= op <= opcode::ALOAD_3 {
        load_op(s, pc, ((op - opcode::ILOAD_0) % 4) as int)
    } else if opcode::ISTORE <= op <= opcode::ASTORE {
        match fetch(s.code, pc) {
            Err(e) => Err(e),
            Ok((b, pc2)) => store_op(s, pc2, b as int, true),
        }
    } else {
        // istore_0 ... astore_3
        store_op(s, pc, ((op - opcode::ISTORE_0) % 4) as int, false)
    }
}

/// Instructions that only rearrange the operand stack.
pub open spec fn stack_op(s: FrameState, op: u8, pc: u16) -> Outcome {
    if op == opcode::POP {
        pop_op(s, pc)
    } else if op == opcode::POP2 {
        pop2_op(s, pc)
    } else if op == opcode::DUP {
        dup_op(s, pc)
    } else if op == opcode::DUP_X1 {
        dup_x1_op(s, pc)
    } else if op == opcode::DUP_X2 {
        dup_x2_op(s, pc)
    } else {
        dup2_op(s, pc)
    }
}

/// Executes opcode `op`, read at `s.pc`; `pc` is the address after it.
pub open spec fn instruction_op(s: FrameState, op: u8, pc: u16) -> Outcome {
    if op == opcode::NOP {
        Ok((at_pc(s, pc), Action::Continue))
    } else if opcode::ACONST_NULL <= op <= opcode::LDC2_W {
        constant_op(s, op, pc)
    } else if opcode::ILOAD <= op <= opcode::ALOAD_3 {
        local_op(s, op, pc)
    } else if opcode::IALOAD <= op <= opcode::SALOAD {
        array_load_op(s, pc)
    } else if opcode::ISTORE <= op <= opcode::ASTORE_3 {
        local_op(s, op, pc)
    } else if opcode::IASTORE <= op <= opcode::SASTORE {
        array_store_op(s, pc)
    } else if opcode::POP <= op <= opcode::DUP2 {
        stack_op(s, op, pc)
    } else if op == opcode::RETURN {
        Ok((at_pc(s, pc), Action::Return))
    } else if opcode::GETSTATIC <= op <= opcode::INVOKESTATIC || op == opcode::NEW {
        pool_op(s, op, pc)
    } else if op == opcode::NEWARRAY {
        newarray_op(s, pc)
    } else if op == opcode::ARRAYLENGTH {
        arraylength_op(s, pc)
    } else {
        Err(Fault::UndefinedOpcode(op))
    }
}

/// One instruction: fetch the opcode at the program counter and execute it.
pub open spec fn step_spec(s: FrameState) -> Outcome {
    match fetch(s.code, s.pc) {
        Err(e) => Err(e),
        Ok((op, pc)) => instruction_op(s, op, pc),
    }
}

/// The local variables that a list of argument values occupies: each value
/// in a slot of its own, a `long` or `double` followed by an empty slot.
pub open spec fn as_locals(vals: Seq<Value>) -> Seq<Option<Value>>
    decreases vals.len(),
{
    if vals.len() == 0 {
        Seq::empty()
    } else {
        let v = vals.last();
        as_locals(vals.drop_last()) + if is_wide(v) {
            seq![Some(v), None]
        } else {
            seq![Some(v)]
        }
    }
}

/// The number of `long` and `double` values in a list.
pub open spec fn wide_count(vals: Seq<Value>) -> nat
    decreases vals.len(),
{
    if vals.len() == 0 {
        0
    } else {
        wide_count(vals.drop_last()) + if is_wide(vals.last()) {
            1nat
        } else {
            0nat
        }
    }
}

/// The two-slot layout of a local variable array: every `long` or `double`
/// is followed by an empty slot.
pub open spec fn two_slot_layout(locals: Seq<Option<Value>>) -> bool {
    forall|j: int|
        0 <= j < locals.len() && holds_wide(#[trigger] locals[j]) ==> j + 1 < locals.len()
            && locals[j + 1] is None
}


/// How a frame operation that may fault relates its result and the state
/// after it to the intended outcome: on success the new state and the result
/// are the outcome's, on a fault the state is left as it was.
pub open spec fn outcome<T>(old: FrameState, new: FrameState, r: Result<T, Fault>, o: Result<(FrameState, T), Fault>) -> bool {
    match r {
        Ok(a) => o == Ok::<(FrameState, T), Fault>((new, a)),
        Err(e) => o == Err::<(FrameState, T), Fault>(e) && new == old,
    }
}

/// Pops the top of the operand stack.
pub open spec fn pop_value_op(s: FrameState) -> Result<(FrameState, Value), Fault> {
    if s.stack.len() == 0 {
        Err(Fault::StackUnderflow)
    } else {
        Ok((with_stack(s, s.pc, s.stack.drop_last()), s.stack.last()))
    }
}

/// Pops the object operand of `getfield` or `putfield`: its handle when it
/// refers to an object.
pub open spec fn pop_field_object_op(s: FrameState, op: FieldOp) -> Result<(FrameState, u64), Fault> {
    if s.stack.len() == 0 {
        Err(Fault::StackUnderflow)
    } else {
        match s.stack.last() {
            Value::ScalarReference(h) => Ok((with_stack(s, s.pc, s.stack.drop_last()), h)),
            Value::ArrayReference(_) => Err(Fault::FieldOnArray(op)),
            Value::NullReference => Err(Fault::NullPointer),
            _ => Err(Fault::FieldOnPrimitive(op)),
        }
    }
}

/// Pops the length operand of `newarray`.
pub open spec fn pop_array_length_op(s: FrameState) -> Result<(FrameState, i32), Fault> {
    if s.stack.len() == 0 {
        Err(Fault::StackUnderflow)
    } else {
        match s.stack.last() {
            Value::Int(n) => Ok((with_stack(s, s.pc, s.stack.drop_last()), n)),
            _ => Err(Fault::LengthNotInt),
        }
    }
}

/// The receiver of an `invokevirtual`: what the first argument slot refers to.
#[derive(Clone, Copy, Debug, PartialEq, Eq, Structural)]
pub enum Receiver {
    /// An object, by its handle.
    Scalar(u64),
    /// An array, by its handle.
    Array(u64),
}

/// The receiver named by the first slot of the arguments of an
/// `invokevirtual`.
pub open spec fn receiver_spec(first: Option<Value>) -> Result<Receiver, Fault> {
    match first {
        Some(Value::ScalarReference(h)) => Ok(Receiver::Scalar(h)),
        Some(Value::ArrayReference(h)) => Ok(Receiver::Array(h)),
        Some(Value::NullReference) => Err(Fault::NullPointer),
        _ => Err(Fault::InvokeOnPrimitive),
    }
}


/// The number of operand stack values that an invocation takes as its
/// arguments: the declared parameters, and the receiver below them unless the
/// method is static.
pub open spec fn arg_count(kind: InvokeKind, num_params: nat) -> nat {
    if kind == InvokeKind::Static {
        num_params
    } else {
        num_params + 1
    }
}

} // verus!
