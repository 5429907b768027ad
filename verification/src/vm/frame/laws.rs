//! Properties of frame execution that span instructions and operations.
use vstd::prelude::*;

use crate::vm::bytecode::opcode;
use crate::vm::frame::semantics::{
    array_load_op, array_store_op, as_locals, constant_op, fetch, holds_wide, instruction_op,
    load_op, local_op, pool_op, stack_op, step_spec, store_op, stored_locals, two_slot_layout,
    wide_count, arg_count, pop_array_length_op, pop_field_object_op, pop_value_op, receiver_spec,
    Action, ArrayOp, ArrayType, FieldOp, Fault, FrameState, InvokeKind, PoolEntry, Receiver,
};
use crate::vm::value::{is_wide, Value};

verus! {

/// Executing an instruction never changes the code or the constant pool of
/// the frame.
pub proof fn step_keeps_code_and_pool(s: FrameState)
    ensures
        step_spec(s) matches Ok((t, _)) ==> t.code == s.code && t.pool == s.pool,
{
}

/// Every instruction that completes moves the program counter past its
/// opcode and its operands: forward by one to three bytes.
pub proof fn step_advances_pc(s: FrameState)
    ensures
        step_spec(s) matches Ok((t, _)) ==> s.pc < t.pc <= s.pc + 3,
{
}

/// The arguments of an invoked method occupy one slot each, and one more for
/// each `long` or `double`.
pub proof fn as_locals_len(vals: Seq<Value>)
    ensures
        as_locals(vals).len() == vals.len() + wide_count(vals),
    decreases vals.len(),
{
    if vals.len() > 0 {
        as_locals_len(vals.drop_last());
    }
}

/// The arguments of an invoked method are laid out in two-slot form: every
/// `long` or `double` is followed by an empty slot.
pub proof fn as_locals_two_slot_layout(vals: Seq<Value>)
    ensures
        two_slot_layout(as_locals(vals)),
        as_locals(vals).len() > 0 ==> as_locals(vals).last() is None || !holds_wide(
            as_locals(vals).last(),
        ),
    decreases vals.len(),
{
    if vals.len() > 0 {
        let prefix = as_locals(vals.drop_last());
        as_locals_two_slot_layout(vals.drop_last());
        let v = vals.last();
        let tail: Seq<Option<Value>> = if is_wide(v) {
            seq![Some(v), None]
        } else {
            seq![Some(v)]
        };
        let all = prefix + tail;
        assert(all == as_locals(vals));
        assert forall|j: int| 0 <= j < all.len() && holds_wide(#[trigger] all[j]) implies j + 1
            < all.len() && all[j + 1] is None by {
            if j < prefix.len() {
                if j + 1 == prefix.len() {
                    assert(all[j] == prefix.last());
                } else {
                    assert(all[j] == prefix[j]);
                    assert(all[j + 1] == prefix[j + 1]);
                }
            } else {
                assert(all[j] == tail[j - prefix.len()]);
            }
        }
    }
}

/// A store keeps the two-slot layout of the local variables.
pub proof fn stored_locals_two_slot_layout(l: Seq<Option<Value>>, idx: int, v: Value)
    requires
        two_slot_layout(l),
        0 <= idx < l.len(),
        is_wide(v) ==> idx + 1 < l.len(),
    ensures
        two_slot_layout(stored_locals(l, idx, v)),
        stored_locals(l, idx, v).len() == l.len(),
        stored_locals(l, idx, v)[idx] == Some(v),
{
    let n = stored_locals(l, idx, v);
    assert forall|j: int| 0 <= j < n.len() && holds_wide(#[trigger] n[j]) implies j + 1 < n.len()
        && n[j + 1] is None by {
        if j == idx {
        } else if j == idx - 1 {
        } else if j == idx + 1 && is_wide(v) {
        } else {
            assert(n[j] == l[j]);
            assert(holds_wide(l[j]));
        }
    }
}

/// Whether the instruction at the program counter stores into local variable
/// `idx`.
pub open spec fn stores_into(s: FrameState, idx: int) -> bool {
    match fetch(s.code, s.pc) {
        Err(_) => false,
        Ok((op, pc)) => {
            ||| opcode::ISTORE_0 <= op <= opcode::ASTORE_3 && (op - opcode::ISTORE_0) % 4 == idx
            ||| opcode::ISTORE <= op <= opcode::ASTORE && (fetch(s.code, pc) matches Ok((b, _))
                && b == idx)
        }
    }
}

/// Whether the instruction at the program counter loads local variable `idx`.
pub open spec fn loads_from(s: FrameState, idx: int) -> bool {
    match fetch(s.code, s.pc) {
        Err(_) => false,
        Ok((op, pc)) => {
            ||| opcode::ILOAD_0 <= op <= opcode::ALOAD_3 && (op - opcode::ILOAD_0) % 4 == idx
            ||| opcode::ILOAD <= op <= opcode::ALOAD && (fetch(s.code, pc) matches Ok((b, _))
                && b == idx)
        }
    }
}

/// Every instruction that completes keeps the two-slot layout of the local
/// variables: every `long` or `double` is followed by an empty slot.
pub proof fn step_keeps_two_slot_layout(s: FrameState)
    requires
        two_slot_layout(s.locals),
    ensures
        step_spec(s) matches Ok((t, _)) ==> two_slot_layout(t.locals),
{
    if let Ok((op, pc)) = fetch(s.code, s.pc) {
        if opcode::ISTORE <= op <= opcode::ASTORE_3 && !(opcode::IALOAD <= op <= opcode::SALOAD) {
            if let Ok((t, _)) = step_spec(s) {
                let v = s.stack.last();
                if opcode::ISTORE <= op <= opcode::ASTORE {
                    let (b, pc2) = fetch(s.code, pc)->Ok_0;
                    assert(local_op(s, op, pc) == store_op(s, pc2, b as int, true));
                    stored_locals_two_slot_layout(s.locals, b as int, v);
                } else {
                    let k = ((op - opcode::ISTORE_0) % 4) as int;
                    assert(local_op(s, op, pc) == store_op(s, pc, k, false));
                    stored_locals_two_slot_layout(s.locals, k, v);
                }
            }
        }
    }
}

/// A store into a local variable followed by a load of the same variable
/// pushes back the value that was stored: the operand stack is as it was
/// before the store, and the variable holds the value.
pub proof fn store_then_load(s: FrameState, idx: int)
    requires
        stores_into(s, idx),
        step_spec(s) is Ok,
        loads_from(step_spec(s)->Ok_0.0, idx),
    ensures
        ({
            let t1 = step_spec(s)->Ok_0.0;
            &&& step_spec(t1) is Ok
            &&& step_spec(t1)->Ok_0.0.stack == s.stack
            &&& step_spec(t1)->Ok_0.0.locals == t1.locals
            &&& t1.locals[idx] == Some(s.stack.last())
            &&& step_spec(t1)->Ok_0.1 == Action::Continue
        }),
{
    let (op, pc) = fetch(s.code, s.pc)->Ok_0;
    let t1 = step_spec(s)->Ok_0.0;
    let v = s.stack.last();
    assert(s.stack.len() > 0);
    if opcode::ISTORE <= op <= opcode::ASTORE {
        let (b, pc2) = fetch(s.code, pc)->Ok_0;
        assert(local_op(s, op, pc) == store_op(s, pc2, b as int, true));
    } else {
        assert(local_op(s, op, pc) == store_op(s, pc, idx, false));
    }
    assert(t1.locals == stored_locals(s.locals, idx, v));
    assert(t1.stack == s.stack.drop_last());
    assert(t1.locals[idx] == Some(v));
    let (op1, pc1) = fetch(t1.code, t1.pc)->Ok_0;
    assert(t1.stack.push(v) == s.stack);
}

/// `dup` followed by `pop` leaves the operand stack as it was.
pub proof fn dup_then_pop(s: FrameState)
    requires
        s.stack.len() > 0,
        fetch(s.code, s.pc) matches Ok((op, _)) && op == opcode::DUP,
        fetch(s.code, (s.pc + 1) as u16) matches Ok((op, _)) && op == opcode::POP,
    ensures
        step_spec(s) is Ok,
        step_spec(step_spec(s)->Ok_0.0) is Ok,
        step_spec(step_spec(s)->Ok_0.0)->Ok_0.0.stack == s.stack,
        step_spec(step_spec(s)->Ok_0.0)->Ok_0.0.locals == s.locals,
{
    let (op, pc) = fetch(s.code, s.pc)->Ok_0;
    assert(instruction_op(s, op, pc) == stack_op(s, op, pc));
    let t1 = step_spec(s)->Ok_0.0;
    assert(t1.stack == s.stack.push(s.stack.last()));
    let (op1, pc1) = fetch(t1.code, t1.pc)->Ok_0;
    assert(instruction_op(t1, op1, pc1) == stack_op(t1, op1, pc1));
    assert(t1.stack.drop_last() =~= s.stack);
}

/// A store into local variable `idx` pops the top value `v` into slot `idx`
/// and changes no other slot, with two exceptions. A `long` or `double` `v`
/// also empties slot `idx + 1`. A `long` or `double` in slot `idx - 1` is
/// emptied.
pub proof fn store_changes_only_its_slots(s: FrameState, idx: int)
    requires
        stores_into(s, idx),
        step_spec(s) is Ok,
    ensures
        s.stack.len() > 0,
        ({
            let t = step_spec(s)->Ok_0.0;
            let v = s.stack.last();
            &&& t.stack == s.stack.drop_last()
            &&& t.locals.len() == s.locals.len()
            &&& 0 <= idx < s.locals.len()
            &&& t.locals[idx] == Some(v)
            &&& is_wide(v) ==> idx + 1 < s.locals.len() && t.locals[idx + 1] is None
            &&& idx >= 1 && holds_wide(s.locals[idx - 1]) ==> t.locals[idx - 1] is None
            &&& forall|j: int|
                0 <= j < s.locals.len() && j != idx && !(j == idx + 1 && is_wide(v)) && !(j
                    == idx - 1 && holds_wide(s.locals[j])) ==> #[trigger] t.locals[j]
                    == s.locals[j]
        }),
{
    let (op, pc) = fetch(s.code, s.pc)->Ok_0;
    if opcode::ISTORE <= op <= opcode::ASTORE {
        let (b, pc2) = fetch(s.code, pc)->Ok_0;
        assert(b == idx);
        assert(instruction_op(s, op, pc) == local_op(s, op, pc));
        assert(local_op(s, op, pc) == store_op(s, pc2, b as int, true));
    } else {
        assert(instruction_op(s, op, pc) == local_op(s, op, pc));
        assert(local_op(s, op, pc) == store_op(s, pc, idx, false));
    }
}

/// Whether the instruction at the program counter has opcode `op`.
pub open spec fn opcode_at(s: FrameState, op: u8) -> bool {
    fetch(s.code, s.pc) matches Ok((o, _)) && o == op
}

/// `pop` removes the top value, if there is one, and nothing else.
pub proof fn pop_removes_the_top(s: FrameState)
    requires
        opcode_at(s, opcode::POP),
    ensures
        step_spec(s) is Ok,
        ({
            let t = step_spec(s)->Ok_0.0;
            &&& s.stack.len() > 0 ==> t.stack == s.stack.subrange(0, s.stack.len() - 1)
            &&& s.stack.len() == 0 ==> t.stack.len() == 0
            &&& t.locals == s.locals
            &&& t.pc == s.pc + 1
        }),
{
    let (op, pc) = fetch(s.code, s.pc)->Ok_0;
    assert(instruction_op(s, op, pc) == stack_op(s, op, pc));
}

/// `pop2` removes one `long` or `double` from the top, or else two values
/// (as many as there are, up to two).
pub proof fn pop2_removes_one_wide_or_two_narrow(s: FrameState)
    requires
        opcode_at(s, opcode::POP2),
    ensures
        step_spec(s) is Ok,
        ({
            let t = step_spec(s)->Ok_0.0;
            let n = s.stack.len();
            &&& n > 0 && is_wide(s.stack[n - 1]) ==> t.stack == s.stack.subrange(0, n - 1)
            &&& n >= 2 && !is_wide(s.stack[n - 1]) ==> t.stack == s.stack.subrange(0, n - 2)
            &&& n < 2 && !(n > 0 && is_wide(s.stack[n - 1])) ==> t.stack.len() == 0
            &&& t.locals == s.locals
            &&& t.pc == s.pc + 1
        }),
{
    let (op, pc) = fetch(s.code, s.pc)->Ok_0;
    assert(instruction_op(s, op, pc) == stack_op(s, op, pc));
    let t = step_spec(s)->Ok_0.0;
    let n = s.stack.len();
    if n > 0 && is_wide(s.stack[n - 1]) {
        assert(t.stack =~= s.stack.subrange(0, n - 1));
    } else if n >= 2 {
        assert(t.stack =~= s.stack.subrange(0, n - 2));
    }
}

/// `dup` pushes a copy of the top value and changes nothing below it.
pub proof fn dup_copies_the_top(s: FrameState)
    requires
        opcode_at(s, opcode::DUP),
        s.stack.len() > 0,
    ensures
        step_spec(s) is Ok,
        ({
            let t = step_spec(s)->Ok_0.0;
            &&& t.stack.len() == s.stack.len() + 1
            &&& t.stack[t.stack.len() - 1] == s.stack[s.stack.len() - 1]
            &&& t.stack.subrange(0, s.stack.len() as int) == s.stack
        }),
{
    let (op, pc) = fetch(s.code, s.pc)->Ok_0;
    assert(instruction_op(s, op, pc) == stack_op(s, op, pc));
    let t = step_spec(s)->Ok_0.0;
    assert(t.stack.subrange(0, s.stack.len() as int) =~= s.stack);
}

/// The constant pool index of an action, for the actions that name one.
pub open spec fn pool_index_of(a: Action) -> Option<u16> {
    match a {
        Action::GetStatic(i) => Some(i),
        Action::PutStatic(i) => Some(i),
        Action::GetField(i) => Some(i),
        Action::PutField { pool_index, .. } => Some(pool_index),
        Action::Invoke { pool_index, .. } => Some(pool_index),
        Action::New(i) => Some(i),
        _ => None,
    }
}

/// The big-endian two-byte operand that follows the opcode at `pc`.
pub open spec fn two_byte_operand(code: Seq<u8>, pc: int) -> int {
    code[pc + 1] * 256 + code[pc + 2]
}

/// An instruction that names a constant pool entry (`getstatic`,
/// `putstatic`, `getfield`, `putfield`, the three invokes, `new`) completes
/// only when its operand, the big-endian two bytes after the opcode, indexes
/// an entry of the right kind; it hands out exactly that index, an action of
/// its own kind, and moves past the three bytes.
pub proof fn pool_instruction_names_its_operand(s: FrameState)
    requires
        fetch(s.code, s.pc) matches Ok((op, _)) && ((opcode::GETSTATIC <= op
            <= opcode::INVOKESTATIC) || op == opcode::NEW),
        step_spec(s) is Ok,
    ensures
        ({
            let op = s.code[s.pc as int];
            let (t, a) = step_spec(s)->Ok_0;
            let i = two_byte_operand(s.code, s.pc as int);
            &&& s.pc + 3 <= s.code.len()
            &&& t.pc == s.pc + 3
            &&& pool_index_of(a) == Some(i as u16)
            &&& 0 <= i < s.pool.len()
            &&& op == opcode::NEW ==> s.pool[i] == PoolEntry::ClassRef && a == Action::New(
                i as u16,
            )
            &&& opcode::GETSTATIC <= op <= opcode::PUTFIELD ==> s.pool[i] == PoolEntry::FieldRef
            &&& opcode::INVOKEVIRTUAL <= op <= opcode::INVOKESTATIC ==> s.pool[i]
                == PoolEntry::MethodRef
            &&& op == opcode::GETSTATIC ==> a == Action::GetStatic(i as u16)
            &&& op == opcode::PUTSTATIC ==> a == Action::PutStatic(i as u16)
            &&& op == opcode::GETFIELD ==> a == Action::GetField(i as u16)
            &&& op == opcode::PUTFIELD ==> a == Action::PutField {
                pool_index: i as u16,
                value: s.stack.last(),
            }
            &&& op == opcode::INVOKEVIRTUAL ==> a == Action::Invoke {
                kind: InvokeKind::Virtual,
                pool_index: i as u16,
            }
            &&& op == opcode::INVOKESPECIAL ==> a == Action::Invoke {
                kind: InvokeKind::Special,
                pool_index: i as u16,
            }
            &&& op == opcode::INVOKESTATIC ==> a == Action::Invoke {
                kind: InvokeKind::Static,
                pool_index: i as u16,
            }
        }),
{
    let (op, pc) = fetch(s.code, s.pc)->Ok_0;
    assert(instruction_op(s, op, pc) == pool_op(s, op, pc));
    let i = two_byte_operand(s.code, s.pc as int);
    assert(0 <= i < 65536) by (nonlinear_arith)
        requires
            i == s.code[s.pc + 1] * 256 + s.code[s.pc + 2],
            0 <= s.code[s.pc + 1] < 256,
            0 <= s.code[s.pc + 2] < 256,
    ;
}

/// The operands of `bipush`, `sipush`, `ldc`, `ldc_w` and `ldc2_w` are the
/// unsigned one or big-endian two bytes after the opcode: the pushes push
/// that number as an `int`, the loads of constants hand it out as a constant
/// pool index.
pub proof fn immediate_operands(s: FrameState)
    requires
        fetch(s.code, s.pc) matches Ok((op, _)) && (op == opcode::BIPUSH || op == opcode::SIPUSH
            || op == opcode::LDC || op == opcode::LDC_W || op == opcode::LDC2_W),
        step_spec(s) is Ok,
    ensures
        ({
            let op = s.code[s.pc as int];
            let (t, a) = step_spec(s)->Ok_0;
            let one = s.code[s.pc + 1];
            let two = two_byte_operand(s.code, s.pc as int);
            &&& op == opcode::BIPUSH ==> t.stack == s.stack.push(Value::Int(one as i32)) && a
                == Action::Continue
            &&& op == opcode::SIPUSH ==> t.stack == s.stack.push(Value::Int(two as i32)) && a
                == Action::Continue
            &&& op == opcode::LDC ==> t.stack == s.stack && a == Action::Ldc(one as u16)
            &&& (op == opcode::LDC_W || op == opcode::LDC2_W) ==> t.stack == s.stack && a
                == Action::Ldc(two as u16)
        }),
{
    let (op, pc) = fetch(s.code, s.pc)->Ok_0;
    assert(instruction_op(s, op, pc) == constant_op(s, op, pc));
}

/// The opcodes that a frame executes: the constants, loads, array loads,
/// stores, array stores, `pop` to `dup2`, `return`, the field instructions,
/// `invokevirtual`, `invokespecial`, `invokestatic`, `new`, `newarray` and
/// `arraylength`.
pub open spec fn executed_opcode(op: u8) -> bool {
    ||| op <= opcode::DUP2
    ||| opcode::RETURN <= op <= opcode::INVOKESTATIC
    ||| op == opcode::NEW
    ||| op == opcode::NEWARRAY
    ||| op == opcode::ARRAYLENGTH
}

/// An opcode is refused as undefined exactly when the frame does not execute
/// it.
pub proof fn undefined_exactly_outside_the_instruction_set(s: FrameState)
    requires
        fetch(s.code, s.pc) is Ok,
    ensures
        ({
            let op = s.code[s.pc as int];
            step_spec(s) == Err::<(FrameState, Action), Fault>(Fault::UndefinedOpcode(op))
                <==> !executed_opcode(op)
        }),
{
}

/// Every array load (`iaload` to `saload`) on an array reference and an
/// `int` index pops both and hands out the load of that element.
pub proof fn array_loads_hand_out_the_element(s: FrameState, array: u64, index: i32)
    requires
        fetch(s.code, s.pc) matches Ok((op, _)) && opcode::IALOAD <= op <= opcode::SALOAD,
        s.stack.len() >= 2,
        s.stack[s.stack.len() - 2] == Value::ArrayReference(array),
        s.stack[s.stack.len() - 1] == Value::Int(index),
    ensures
        step_spec(s) == Ok::<(FrameState, Action), Fault>(
            (
                FrameState {
                    pc: (s.pc + 1) as u16,
                    stack: s.stack.subrange(0, s.stack.len() - 2),
                    ..s
                },
                Action::ArrayLoad { array, index },
            ),
        ),
{
    let (op, pc) = fetch(s.code, s.pc)->Ok_0;
    assert(instruction_op(s, op, pc) == array_load_op(s, pc));
}

/// Every array store (`iastore` to `sastore`) on an array reference, an
/// `int` index and a value pops all three and hands out the store of the
/// value into that element.
pub proof fn array_stores_hand_out_the_element(
    s: FrameState,
    array: u64,
    index: i32,
    value: Value,
)
    requires
        fetch(s.code, s.pc) matches Ok((op, _)) && opcode::IASTORE <= op <= opcode::SASTORE,
        s.stack.len() >= 3,
        s.stack[s.stack.len() - 3] == Value::ArrayReference(array),
        s.stack[s.stack.len() - 2] == Value::Int(index),
        s.stack[s.stack.len() - 1] == value,
    ensures
        step_spec(s) == Ok::<(FrameState, Action), Fault>(
            (
                FrameState {
                    pc: (s.pc + 1) as u16,
                    stack: s.stack.subrange(0, s.stack.len() - 3),
                    ..s
                },
                Action::ArrayStore { array, index, value },
            ),
        ),
{
    let (op, pc) = fetch(s.code, s.pc)->Ok_0;
    assert(instruction_op(s, op, pc) == array_store_op(s, pc));
}

/// Each argument value keeps its value in the local variables of the invoked
/// method: the `i`-th value stands in the slot after the slots of the values
/// before it, and a `long` or `double` is followed by an empty slot.
pub proof fn as_locals_keeps_each_value(vals: Seq<Value>, i: int)
    requires
        0 <= i < vals.len(),
    ensures
        ({
            let k = i + wide_count(vals.subrange(0, i));
            &&& as_locals(vals)[k] == Some(vals[i])
            &&& is_wide(vals[i]) ==> as_locals(vals)[k + 1] is None
        }),
    decreases vals.len(),
{
    let n = vals.len();
    let prefix = vals.drop_last();
    as_locals_len(prefix);
    if i < n - 1 {
        as_locals_keeps_each_value(prefix, i);
        assert(prefix.subrange(0, i) =~= vals.subrange(0, i));
        as_locals_len(vals.subrange(0, i));
        wide_count_of_prefix_bound(prefix, i);
    } else {
        assert(prefix =~= vals.subrange(0, i));
    }
}

/// The slots of the first `i` values end before those of the rest.
proof fn wide_count_of_prefix_bound(vals: Seq<Value>, i: int)
    requires
        0 <= i < vals.len(),
    ensures
        i + wide_count(vals.subrange(0, i)) + if is_wide(vals[i]) {
            2int
        } else {
            1int
        } <= vals.len() + wide_count(vals),
    decreases vals.len(),
{
    if i < vals.len() - 1 {
        wide_count_of_prefix_bound(vals.drop_last(), i);
        assert(vals.drop_last().subrange(0, i) =~= vals.subrange(0, i));
    } else {
        assert(vals.drop_last() =~= vals.subrange(0, i));
    }
}

/// A load of local variable `idx` completes exactly when the slot exists and
/// holds a value; it then pushes that value and changes no slot.
pub proof fn load_pushes_the_slot(s: FrameState, idx: int)
    requires
        loads_from(s, idx),
    ensures
        step_spec(s) is Ok <==> 0 <= idx < s.locals.len() && s.locals[idx] is Some,
        step_spec(s) matches Ok((t, a)) ==> t.stack == s.stack.push(s.locals[idx]->Some_0)
            && t.locals == s.locals && a == Action::Continue,
{
    let (op, pc) = fetch(s.code, s.pc)->Ok_0;
    assert(instruction_op(s, op, pc) == local_op(s, op, pc));
    if opcode::ILOAD <= op <= opcode::ALOAD {
        let (b, pc2) = fetch(s.code, pc)->Ok_0;
        assert(local_op(s, op, pc) == load_op(s, pc2, b as int));
    } else {
        assert(local_op(s, op, pc) == load_op(s, pc, idx));
    }
}

/// The constant instructions push their constant: `aconst_null` the null
/// reference, `iconst_m1` to `iconst_5` the `int`s -1 to 5, `lconst_0` and
/// `lconst_1` the `long`s 0 and 1, `fconst_0` to `fconst_2` the `float`s 0.0,
/// 1.0 and 2.0, `dconst_0` and `dconst_1` the `double`s 0.0 and 1.0 (by their
/// IEEE 754 bits). Nothing else changes but the program counter, by one.
pub proof fn constants_push_their_value(s: FrameState)
    requires
        fetch(s.code, s.pc) matches Ok((op, _)) && opcode::ACONST_NULL <= op <= opcode::DCONST_1,
    ensures
        step_spec(s) is Ok,
        ({
            let op = s.code[s.pc as int];
            let (t, a) = step_spec(s)->Ok_0;
            &&& a == Action::Continue
            &&& t.locals == s.locals
            &&& t.pc == s.pc + 1
            &&& t.stack.len() == s.stack.len() + 1
            &&& t.stack.subrange(0, s.stack.len() as int) == s.stack
            &&& op == opcode::ACONST_NULL ==> t.stack.last() == Value::NullReference
            &&& opcode::ICONST_M1 <= op <= opcode::ICONST_5 ==> t.stack.last() == Value::Int(
                (op - 3) as i32,
            )
            &&& op == opcode::LCONST_0 ==> t.stack.last() == Value::Long(0)
            &&& op == opcode::LCONST_1 ==> t.stack.last() == Value::Long(1)
            &&& op == opcode::FCONST_0 ==> t.stack.last() == Value::Float(0x0000_0000)
            &&& op == opcode::FCONST_1 ==> t.stack.last() == Value::Float(0x3f80_0000)
            &&& op == opcode::FCONST_2 ==> t.stack.last() == Value::Float(0x4000_0000)
            &&& op == opcode::DCONST_0 ==> t.stack.last() == Value::Double(0)
            &&& op == opcode::DCONST_1 ==> t.stack.last() == Value::Double(
                0x3ff0_0000_0000_0000,
            )
        }),
{
    let (op, pc) = fetch(s.code, s.pc)->Ok_0;
    assert(instruction_op(s, op, pc) == constant_op(s, op, pc));
    let t = step_spec(s)->Ok_0.0;
    assert(t.stack.subrange(0, s.stack.len() as int) =~= s.stack);
}

/// `dup_x1`, `dup_x2` and `dup2` copy the top values into place: with `v1`
/// the top and `v2`, `v3` the values below it, `dup_x1` leaves
/// `v1, v2, v1`; `dup_x2` leaves `v1, v2, v1` when `v2` is a `long` or
/// `double` and `v1, v3, v2, v1` otherwise; `dup2` leaves `v1, v1` when `v1`
/// is a `long` or `double` and `v2, v1, v2, v1` otherwise. The values below
/// are kept.
pub proof fn dups_copy_into_place(s: FrameState)
    requires
        fetch(s.code, s.pc) matches Ok((op, _)) && opcode::DUP_X1 <= op <= opcode::DUP2,
    ensures
        ({
            let op = s.code[s.pc as int];
            let n = s.stack.len();
            let st = s.stack;
            let t = step_spec(s)->Ok_0.0;
            &&& op == opcode::DUP_X1 && n >= 2 ==> step_spec(s) is Ok && t.stack
                == st.subrange(0, n - 2) + seq![st[n - 1], st[n - 2], st[n - 1]]
            &&& op == opcode::DUP_X2 && n >= 2 && is_wide(st[n - 2]) ==> step_spec(s) is Ok && t.stack == st.subrange(0, n - 2) + seq![st[n - 1], st[n - 2], st[n - 1]]
            &&& op == opcode::DUP_X2 && n >= 3 && !is_wide(st[n - 2]) ==> step_spec(s) is Ok && t.stack == st.subrange(0, n - 3) + seq![st[n - 1], st[n - 3], st[n - 2], st[n - 1]]
            &&& op == opcode::DUP2 && n >= 1 && is_wide(st[n - 1]) ==> step_spec(s) is Ok && t.stack == st + seq![st[n - 1]]
            &&& op == opcode::DUP2 && n >= 2 && !is_wide(st[n - 1]) ==> step_spec(s) is Ok && t.stack == st.subrange(0, n - 2) + seq![st[n - 2], st[n - 1], st[n - 2], st[n - 1]]
        }),
{
    let (op, pc) = fetch(s.code, s.pc)->Ok_0;
    assert(instruction_op(s, op, pc) == stack_op(s, op, pc));
    let n = s.stack.len();
    if op == opcode::DUP2 && n >= 1 && is_wide(s.stack[n - 1]) {
        assert(s.stack.push(s.stack[n - 1]) =~= s.stack + seq![s.stack[n - 1]]);
    }
}

/// `newarray` reads its component type tag from the byte after the opcode:
/// 4 to 11 are `boolean`, `char`, `float`, `double`, `byte`, `short`, `int`
/// and `long`; any other tag is refused.
pub proof fn newarray_tags(s: FrameState)
    requires
        fetch(s.code, s.pc) matches Ok((op, _)) && op == opcode::NEWARRAY,
        fetch(s.code, (s.pc + 1) as u16) is Ok,
    ensures
        ({
            let tag = s.code[s.pc + 1];
            let r = step_spec(s);
            &&& !(4 <= tag <= 11) ==> r == Err::<(FrameState, Action), Fault>(
                Fault::BadArrayType(tag),
            )
            &&& 4 <= tag <= 11 ==> r is Ok && r->Ok_0.0.stack == s.stack && r->Ok_0.0.pc == s.pc + 2
            &&& tag == 4 ==> r->Ok_0.1 == Action::NewArray(ArrayType::Boolean)
            &&& tag == 5 ==> r->Ok_0.1 == Action::NewArray(ArrayType::Char)
            &&& tag == 6 ==> r->Ok_0.1 == Action::NewArray(ArrayType::Float)
            &&& tag == 7 ==> r->Ok_0.1 == Action::NewArray(ArrayType::Double)
            &&& tag == 8 ==> r->Ok_0.1 == Action::NewArray(ArrayType::Byte)
            &&& tag == 9 ==> r->Ok_0.1 == Action::NewArray(ArrayType::Short)
            &&& tag == 10 ==> r->Ok_0.1 == Action::NewArray(ArrayType::Int)
            &&& tag == 11 ==> r->Ok_0.1 == Action::NewArray(ArrayType::Long)
        }),
{
}

/// `arraylength` pops an array reference and hands out the length of that
/// array; on `null` it is a null pointer fault, on any other value a
/// not-an-array fault.
pub proof fn arraylength_pops_the_array(s: FrameState)
    requires
        fetch(s.code, s.pc) matches Ok((op, _)) && op == opcode::ARRAYLENGTH,
        s.stack.len() > 0,
    ensures
        ({
            let top = s.stack[s.stack.len() - 1];
            let r = step_spec(s);
            &&& top is ArrayReference ==> r is Ok && r->Ok_0.1 == Action::ArrayLength(
                top->ArrayReference_0,
            ) && r->Ok_0.0.stack == s.stack.subrange(0, s.stack.len() - 1)
            &&& top == Value::NullReference ==> r == Err::<(FrameState, Action), Fault>(
                Fault::NullPointer,
            )
            &&& !(top is ArrayReference) && top != Value::NullReference ==> r == Err::<
                (FrameState, Action),
                Fault,
            >(Fault::NotAnArray(ArrayOp::Length))
        }),
{
}

/// The pops that complete an instruction take exactly the top value off the
/// operand stack and change nothing else; they fail only on an empty stack
/// or a top value of the wrong kind: `pop_value_op` takes any value,
/// `pop_field_object_op` an object reference (an array reference, `null` or a
/// primitive value is refused), `pop_array_length_op` an `int`.
pub proof fn operand_pops_take_the_top(s: FrameState, op: FieldOp)
    ensures
        pop_value_op(s) is Err <==> s.stack.len() == 0,
        s.stack.len() > 0 ==> pop_value_op(s) is Ok && pop_value_op(s)->Ok_0.1 == s.stack[s.stack.len() - 1],
        pop_value_op(s) matches Ok((t, _)) ==> t.stack == s.stack.subrange(0, s.stack.len() - 1)
            && t.locals == s.locals && t.pc == s.pc,
        pop_field_object_op(s, op) is Ok <==> s.stack.len() > 0 && s.stack[s.stack.len() - 1] is ScalarReference,
        pop_field_object_op(s, op) matches Ok((t, h)) ==> s.stack[s.stack.len() - 1]
            == Value::ScalarReference(h) && t.stack == s.stack.subrange(0, s.stack.len() - 1)
            && t.locals == s.locals && t.pc == s.pc,
        s.stack.len() == 0 ==> pop_field_object_op(s, op) == Err::<(FrameState, u64), Fault>(
            Fault::StackUnderflow,
        ),
        s.stack.len() > 0 && s.stack[s.stack.len() - 1] is ArrayReference ==> pop_field_object_op(
            s,
            op,
        ) == Err::<(FrameState, u64), Fault>(Fault::FieldOnArray(op)),
        s.stack.len() > 0 && s.stack[s.stack.len() - 1] == Value::NullReference
            ==> pop_field_object_op(s, op) == Err::<(FrameState, u64), Fault>(Fault::NullPointer),
        s.stack.len() > 0 && (s.stack[s.stack.len() - 1] is Int || s.stack[s.stack.len() - 1] is Long
            || s.stack[s.stack.len() - 1] is Float || s.stack[s.stack.len() - 1] is Double)
            ==> pop_field_object_op(s, op) == Err::<(FrameState, u64), Fault>(
            Fault::FieldOnPrimitive(op),
        ),
        pop_array_length_op(s) is Ok <==> s.stack.len() > 0 && s.stack[s.stack.len() - 1] is Int,
        pop_array_length_op(s) matches Ok((t, n)) ==> s.stack[s.stack.len() - 1] == Value::Int(n)
            && t.stack == s.stack.subrange(0, s.stack.len() - 1) && t.locals == s.locals && t.pc
            == s.pc,
        s.stack.len() > 0 && !(s.stack[s.stack.len() - 1] is Int) ==> pop_array_length_op(s)
            == Err::<(FrameState, i32), Fault>(Fault::LengthNotInt),
{
}

/// The receiver of an `invokevirtual` is the object or array that the first
/// argument slot refers to; `null` is a null pointer fault and anything else
/// (a primitive value, or no value) is refused.
pub proof fn receiver_is_the_first_argument(first: Option<Value>)
    ensures
        first matches Some(Value::ScalarReference(h)) ==> receiver_spec(first) == Ok::<
            Receiver,
            Fault,
        >(Receiver::Scalar(h)),
        first matches Some(Value::ArrayReference(h)) ==> receiver_spec(first) == Ok::<
            Receiver,
            Fault,
        >(Receiver::Array(h)),
        first == Some(Value::NullReference) ==> receiver_spec(first) == Err::<Receiver, Fault>(
            Fault::NullPointer,
        ),
        receiver_spec(first) is Ok <==> (first matches Some(v) && (v is ScalarReference
            || v is ArrayReference)),
        receiver_spec(first) is Err && first != Some(Value::NullReference) ==> receiver_spec(first)
            == Err::<Receiver, Fault>(Fault::InvokeOnPrimitive),
{
}

/// An invocation takes its declared parameters as arguments, and one more
/// value, the receiver, unless it is `invokestatic`.
pub proof fn invocations_take_the_receiver_unless_static(n: nat)
    ensures
        arg_count(InvokeKind::Static, n) == n,
        arg_count(InvokeKind::Virtual, n) == n + 1,
        arg_count(InvokeKind::Special, n) == n + 1,
{
}

/// A store into local variable `idx` completes exactly when there is a value
/// to pop, slot `idx` exists, a `long` or `double` also has slot `idx + 1`,
/// and it is not a store with an explicit index 0 (`istore 0` ...), whose
/// computation of the slot below underflows.
pub proof fn store_completes_exactly_when(s: FrameState, idx: int)
    requires
        stores_into(s, idx),
    ensures
        step_spec(s) is Ok <==> {
            &&& s.stack.len() > 0
            &&& 0 <= idx < s.locals.len()
            &&& is_wide(s.stack.last()) ==> idx + 1 < s.locals.len()
            &&& !(opcode::ISTORE <= s.code[s.pc as int] <= opcode::ASTORE && idx == 0)
        },
        s.stack.len() == 0 ==> step_spec(s) == Err::<(FrameState, Action), Fault>(
            Fault::StackUnderflow,
        ),
{
    let (op, pc) = fetch(s.code, s.pc)->Ok_0;
    assert(instruction_op(s, op, pc) == local_op(s, op, pc));
    if opcode::ISTORE <= op <= opcode::ASTORE {
        let (b, pc2) = fetch(s.code, pc)->Ok_0;
        assert(local_op(s, op, pc) == store_op(s, pc2, b as int, true));
    } else {
        assert(local_op(s, op, pc) == store_op(s, pc, idx, false));
    }
}

/// An array load that does not find an `int` index on top, or an array
/// reference below it, faults: a missing operand is a stack underflow, a
/// non-`int` index is refused, a `null` array is a null pointer fault and
/// any other value is not an array.
pub proof fn array_load_faults(s: FrameState)
    requires
        fetch(s.code, s.pc) matches Ok((op, _)) && opcode::IALOAD <= op <= opcode::SALOAD,
    ensures
        ({
            let n = s.stack.len();
            let r = step_spec(s);
            &&& n == 0 ==> r == Err::<(FrameState, Action), Fault>(Fault::StackUnderflow)
            &&& n > 0 && !(s.stack[n - 1] is Int) ==> r == Err::<(FrameState, Action), Fault>(
                Fault::IndexNotInt(ArrayOp::Load),
            )
            &&& n == 1 && s.stack[0] is Int ==> r == Err::<(FrameState, Action), Fault>(
                Fault::StackUnderflow,
            )
            &&& n >= 2 && s.stack[n - 1] is Int && s.stack[n - 2] == Value::NullReference ==> r
                == Err::<(FrameState, Action), Fault>(Fault::NullPointer)
            &&& n >= 2 && s.stack[n - 1] is Int && !(s.stack[n - 2] is ArrayReference)
                && s.stack[n - 2] != Value::NullReference ==> r == Err::<(FrameState, Action), Fault>(
                Fault::NotAnArray(ArrayOp::Load),
            )
        }),
{
    let (op, pc) = fetch(s.code, s.pc)->Ok_0;
    assert(instruction_op(s, op, pc) == array_load_op(s, pc));
}

} // verus!
