//! A frame: the program counter, local variables and operand stack of one
//! method activation, and the execution of its instructions.
pub mod laws;
pub mod semantics;

use vstd::prelude::*;

use crate::model::class_file::access_flags::class_access_flags;
use crate::vm::bytecode::opcode;
use crate::vm::frame::semantics::{
    arg_count, array_load_op, array_store_op, arraylength_op, as_locals, constant_op, fetch, fetch_u16,
    instruction_op, load_op, local_op, newarray_op, outcome, pool_op, pop_array_length_op,
    pop_field_object_op, pop_value_op, push_op, receiver_spec, stack_op, step_spec, store_op,
    stored_locals, Action, ArrayOp, ArrayType, FieldOp, Fault, FrameState, InvokeKind, PoolEntry,
    Receiver,
};
use crate::vm::value::Value;

verus! {

/// A frame is used to store data and partial results, as well as to perform
/// dynamic linking, return values for methods, and dispatch exceptions.
#[derive(Debug)]
pub struct Frame {
    /// The bytecode currently executing in this frame.
    code: Vec<u8>,
    /// The kinds of the entries of the current class's run-time constant
    /// pool.
    constant_pool: Vec<PoolEntry>,
    /// The current program counter.
    pc: u16,
    /// The local variables of the current method.
    /// Values that occupy two indices (`long` and `double`) are stored in one
    /// slot followed by a `None` value in the subsequent index.
    local_variables: Vec<Option<Value>>,
    /// The operand stack manipulated by the instructions of the current
    /// method.
    operand_stack: Vec<Value>,
}

impl View for Frame {
    type V = FrameState;

    closed spec fn view(&self) -> FrameState {
        FrameState {
            code: self.code@,
            pool: self.constant_pool@,
            pc: self.pc,
            locals: self.local_variables@,
            stack: self.operand_stack@,
        }
    }
}

impl Frame {
    /// A frame that starts executing `code` at its first byte with the given
    /// local variables and an empty operand stack.
    pub fn new(
        code: Vec<u8>,
        constant_pool: Vec<PoolEntry>,
        local_variables: Vec<Option<Value>>,
    ) -> (frame: Frame)
        ensures
            frame@ == (FrameState {
                code: code@,
                pool: constant_pool@,
                pc: 0,
                locals: local_variables@,
                stack: Seq::empty(),
            }),
    {
        Frame { code, constant_pool, pc: 0, local_variables, operand_stack: Vec::new() }
    }

    /// The program counter.
    pub fn pc(&self) -> (r: u16)
        ensures
            r == self@.pc,
    {
        self.pc
    }

    /// The operand stack, its top last.
    pub fn operand_stack(&self) -> (r: &Vec<Value>)
        ensures
            r@ == self@.stack,
    {
        &self.operand_stack
    }

    /// The local variable array.
    pub fn local_variables(&self) -> (r: &Vec<Option<Value>>)
        ensures
            r@ == self@.locals,
    {
        &self.local_variables
    }

    /// The byte of the code at `pc` and the address after it.
    fn read_next_byte(&self, pc: u16) -> (r: Result<(u8, u16), Fault>)
        ensures
            r == fetch(self@.code, pc),
    {
        if pc as usize >= self.code.len() {
            Err(Fault::CodeOverrun)
        } else if pc == u16::MAX {
            Err(Fault::PcOverflow)
        } else {
            Ok((self.code[pc as usize], pc + 1))
        }
    }

    /// The big-endian two-byte operand at `pc` and the address after it.
    fn read_next_short(&self, pc: u16) -> (r: Result<(u16, u16), Fault>)
        ensures
            r == fetch_u16(self@.code, pc),
    {
        let (hi, pc1) = match self.read_next_byte(pc) {
            Ok(x) => x,
            Err(e) => return Err(e),
        };
        let (lo, pc2) = match self.read_next_byte(pc1) {
            Ok(x) => x,
            Err(e) => return Err(e),
        };
        let v = ((hi as u16) << 8) | (lo as u16);
        assert(v == hi as u16 * 256 + lo as u16) by (bit_vector)
            requires
                v == ((hi as u16) << 8) | (lo as u16),
        ;
        Ok((v, pc2))
    }

    /// Pushes `v` onto the operand stack and moves to `pc`.
    fn push_at(&mut self, pc: u16, v: Value) -> (r: Result<Action, Fault>)
        ensures
            outcome(old(self)@, final(self)@, r, push_op(old(self)@, pc, v)),
    {
        self.operand_stack.push(v);
        self.pc = pc;
        Ok(Action::Continue)
    }

    /// Executes the instruction at the program counter, as far as the frame
    /// can do it alone; the returned action says what the surrounding machine
    /// must still do. On a fault the frame is left as it was.
    pub fn step(&mut self) -> (r: Result<Action, Fault>)
        ensures
            outcome(old(self)@, final(self)@, r, step_spec(old(self)@)),
            final(self)@.code == old(self)@.code,
            final(self)@.pool == old(self)@.pool,
    {
        let (op, pc) = match self.read_next_byte(self.pc) {
            Ok(x) => x,
            Err(e) => return Err(e),
        };
        let r = self.execute(op, pc);
        proof {
            crate::vm::frame::laws::step_keeps_code_and_pool(old(self)@);
            lemma_outcome_keeps_code(old(self)@, self@, r, step_spec(old(self)@));
        }
        r
    }

    /// Executes opcode `op`; `pc` is the address after it.
    fn execute(&mut self, op: u8, pc: u16) -> (r: Result<Action, Fault>)
        ensures
            outcome(old(self)@, final(self)@, r, instruction_op(old(self)@, op, pc)),
    {
        if op == opcode::NOP {
            self.pc = pc;
            Ok(Action::Continue)
        } else if opcode::ACONST_NULL <= op && op <= opcode::LDC2_W {
            self.constant_instruction(op, pc)
        } else if opcode::ILOAD <= op && op <= opcode::ALOAD_3 {
            self.local_instruction(op, pc)
        } else if opcode::IALOAD <= op && op <= opcode::SALOAD {
            self.array_load(pc)
        } else if opcode::ISTORE <= op && op <= opcode::ASTORE_3 {
            self.local_instruction(op, pc)
        } else if opcode::IASTORE <= op && op <= opcode::SASTORE {
            self.array_store(pc)
        } else if opcode::POP <= op && op <= opcode::DUP2 {
            self.stack_instruction(op, pc)
        } else if op == opcode::RETURN {
            self.pc = pc;
            Ok(Action::Return)
        } else if (opcode::GETSTATIC <= op && op <= opcode::INVOKESTATIC) || op == opcode::NEW {
            self.pool_instruction(op, pc)
        } else if op == opcode::NEWARRAY {
            self.new_array(pc)
        } else if op == opcode::ARRAYLENGTH {
            self.array_length(pc)
        } else {
            Err(Fault::UndefinedOpcode(op))
        }
    }

    /// `aconst_null`, `iconst_<i>`, `lconst_<l>`, `fconst_<f>`, `dconst_<d>`,
    /// `bipush`, `sipush`, `ldc`, `ldc_w`, `ldc2_w`.
    fn constant_instruction(&mut self, op: u8, pc: u16) -> (r: Result<Action, Fault>)
        requires
            opcode::ACONST_NULL <= op <= opcode::LDC2_W,
        ensures
            outcome(old(self)@, final(self)@, r, constant_op(old(self)@, op, pc)),
    {
        if op == opcode::ACONST_NULL {
            self.push_at(pc, Value::NullReference)
        } else if opcode::ICONST_M1 <= op && op <= opcode::ICONST_5 {
            self.push_at(pc, Value::Int(op as i32 - opcode::ICONST_0 as i32))
        } else if op == opcode::LCONST_0 || op == opcode::LCONST_1 {
            self.push_at(pc, Value::Long(op as i64 - opcode::LCONST_0 as i64))
        } else if opcode::FCONST_0 <= op && op <= opcode::FCONST_2 {
            let bits: u32 = if op == opcode::FCONST_0 {
                0x0000_0000
            } else if op == opcode::FCONST_1 {
                0x3f80_0000
            } else {
                0x4000_0000
            };
            self.push_at(pc, Value::Float(bits))
        } else if op == opcode::DCONST_0 || op == opcode::DCONST_1 {
            let bits: u64 = if op == opcode::DCONST_0 {
                0
            } else {
                0x3ff0_0000_0000_0000
            };
            self.push_at(pc, Value::Double(bits))
        } else if op == opcode::BIPUSH {
            match self.read_next_byte(pc) {
                Err(e) => Err(e),
                Ok((b, pc2)) => self.push_at(pc2, Value::Int(b as i32)),
            }
        } else if op == opcode::SIPUSH {
            match self.read_next_short(pc) {
                Err(e) => Err(e),
                Ok((v, pc2)) => self.push_at(pc2, Value::Int(v as i32)),
            }
        } else if op == opcode::LDC {
            match self.read_next_byte(pc) {
                Err(e) => Err(e),
                Ok((b, pc2)) => {
                    self.pc = pc2;
                    Ok(Action::Ldc(b as u16))
                },
            }
        } else {
            match self.read_next_short(pc) {
                Err(e) => Err(e),
                Ok((v, pc2)) => {
                    self.pc = pc2;
                    Ok(Action::Ldc(v))
                },
            }
        }
    }

    /// `xload`, `xload_<n>`, `xstore`, `xstore_<n>`.
    fn local_instruction(&mut self, op: u8, pc: u16) -> (r: Result<Action, Fault>)
        requires
            opcode::ILOAD <= op <= opcode::ASTORE_3,
            !(opcode::IALOAD <= op <= opcode::SALOAD),
        ensures
            outcome(old(self)@, final(self)@, r, local_op(old(self)@, op, pc)),
    {
        if opcode::ILOAD <= op && op <= opcode::ALOAD {
            match self.read_next_byte(pc) {
                Err(e) => Err(e),
                Ok((b, pc2)) => self.load(pc2, b as usize),
            }
        } else if opcode::ILOAD_0 <= op && op <= opcode::ALOAD_3 {
            self.load(pc, ((op - opcode::ILOAD_0) % 4) as usize)
        } else if opcode::ISTORE <= op && op <= opcode::ASTORE {
            match self.read_next_byte(pc) {
                Err(e) => Err(e),
                Ok((b, pc2)) => self.store(pc2, b as usize, true),
            }
        } else {
            self.store(pc, ((op - opcode::ISTORE_0) % 4) as usize, false)
        }
    }

    /// Pushes local variable `idx`.
    fn load(&mut self, pc: u16, idx: usize) -> (r: Result<Action, Fault>)
        ensures
            outcome(old(self)@, final(self)@, r, load_op(old(self)@, pc, idx as int)),
    {
        if idx >= self.local_variables.len() {
            return Err(Fault::LocalIndexOutOfRange);
        }
        match self.local_variables[idx] {
            None => Err(Fault::LocalUnset),
            Some(v) => self.push_at(pc, v),
        }
    }

    /// Pops the top of the stack into local variable `idx`.
    fn store(&mut self, pc: u16, idx: usize, explicit: bool) -> (r: Result<Action, Fault>)
        requires
            idx < 256,
        ensures
            outcome(old(self)@, final(self)@, r, store_op(old(self)@, pc, idx as int, explicit)),
    {
        let n = self.operand_stack.len();
        if n == 0 {
            return Err(Fault::StackUnderflow);
        }
        let v = self.operand_stack[n - 1];
        let wide = v.is_category2();
        let len = self.local_variables.len();
        if wide && idx + 1 >= len {
            return Err(Fault::LocalIndexOutOfRange);
        }
        if idx >= len {
            return Err(Fault::LocalIndexOutOfRange);
        }
        if explicit && idx == 0 {
            return Err(Fault::LocalIndexUnderflow);
        }
        let ghost old_locals = self.local_variables@;
        let ghost old_stack = self.operand_stack@;
        self.operand_stack.pop();
        if wide {
            self.local_variables.set(idx + 1, None);
        }
        self.local_variables.set(idx, Some(v));
        if idx >= 1 {
            let prev_wide = match self.local_variables[idx - 1] {
                Some(p) => p.is_category2(),
                None => false,
            };
            if prev_wide {
                self.local_variables.set(idx - 1, None);
            }
        }
        self.pc = pc;
        assert(self.local_variables@ =~= stored_locals(old_locals, idx as int, v));
        assert(self.operand_stack@ =~= old_stack.drop_last());
        Ok(Action::Continue)
    }

    /// `iaload`, `laload`, `faload`, `daload`, `aaload`, `baload`, `caload`,
    /// `saload`.
    fn array_load(&mut self, pc: u16) -> (r: Result<Action, Fault>)
        ensures
            outcome(old(self)@, final(self)@, r, array_load_op(old(self)@, pc)),
    {
        let n = self.operand_stack.len();
        if n == 0 {
            return Err(Fault::StackUnderflow);
        }
        let index = match self.operand_stack[n - 1] {
            Value::Int(i) => i,
            _ => return Err(Fault::IndexNotInt(ArrayOp::Load)),
        };
        if n == 1 {
            return Err(Fault::StackUnderflow);
        }
        match self.operand_stack[n - 2] {
            Value::ArrayReference(a) => {
                let ghost old_stack = self.operand_stack@;
                self.operand_stack.pop();
                self.operand_stack.pop();
                self.pc = pc;
                assert(self.operand_stack@ =~= old_stack.subrange(0, n - 2));
                Ok(Action::ArrayLoad { array: a, index })
            },
            Value::NullReference => Err(Fault::NullPointer),
            _ => Err(Fault::NotAnArray(ArrayOp::Load)),
        }
    }

    /// `iastore`, `lastore`, `fastore`, `dastore`, `aastore`, `bastore`,
    /// `castore`, `sastore`.
    fn array_store(&mut self, pc: u16) -> (r: Result<Action, Fault>)
        ensures
            outcome(old(self)@, final(self)@, r, array_store_op(old(self)@, pc)),
    {
        let n = self.operand_stack.len();
        if n < 2 {
            return Err(Fault::StackUnderflow);
        }
        let value = self.operand_stack[n - 1];
        let index = match self.operand_stack[n - 2] {
            Value::Int(i) => i,
            _ => return Err(Fault::IndexNotInt(ArrayOp::Store)),
        };
        if n == 2 {
            return Err(Fault::StackUnderflow);
        }
        match self.operand_stack[n - 3] {
            Value::ArrayReference(a) => {
                let ghost old_stack = self.operand_stack@;
                self.operand_stack.pop();
                self.operand_stack.pop();
                self.operand_stack.pop();
                self.pc = pc;
                assert(self.operand_stack@ =~= old_stack.subrange(0, n - 3));
                Ok(Action::ArrayStore { array: a, index, value })
            },
            Value::NullReference => Err(Fault::NullPointer),
            _ => Err(Fault::NotAnArray(ArrayOp::Store)),
        }
    }

    /// `pop`, `pop2`, `dup`, `dup_x1`, `dup_x2`, `dup2`.
    fn stack_instruction(&mut self, op: u8, pc: u16) -> (r: Result<Action, Fault>)
        requires
            opcode::POP <= op <= opcode::DUP2,
        ensures
            outcome(old(self)@, final(self)@, r, stack_op(old(self)@, op, pc)),
    {
        let ghost old_stack = self.operand_stack@;
        let n = self.operand_stack.len();
        if op == opcode::POP {
            self.operand_stack.pop();
            self.pc = pc;
            Ok(Action::Continue)
        } else if op == opcode::POP2 {
            match self.operand_stack.pop() {
                Some(v) => {
                    if !v.is_category2() {
                        self.operand_stack.pop();
                    }
                },
                None => {},
            }
            self.pc = pc;
            Ok(Action::Continue)
        } else if op == opcode::DUP {
            if n == 0 {
                return Err(Fault::StackUnderflow);
            }
            let v = self.operand_stack[n - 1];
            self.push_at(pc, v)
        } else if op == opcode::DUP_X1 {
            if n < 2 {
                return Err(Fault::StackUnderflow);
            }
            let v1 = self.operand_stack[n - 1];
            let v2 = self.operand_stack[n - 2];
            self.operand_stack.pop();
            self.operand_stack.pop();
            self.operand_stack.push(v1);
            self.operand_stack.push(v2);
            self.operand_stack.push(v1);
            self.pc = pc;
            assert(self.operand_stack@ =~= old_stack.subrange(0, n - 2) + seq![v1, v2, v1]);
            Ok(Action::Continue)
        } else if op == opcode::DUP_X2 {
            if n < 2 {
                return Err(Fault::StackUnderflow);
            }
            let v1 = self.operand_stack[n - 1];
            let v2 = self.operand_stack[n - 2];
            if v2.is_category2() {
                self.operand_stack.pop();
                self.operand_stack.pop();
                self.operand_stack.push(v1);
                self.operand_stack.push(v2);
                self.operand_stack.push(v1);
                self.pc = pc;
                assert(self.operand_stack@ =~= old_stack.subrange(0, n - 2) + seq![v1, v2, v1]);
                Ok(Action::Continue)
            } else {
                if n < 3 {
                    return Err(Fault::StackUnderflow);
                }
                let v3 = self.operand_stack[n - 3];
                self.operand_stack.pop();
                self.operand_stack.pop();
                self.operand_stack.pop();
                self.operand_stack.push(v1);
                self.operand_stack.push(v3);
                self.operand_stack.push(v2);
                self.operand_stack.push(v1);
                self.pc = pc;
                assert(self.operand_stack@ =~= old_stack.subrange(0, n - 3) + seq![
                    v1,
                    v3,
                    v2,
                    v1,
                ]);
                Ok(Action::Continue)
            }
        } else {
            if n < 1 {
                return Err(Fault::StackUnderflow);
            }
            let v1 = self.operand_stack[n - 1];
            if v1.is_category2() {
                self.push_at(pc, v1)
            } else {
                if n < 2 {
                    return Err(Fault::StackUnderflow);
                }
                let v2 = self.operand_stack[n - 2];
                self.operand_stack.pop();
                self.operand_stack.pop();
                self.operand_stack.push(v2);
                self.operand_stack.push(v1);
                self.operand_stack.push(v2);
                self.operand_stack.push(v1);
                self.pc = pc;
                assert(self.operand_stack@ =~= old_stack.subrange(0, n - 2) + seq![
                    v2,
                    v1,
                    v2,
                    v1,
                ]);
                Ok(Action::Continue)
            }
        }
    }

    /// `getstatic`, `putstatic`, `getfield`, `putfield`, `invokevirtual`,
    /// `invokespecial`, `invokestatic`, `new`.
    fn pool_instruction(&mut self, op: u8, pc: u16) -> (r: Result<Action, Fault>)
        requires
            (opcode::GETSTATIC <= op <= opcode::INVOKESTATIC) || op == opcode::NEW,
        ensures
            outcome(old(self)@, final(self)@, r, pool_op(old(self)@, op, pc)),
    {
        let (index, pc2) = match self.read_next_short(pc) {
            Ok(x) => x,
            Err(e) => return Err(e),
        };
        if op == opcode::PUTFIELD && self.operand_stack.len() == 0 {
            return Err(Fault::StackUnderflow);
        }
        let want = if op == opcode::NEW {
            PoolEntry::ClassRef
        } else if op == opcode::INVOKEVIRTUAL || op == opcode::INVOKESPECIAL || op
            == opcode::INVOKESTATIC {
            PoolEntry::MethodRef
        } else {
            PoolEntry::FieldRef
        };
        if index as usize >= self.constant_pool.len() {
            return Err(Fault::PoolIndexOutOfRange(index));
        }
        if self.constant_pool[index as usize] != want {
            return Err(Fault::PoolEntryMismatch(op));
        }
        self.pc = pc2;
        if op == opcode::GETSTATIC {
            Ok(Action::GetStatic(index))
        } else if op == opcode::PUTSTATIC {
            Ok(Action::PutStatic(index))
        } else if op == opcode::GETFIELD {
            Ok(Action::GetField(index))
        } else if op == opcode::PUTFIELD {
            let value = match self.operand_stack.pop() {
                Some(v) => v,
                None => return Err(Fault::StackUnderflow),
            };
            Ok(Action::PutField { pool_index: index, value })
        } else if op == opcode::INVOKEVIRTUAL {
            Ok(Action::Invoke { kind: InvokeKind::Virtual, pool_index: index })
        } else if op == opcode::INVOKESPECIAL {
            Ok(Action::Invoke { kind: InvokeKind::Special, pool_index: index })
        } else if op == opcode::INVOKESTATIC {
            Ok(Action::Invoke { kind: InvokeKind::Static, pool_index: index })
        } else {
            Ok(Action::New(index))
        }
    }

    /// `newarray`: reads the component type tag.
    fn new_array(&mut self, pc: u16) -> (r: Result<Action, Fault>)
        ensures
            outcome(old(self)@, final(self)@, r, newarray_op(old(self)@, pc)),
    {
        let (tag, pc2) = match self.read_next_byte(pc) {
            Ok(x) => x,
            Err(e) => return Err(e),
        };
        let component = if tag == 4 {
            ArrayType::Boolean
        } else if tag == 5 {
            ArrayType::Char
        } else if tag == 6 {
            ArrayType::Float
        } else if tag == 7 {
            ArrayType::Double
        } else if tag == 8 {
            ArrayType::Byte
        } else if tag == 9 {
            ArrayType::Short
        } else if tag == 10 {
            ArrayType::Int
        } else if tag == 11 {
            ArrayType::Long
        } else {
            return Err(Fault::BadArrayType(tag));
        };
        self.pc = pc2;
        Ok(Action::NewArray(component))
    }

    /// `arraylength`: pops the array reference.
    fn array_length(&mut self, pc: u16) -> (r: Result<Action, Fault>)
        ensures
            outcome(old(self)@, final(self)@, r, arraylength_op(old(self)@, pc)),
    {
        let n = self.operand_stack.len();
        if n == 0 {
            return Err(Fault::StackUnderflow);
        }
        match self.operand_stack[n - 1] {
            Value::ArrayReference(a) => {
                self.operand_stack.pop();
                self.pc = pc;
                Ok(Action::ArrayLength(a))
            },
            Value::NullReference => Err(Fault::NullPointer),
            _ => Err(Fault::NotAnArray(ArrayOp::Length)),
        }
    }

    /// Pushes a value that the surrounding machine produced for the current
    /// instruction (a literal, an array element, a field, a new reference, an
    /// array length or a returned value).
    pub fn push(&mut self, v: Value)
        ensures
            final(self)@ == (FrameState { stack: old(self)@.stack.push(v), ..old(self)@ }),
    {
        self.operand_stack.push(v);
    }

    /// Pops the top of the operand stack.
    pub fn pop_operand(&mut self) -> (r: Result<Value, Fault>)
        ensures
            outcome(old(self)@, final(self)@, r, pop_value_op(old(self)@)),
    {
        match self.operand_stack.pop() {
            Some(v) => Ok(v),
            None => Err(Fault::StackUnderflow),
        }
    }

    /// Pops the object operand of `getfield` (`op` is `Get`) or `putfield`
    /// (`op` is `Put`).
    pub fn pop_field_object(&mut self, op: FieldOp) -> (r: Result<u64, Fault>)
        ensures
            outcome(old(self)@, final(self)@, r, pop_field_object_op(old(self)@, op)),
    {
        let n = self.operand_stack.len();
        if n == 0 {
            return Err(Fault::StackUnderflow);
        }
        match self.operand_stack[n - 1] {
            Value::ScalarReference(h) => {
                self.operand_stack.pop();
                Ok(h)
            },
            Value::ArrayReference(_) => Err(Fault::FieldOnArray(op)),
            Value::NullReference => Err(Fault::NullPointer),
            _ => Err(Fault::FieldOnPrimitive(op)),
        }
    }

    /// Pops the length operand of `newarray`.
    pub fn pop_array_length(&mut self) -> (r: Result<i32, Fault>)
        ensures
            outcome(old(self)@, final(self)@, r, pop_array_length_op(old(self)@)),
    {
        let n = self.operand_stack.len();
        if n == 0 {
            return Err(Fault::StackUnderflow);
        }
        match self.operand_stack[n - 1] {
            Value::Int(len) => {
                self.operand_stack.pop();
                Ok(len)
            },
            _ => Err(Fault::LengthNotInt),
        }
    }

    /// The local variables of an invoked method: the top `count` values of
    /// the operand stack, each in a slot of its own and a `long` or `double`
    /// followed by an empty slot. The operand stack is left as it is.
    pub fn pop_as_locals(&self, count: usize) -> (result: Vec<Option<Value>>)
        requires
            count <= self@.stack.len(),
        ensures
            result@ == as_locals(
                self@.stack.subrange(self@.stack.len() - count, self@.stack.len() as int),
            ),
    {
        let mut result: Vec<Option<Value>> = Vec::new();
        let n = self.operand_stack.len();
        let start_index = n - count;
        let ghost args = self.operand_stack@.subrange(start_index as int, n as int);
        let mut i = start_index;
        while i < n
            invariant
                start_index <= i <= n,
                n == self.operand_stack@.len(),
                args == self.operand_stack@.subrange(start_index as int, n as int),
                result@ == as_locals(args.subrange(0, i - start_index)),
            decreases n - i,
        {
            let value = self.operand_stack[i];
            result.push(Some(value));
            if value.is_category2() {
                result.push(None);
            }
            proof {
                let taken = args.subrange(0, i + 1 - start_index);
                assert(taken.drop_last() =~= args.subrange(0, i - start_index));
                assert(taken.last() == value);
            }
            i = i + 1;
        }
        assert(args.subrange(0, n - start_index) =~= args);
        result
    }

    /// The local variables of a method invoked by an instruction of `kind`
    /// with `num_params` declared parameters: `pop_as_locals` of the
    /// parameters and, unless the method is static, the receiver below them.
    /// The operand stack is left as it is; a stack too short for them is a
    /// stack underflow.
    pub fn invoke_args(&self, kind: InvokeKind, num_params: usize) -> (r: Result<
        Vec<Option<Value>>,
        Fault,
    >)
        ensures
            arg_count(kind, num_params as nat) > self@.stack.len() ==> r == Err::<
                Vec<Option<Value>>,
                Fault,
            >(Fault::StackUnderflow),
            arg_count(kind, num_params as nat) <= self@.stack.len() ==> (r matches Ok(args)
                && args@ == as_locals(
                self@.stack.subrange(
                    self@.stack.len() - arg_count(kind, num_params as nat),
                    self@.stack.len() as int,
                ),
            )),
    {
        let n = self.operand_stack.len();
        if num_params > n {
            return Err(Fault::StackUnderflow);
        }
        let count = match kind {
            InvokeKind::Static => num_params,
            _ => {
                if num_params == n {
                    return Err(Fault::StackUnderflow);
                }
                num_params + 1
            },
        };
        Ok(self.pop_as_locals(count))
    }

    /// What the receiver slot of an `invokevirtual` refers to.
    pub fn receiver(args: &Vec<Option<Value>>) -> (r: Result<Receiver, Fault>)
        requires
            args@.len() > 0,
        ensures
            r == receiver_spec(args@[0]),
    {
        match args[0] {
            Some(Value::ScalarReference(h)) => Ok(Receiver::Scalar(h)),
            Some(Value::ArrayReference(h)) => Ok(Receiver::Array(h)),
            Some(Value::NullReference) => Err(Fault::NullPointer),
            _ => Err(Fault::InvokeOnPrimitive),
        }
    }

    /// Whether `invokespecial` invokes the resolved method itself rather than
    /// the one that the superclass of the current class selects: it does when
    /// the resolved class does not have `ACC_SUPER` set, or is not a
    /// superclass of the current class, or the method is an instance
    /// initialization method.
    pub fn invokes_resolved_method(
        resolved_class_flags: u16,
        is_descendant: bool,
        method_name: &str,
    ) -> (r: bool)
        ensures
            r == (resolved_class_flags & class_access_flags::ACC_SUPER == 0 || !is_descendant
                || method_name@ == "<init>"@),
    {
        let name = method_name.to_owned();
        let init = "<init>".to_owned();
        resolved_class_flags & class_access_flags::ACC_SUPER == 0 || !is_descendant || name == init
    }
}

/// A result that satisfies `outcome` leaves the code and the constant pool
/// as they were, whenever the intended outcome does.
proof fn lemma_outcome_keeps_code<T>(
    old: FrameState,
    new: FrameState,
    r: Result<T, Fault>,
    o: Result<(FrameState, T), Fault>,
)
    requires
        outcome(old, new, r, o),
        o matches Ok((s, _)) ==> s.code == old.code && s.pool == old.pool,
    ensures
        new.code == old.code,
        new.pool == old.pool,
{
}

} // verus!
