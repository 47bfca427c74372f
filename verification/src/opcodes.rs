//! Per-opcode semantic handlers. Each handler runs with `self.cur` already
//! advanced past the opcode word, so it points at the first operand — the
//! same convention as the `step_*` functions of [`crate::sem`] — and each is
//! proved to perform exactly its transition. A handler that returns `Err`
//! leaves the machine exactly as it found it.

use vstd::prelude::*;

use crate::machine::ExecutionError;
use crate::machine::MachineState;
use crate::machine::OpcodeResult;
use crate::machine::MAX_ADDR;
use crate::sem::step_add;
use crate::sem::step_and;
use crate::sem::step_call;
use crate::sem::step_char_in;
use crate::sem::step_char_out;
use crate::sem::step_eq;
use crate::sem::step_gt;
use crate::sem::step_halt;
use crate::sem::step_jmp;
use crate::sem::step_jmp_false;
use crate::sem::step_jmp_true;
use crate::sem::step_modulo;
use crate::sem::step_mult;
use crate::sem::step_no_op;
use crate::sem::step_not;
use crate::sem::step_or;
use crate::sem::step_pop;
use crate::sem::step_push;
use crate::sem::step_ret;
use crate::sem::step_rmem;
use crate::sem::step_set;
use crate::sem::step_wmem;

verus! {

impl MachineState {
    /// Opcode: 0
    /// Stop execution and terminate the program.
    pub fn halt(&mut self) -> (r: OpcodeResult)
        requires
            old(self)@.wf(),
        ensures
            final(self)@.wf(),
            final(self)@ == step_halt(old(self)@).0,
            r == step_halt(old(self)@).1,
    {
        Err(ExecutionError::Halt)
    }

    /// Opcode: 1 a b
    /// Write the value of <b> to destination <a>.
    pub fn set(&mut self) -> (r: OpcodeResult)
        requires
            old(self)@.wf(),
            old(self)@.cur + 1 < 32768,
        ensures
            final(self)@.wf(),
            final(self)@ == step_set(old(self)@).0,
            r == step_set(old(self)@).1,
    {
        let dest: u16 = self.mem[self.cur as usize];
        let b: u16 = match self.resolve_operand(self.cur + 1) {
            Ok(v) => v,
            Err(e) => {
                return Err(e);
            },
        };
        let dest_pos: u16 = self.cur;
        let r = self.write(dest, b, dest_pos);
        if r.is_err() {
            return r;
        }
        self.cur = self.cur + 2;
        Ok(())
    }

    /// Opcode: 2 a
    /// Push <a> onto the stack.
    pub fn push(&mut self) -> (r: OpcodeResult)
        requires
            old(self)@.wf(),
            old(self)@.cur < 32768,
        ensures
            final(self)@.wf(),
            final(self)@ == step_push(old(self)@).0,
            r == step_push(old(self)@).1,
    {
        let a: u16 = match self.resolve_operand(self.cur) {
            Ok(v) => v,
            Err(e) => {
                return Err(e);
            },
        };
        self.stack.push_back(a);
        self.cur = self.cur + 1;
        Ok(())
    }

    /// Opcode: 3 a
    /// Remove the top element from the stack and write it into <a>; an
    /// empty stack is the `EmptyStack` fault.
    pub fn pop(&mut self) -> (r: OpcodeResult)
        requires
            old(self)@.wf(),
            1 <= old(self)@.cur < 32768,
        ensures
            final(self)@.wf(),
            final(self)@ == step_pop(old(self)@).0,
            r == step_pop(old(self)@).1,
    {
        if self.stack.len() == 0 {
            return Err(ExecutionError::EmptyStack(self.cur - 1));
        }
        let dest: u16 = self.mem[self.cur as usize];
        let top: u16 = self.stack[self.stack.len() - 1];
        let dest_pos: u16 = self.cur;
        let r = self.write(dest, top, dest_pos);
        if r.is_err() {
            return r;
        }
        let _popped: Option<u16> = self.stack.pop_back();
        self.cur = self.cur + 1;
        Ok(())
    }

    /// Opcode: 4 a b c
    /// Set <a> to 1 if <b> is equal to <c>; set it to 0 otherwise.
    pub fn eq(&mut self) -> (r: OpcodeResult)
        requires
            old(self)@.wf(),
            old(self)@.cur + 2 < 32768,
        ensures
            final(self)@.wf(),
            final(self)@ == step_eq(old(self)@).0,
            r == step_eq(old(self)@).1,
    {
        let (b, c): (u16, u16) = match self.resolve_pair() {
            Ok(p) => p,
            Err(e) => {
                return Err(e);
            },
        };
        let v: u16 = if b == c {
            1
        } else {
            0
        };
        self.finish_binop(v)
    }

    /// Opcode: 5 a b c
    /// Set <a> to 1 if <b> is greater than <c>; set it to 0 otherwise.
    pub fn gt(&mut self) -> (r: OpcodeResult)
        requires
            old(self)@.wf(),
            old(self)@.cur + 2 < 32768,
        ensures
            final(self)@.wf(),
            final(self)@ == step_gt(old(self)@).0,
            r == step_gt(old(self)@).1,
    {
        let (b, c): (u16, u16) = match self.resolve_pair() {
            Ok(p) => p,
            Err(e) => {
                return Err(e);
            },
        };
        let v: u16 = if b > c {
            1
        } else {
            0
        };
        self.finish_binop(v)
    }

    /// Opcode: 6 a
    /// Jump to <a>. The raw target word is validated as an address: any
    /// word at or past the end of the address space is `InvalidAddress`.
    pub fn jmp(&mut self) -> (r: OpcodeResult)
        requires
            old(self)@.wf(),
            old(self)@.cur < 32768,
        ensures
            final(self)@.wf(),
            final(self)@ == step_jmp(old(self)@).0,
            r == step_jmp(old(self)@).1,
    {
        let t: u16 = self.mem[self.cur as usize];
        if t >= MAX_ADDR as u16 {
            return Err(ExecutionError::InvalidAddress(t, self.cur));
        }
        self.cur = t;
        Ok(())
    }

    /// Opcode: 7 a b
    /// If <a> is nonzero, jump to <b>. The raw target is validated first,
    /// so an out-of-range target faults whatever <a> holds.
    pub fn jmp_true(&mut self) -> (r: OpcodeResult)
        requires
            old(self)@.wf(),
            old(self)@.cur + 1 < 32768,
        ensures
            final(self)@.wf(),
            final(self)@ == step_jmp_true(old(self)@).0,
            r == step_jmp_true(old(self)@).1,
    {
        self.branch(true)
    }

    /// Opcode: 8 a b
    /// If <a> is zero, jump to <b>. The raw target is validated first, so
    /// an out-of-range target faults whatever <a> holds.
    pub fn jmp_false(&mut self) -> (r: OpcodeResult)
        requires
            old(self)@.wf(),
            old(self)@.cur + 1 < 32768,
        ensures
            final(self)@.wf(),
            final(self)@ == step_jmp_false(old(self)@).0,
            r == step_jmp_false(old(self)@).1,
    {
        self.branch(false)
    }

    /// Opcode: 9 a b c
    /// Assign into <a> the sum of <b> and <c>, modulo 32768.
    pub fn add(&mut self) -> (r: OpcodeResult)
        requires
            old(self)@.wf(),
            old(self)@.cur + 2 < 32768,
        ensures
            final(self)@.wf(),
            final(self)@ == step_add(old(self)@).0,
            r == step_add(old(self)@).1,
    {
        let (b, c): (u16, u16) = match self.resolve_pair() {
            Ok(p) => p,
            Err(e) => {
                return Err(e);
            },
        };
        // computed in u32 to avoid overflow before the reduction
        let v: u16 = ((b as u32 + c as u32) % 32768) as u16;
        self.finish_binop(v)
    }

    /// Opcode: 10 a b c
    /// Store into <a> the product of <b> and <c>, modulo 32768.
    pub fn mult(&mut self) -> (r: OpcodeResult)
        requires
            old(self)@.wf(),
            old(self)@.cur + 2 < 32768,
        ensures
            final(self)@.wf(),
            final(self)@ == step_mult(old(self)@).0,
            r == step_mult(old(self)@).1,
    {
        let (b, c): (u16, u16) = match self.resolve_pair() {
            Ok(p) => p,
            Err(e) => {
                return Err(e);
            },
        };
        // computed in u32 to avoid overflow before the reduction
        proof {
            assert(b * c <= 65535 * 65535) by (nonlinear_arith)
                requires
                    b <= 65535,
                    c <= 65535,
            ;
        }
        let v: u16 = ((b as u32 * c as u32) % 32768) as u16;
        self.finish_binop(v)
    }

    /// Opcode: 11 a b c
    /// Store into <a> the remainder of <b> divided by <c>. A zero divisor
    /// gives 0 rather than a fault.
    pub fn modulo(&mut self) -> (r: OpcodeResult)
        requires
            old(self)@.wf(),
            old(self)@.cur + 2 < 32768,
        ensures
            final(self)@.wf(),
            final(self)@ == step_modulo(old(self)@).0,
            r == step_modulo(old(self)@).1,
    {
        let (b, c): (u16, u16) = match self.resolve_pair() {
            Ok(p) => p,
            Err(e) => {
                return Err(e);
            },
        };
        let v: u16 = if c == 0 {
            0
        } else {
            b % c
        };
        self.finish_binop(v)
    }

    /// Opcode: 12 a b c
    /// Store into <a> the bitwise and of <b> and <c>.
    pub fn and(&mut self) -> (r: OpcodeResult)
        requires
            old(self)@.wf(),
            old(self)@.cur + 2 < 32768,
        ensures
            final(self)@.wf(),
            final(self)@ == step_and(old(self)@).0,
            r == step_and(old(self)@).1,
    {
        let (b, c): (u16, u16) = match self.resolve_pair() {
            Ok(p) => p,
            Err(e) => {
                return Err(e);
            },
        };
        self.finish_binop(b & c)
    }

    /// Opcode: 13 a b c
    /// Store into <a> the bitwise or of <b> and <c>.
    pub fn or(&mut self) -> (r: OpcodeResult)
        requires
            old(self)@.wf(),
            old(self)@.cur + 2 < 32768,
        ensures
            final(self)@.wf(),
            final(self)@ == step_or(old(self)@).0,
            r == step_or(old(self)@).1,
    {
        let (b, c): (u16, u16) = match self.resolve_pair() {
            Ok(p) => p,
            Err(e) => {
                return Err(e);
            },
        };
        self.finish_binop(b | c)
    }

    /// Opcode: 14 a b
    /// Store the 15-bit bitwise inverse of <b> in <a>: bit 15 of the
    /// result is always 0.
    pub fn not(&mut self) -> (r: OpcodeResult)
        requires
            old(self)@.wf(),
            old(self)@.cur + 1 < 32768,
        ensures
            final(self)@.wf(),
            final(self)@ == step_not(old(self)@).0,
            r == step_not(old(self)@).1,
    {
        let dest: u16 = self.mem[self.cur as usize];
        let b: u16 = match self.resolve_operand(self.cur + 1) {
            Ok(v) => v,
            Err(e) => {
                return Err(e);
            },
        };
        let dest_pos: u16 = self.cur;
        let r = self.write(dest, !b & 0x7fff, dest_pos);
        if r.is_err() {
            return r;
        }
        self.cur = self.cur + 2;
        Ok(())
    }

    /// Opcode: 15 a b
    /// Read memory at address <b> and write it to <a>.
    pub fn rmem(&mut self) -> (r: OpcodeResult)
        requires
            old(self)@.wf(),
            old(self)@.cur + 1 < 32768,
        ensures
            final(self)@.wf(),
            final(self)@ == step_rmem(old(self)@).0,
            r == step_rmem(old(self)@).1,
    {
        let dest: u16 = self.mem[self.cur as usize];
        let addr: u16 = match self.resolve_operand(self.cur + 1) {
            Ok(v) => v,
            Err(e) => {
                return Err(e);
            },
        };
        let v: u16 = match self.read(addr, self.cur + 1) {
            Ok(v) => v,
            Err(e) => {
                return Err(e);
            },
        };
        let dest_pos: u16 = self.cur;
        let r = self.write(dest, v, dest_pos);
        if r.is_err() {
            return r;
        }
        self.cur = self.cur + 2;
        Ok(())
    }

    /// Opcode: 16 a b
    /// Write the value from <b> into memory at address <a>. Writing into
    /// the program's own code is permitted.
    pub fn wmem(&mut self) -> (r: OpcodeResult)
        requires
            old(self)@.wf(),
            old(self)@.cur + 1 < 32768,
        ensures
            final(self)@.wf(),
            final(self)@ == step_wmem(old(self)@).0,
            r == step_wmem(old(self)@).1,
    {
        let addr: u16 = match self.resolve_operand(self.cur) {
            Ok(v) => v,
            Err(e) => {
                return Err(e);
            },
        };
        let v: u16 = match self.resolve_operand(self.cur + 1) {
            Ok(v) => v,
            Err(e) => {
                return Err(e);
            },
        };
        let dest_pos: u16 = self.cur;
        let r = self.write(addr, v, dest_pos);
        if r.is_err() {
            return r;
        }
        self.cur = self.cur + 2;
        Ok(())
    }

    /// Opcode: 17 a
    /// Push the address of the next instruction to the stack and jump to
    /// <a>, validated as `jmp` validates its target.
    pub fn call(&mut self) -> (r: OpcodeResult)
        requires
            old(self)@.wf(),
            old(self)@.cur < 32768,
        ensures
            final(self)@.wf(),
            final(self)@ == step_call(old(self)@).0,
            r == step_call(old(self)@).1,
    {
        let t: u16 = self.mem[self.cur as usize];
        if t >= MAX_ADDR as u16 {
            return Err(ExecutionError::InvalidAddress(t, self.cur));
        }
        self.stack.push_back(self.cur + 1);
        self.cur = t;
        Ok(())
    }

    /// Opcode: 18
    /// Remove the top element from the stack and jump to it; an empty
    /// stack terminates with `Halt`, not a fault.
    pub fn ret(&mut self) -> (r: OpcodeResult)
        requires
            old(self)@.wf(),
        ensures
            final(self)@.wf(),
            final(self)@ == step_ret(old(self)@).0,
            r == step_ret(old(self)@).1,
    {
        if self.stack.len() == 0 {
            return Err(ExecutionError::Halt);
        }
        let t: u16 = self.stack[self.stack.len() - 1];
        if t >= MAX_ADDR as u16 {
            return Err(ExecutionError::InvalidAddress(t, self.cur));
        }
        let _popped: Option<u16> = self.stack.pop_back();
        self.cur = t;
        Ok(())
    }

    /// Opcode: 19 a
    /// Append the low 8 bits of <a>, the code of one character, to the
    /// output.
    pub fn char_out(&mut self) -> (r: OpcodeResult)
        requires
            old(self)@.wf(),
            old(self)@.cur < 32768,
        ensures
            final(self)@.wf(),
            final(self)@ == step_char_out(old(self)@).0,
            r == step_char_out(old(self)@).1,
    {
        let a: u16 = match self.resolve_operand(self.cur) {
            Ok(v) => v,
            Err(e) => {
                return Err(e);
            },
        };
        self.output.push((a % 256) as u8);
        self.cur = self.cur + 1;
        Ok(())
    }

    /// Opcode: 20 a
    /// Take the next queued input byte and write its code to <a>; an empty
    /// queue is the `EmptyStdin` fault and consumes nothing.
    pub fn char_in(&mut self) -> (r: OpcodeResult)
        requires
            old(self)@.wf(),
            1 <= old(self)@.cur < 32768,
        ensures
            final(self)@.wf(),
            final(self)@ == step_char_in(old(self)@).0,
            r == step_char_in(old(self)@).1,
    {
        if self.input.len() == 0 {
            return Err(ExecutionError::EmptyStdin(self.cur - 1));
        }
        let dest: u16 = self.mem[self.cur as usize];
        let byte: u8 = self.input[0];
        let dest_pos: u16 = self.cur;
        let r = self.write(dest, byte as u16, dest_pos);
        if r.is_err() {
            return r;
        }
        let _taken: Option<u8> = self.input.pop_front();
        self.cur = self.cur + 1;
        Ok(())
    }

    /// Opcode: 21
    /// Does nothing.
    pub fn no_op(&mut self) -> (r: OpcodeResult)
        requires
            old(self)@.wf(),
        ensures
            final(self)@.wf(),
            final(self)@ == step_no_op(old(self)@).0,
            r == step_no_op(old(self)@).1,
    {
        Ok(())
    }

    /// Resolves the <b> and <c> operands shared by the three-operand
    /// opcodes, without touching the machine.
    fn resolve_pair(&self) -> (r: Result<(u16, u16), ExecutionError>)
        requires
            self@.wf(),
            self@.cur + 2 < 32768,
        ensures
            match (crate::sem::resolve(self@, self@.cur + 1), crate::sem::resolve(
                self@,
                self@.cur + 2,
            )) {
                (Ok(b), Ok(c)) => r == Ok::<(u16, u16), ExecutionError>((b, c)),
                (Err(e), _) => r == Err::<(u16, u16), ExecutionError>(e),
                (Ok(b), Err(e)) => r == Err::<(u16, u16), ExecutionError>(e),
            },
    {
        let b: u16 = match self.resolve_operand(self.cur + 1) {
            Ok(v) => v,
            Err(e) => {
                return Err(e);
            },
        };
        let c: u16 = match self.resolve_operand(self.cur + 2) {
            Ok(v) => v,
            Err(e) => {
                return Err(e);
            },
        };
        Ok((b, c))
    }

    /// Writes a three-operand opcode's result to its destination and
    /// advances past the operands.
    fn finish_binop(&mut self, v: u16) -> (r: OpcodeResult)
        requires
            old(self)@.wf(),
            old(self)@.cur + 2 < 32768,
        ensures
            final(self)@.wf(),
            match crate::sem::write_loc(
                old(self)@,
                old(self)@.mem[old(self)@.cur],
                v,
                old(self)@.cur as u16,
            ) {
                Ok(m2) => r == Ok::<(), ExecutionError>(()) && final(self)@ == (
                crate::sem::MachineView { cur: old(self)@.cur + 3, ..m2 }),
                Err(e) => r == Err::<(), ExecutionError>(e) && final(self)@ == old(self)@,
            },
    {
        let dest: u16 = self.mem[self.cur as usize];
        let dest_pos: u16 = self.cur;
        let r = self.write(dest, v, dest_pos);
        if r.is_err() {
            return r;
        }
        self.cur = self.cur + 3;
        Ok(())
    }

    /// The shared body of `jmp_true` and `jmp_false`.
    fn branch(&mut self, jump_if_nonzero: bool) -> (r: OpcodeResult)
        requires
            old(self)@.wf(),
            old(self)@.cur + 1 < 32768,
        ensures
            final(self)@.wf(),
            final(self)@ == crate::sem::step_branch(old(self)@, jump_if_nonzero).0,
            r == crate::sem::step_branch(old(self)@, jump_if_nonzero).1,
    {
        let t: u16 = self.mem[self.cur as usize + 1];
        if t >= MAX_ADDR as u16 {
            return Err(ExecutionError::InvalidAddress(t, self.cur + 1));
        }
        let a: u16 = match self.resolve_operand(self.cur) {
            Ok(v) => v,
            Err(e) => {
                return Err(e);
            },
        };
        let taken: bool = if jump_if_nonzero {
            a != 0
        } else {
            a == 0
        };
        if taken {
            self.cur = t;
        } else {
            self.cur = self.cur + 2;
        }
        Ok(())
    }
}

} // verus!
