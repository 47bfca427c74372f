//! The machine state and its bounds-checked store: memory, registers, the
//! stack, and the generic read/write operations that every opcode handler
//! goes through.

use std::collections::VecDeque;

use vstd::prelude::*;

use crate::sem::read_loc;
use crate::sem::resolve;
use crate::sem::run_steps;
use crate::sem::step;
use crate::sem::write_loc;
use crate::sem::MachineView;

verus! {

/// The number of addressable memory cells. A raw operand word below this
/// threshold is a literal; at or above it, a register reference.
pub const MAX_ADDR: usize = 32768;

/// The number of general-purpose registers.
pub const REGISTER_COUNT: usize = 8;

/// Represents the state of the machine:
/// - `mem` is its entire memory (RAM)
/// - `cur` is the index of the current operation to be executed
/// - `registers` are the 8 registers specified in the architecture
/// - `stack` is the LIFO stack used by push/pop and call/ret
/// - `input` holds bytes queued for the `in` opcode; `output` collects the
///   bytes the `out` opcode has emitted. The surrounding program moves bytes
///   between these queues and the real streams.
#[derive(Clone, Debug, PartialEq, Eq)]
pub struct MachineState {
    pub mem: Vec<u16>,
    pub cur: u16,
    pub registers: [u16; 8],
    pub stack: VecDeque<u16>,
    pub input: VecDeque<u8>,
    pub output: Vec<u8>,
}

impl View for MachineState {
    type V = MachineView;

    open spec fn view(&self) -> MachineView {
        MachineView {
            mem: self.mem@,
            cur: self.cur as int,
            registers: self.registers@,
            stack: self.stack@,
            input: self.input@,
            output: self.output@,
        }
    }
}

impl MachineState {
    /// Builds the machine for a program image: the image is copied to the
    /// start of memory and every remaining cell defaults to 0; registers
    /// start at 0, the stack starts empty, execution starts at address 0.
    pub fn new(mem: Vec<u16>) -> (m: MachineState)
        requires
            mem@.len() <= 32768,
        ensures
            m@.wf(),
            m@.mem.len() == 32768,
            forall|i: int| 0 <= i < mem@.len() ==> m@.mem[i] == mem@[i],
            forall|i: int| mem@.len() <= i < 32768 ==> m@.mem[i] == 0,
            m@.cur == 0,
            forall|i: int| 0 <= i < 8 ==> m@.registers[i] == 0,
            m@.stack.len() == 0,
            m@.input.len() == 0,
            m@.output.len() == 0,
    {
        let ghost image = mem@;
        let mut mem = mem;
        while mem.len() < 32768
            invariant
                image.len() <= mem@.len() <= 32768,
                forall|i: int| 0 <= i < image.len() ==> mem@[i] == image[i],
                forall|i: int| image.len() <= i < mem@.len() ==> mem@[i] == 0,
            decreases 32768 - mem.len(),
        {
            mem.push(0);
        }
        MachineState {
            mem,
            cur: 0,
            registers: [0, 0, 0, 0, 0, 0, 0, 0],
            stack: VecDeque::new(),
            input: VecDeque::new(),
            output: Vec::new(),
        }
    }

    /// Runs the execution loop: repeatedly fetches, decodes and executes,
    /// until the program signals `Halt`, a fault stops it, or the step
    /// bound of one instruction per memory cell is exhausted (`Ok`).
    pub fn run(&mut self) -> (r: OpcodeResult)
        requires
            old(self)@.wf(),
        ensures
            final(self)@.wf(),
            final(self)@ == run_steps(old(self)@, 32768).0,
            r == run_steps(old(self)@, 32768).1,
    {
        let mut i: usize = 0;
        while i < MAX_ADDR
            invariant
                self@.wf(),
                i <= 32768,
                run_steps(old(self)@, 32768) == run_steps(self@, (32768 - i) as nat),
            decreases 32768 - i,
        {
            let r = self.exec_next();
            if let Err(err) = r {
                return Err(err);
            }
            i = i + 1;
        }
        Ok(())
    }

    /// Executes the next operation: exactly one `step` of the semantics.
    /// When the result is `Err` — the `Halt` signal or a fault — the
    /// machine is left exactly as it was.
    pub fn exec_next(&mut self) -> (r: OpcodeResult)
        requires
            old(self)@.wf(),
        ensures
            final(self)@.wf(),
            final(self)@ == step(old(self)@).0,
            r == step(old(self)@).1,
            r is Err ==> final(self)@ == old(self)@,
    {
        if self.cur >= MAX_ADDR as u16 {
            return Err(ExecutionError::InvalidAddress(32768, self.cur));
        }
        let opcode_pos: u16 = self.cur;
        let op: u16 = self.mem[opcode_pos as usize];
        if op > 21 {
            return Err(ExecutionError::InvalidOpcode(op, opcode_pos));
        }
        let count: u16 = if op == 0 || op == 18 || op == 21 {
            0
        } else if op == 2 || op == 3 || op == 6 || op == 17 || op == 19 || op == 20 {
            1
        } else if op == 1 || op == 7 || op == 8 || op == 14 || op == 15 || op == 16 {
            2
        } else {
            3
        };
        if opcode_pos as usize + count as usize >= MAX_ADDR {
            return Err(ExecutionError::InvalidAddress(32768, opcode_pos));
        }
        self.cur = opcode_pos + 1;
        let r = match op {
            0 => self.halt(),
            1 => self.set(),
            2 => self.push(),
            3 => self.pop(),
            4 => self.eq(),
            5 => self.gt(),
            6 => self.jmp(),
            7 => self.jmp_true(),
            8 => self.jmp_false(),
            9 => self.add(),
            10 => self.mult(),
            11 => self.modulo(),
            12 => self.and(),
            13 => self.or(),
            14 => self.not(),
            15 => self.rmem(),
            16 => self.wmem(),
            17 => self.call(),
            18 => self.ret(),
            19 => self.char_out(),
            20 => self.char_in(),
            _ => self.no_op(),
        };
        if r.is_err() {
            self.cur = opcode_pos;
        }
        r
    }

    /// Attempts to set a register to the provided value. A value in
    /// `[32768, 32776)` names a register; anything else is an
    /// `InvalidRegister` fault and leaves the machine unchanged.
    pub fn set_register(&mut self, register: usize, val: u16, pos: u16) -> (r: OpcodeResult)
        requires
            old(self)@.wf(),
        ensures
            final(self)@.wf(),
            32768 <= register < 32776 ==> r == Ok::<(), ExecutionError>(()) && final(self)@ == (
            MachineView { registers: old(self)@.registers.update(register - 32768, val), ..old(
                self,
            )@ }),
            !(32768 <= register < 32776) ==> r == Err::<(), ExecutionError>(
                ExecutionError::InvalidRegister(register, pos),
            ) && final(self)@ == old(self)@,
    {
        if register >= 32768 && register - 32768 < 8 {
            self.registers[register - 32768] = val;
            Ok(())
        } else {
            Err(ExecutionError::InvalidRegister(register, pos))
        }
    }

    /// Attempts to read from a register, named by a value in
    /// `[32768, 32776)`; anything else is an `InvalidRegister` fault.
    pub fn get_register(&self, register: usize, pos: u16) -> (r: Result<u16, ExecutionError>)
        requires
            self@.wf(),
        ensures
            32768 <= register < 32776 ==> r == Ok::<u16, ExecutionError>(
                self@.registers[register - 32768],
            ),
            !(32768 <= register < 32776) ==> r == Err::<u16, ExecutionError>(
                ExecutionError::InvalidRegister(register, pos),
            ),
    {
        if register >= 32768 && register - 32768 < 8 {
            Ok(self.registers[register - 32768])
        } else {
            Err(ExecutionError::InvalidRegister(register, pos))
        }
    }

    /// Attempts to write the provided value to a register or a memory
    /// address: the generic write operation of the architecture.
    pub fn write(&mut self, write_to: u16, val: u16, pos: u16) -> (r: OpcodeResult)
        requires
            old(self)@.wf(),
        ensures
            final(self)@.wf(),
            match write_loc(old(self)@, write_to, val, pos) {
                Ok(m2) => r == Ok::<(), ExecutionError>(()) && final(self)@ == m2,
                Err(e) => r == Err::<(), ExecutionError>(e) && final(self)@ == old(self)@,
            },
    {
        if write_to < MAX_ADDR as u16 {
            self.mem[write_to as usize] = val;
            Ok(())
        } else {
            self.set_register(write_to as usize, val, pos)
        }
    }

    /// Attempts to read from a register or a memory address: the generic
    /// read operation of the architecture.
    pub fn read(&self, read_from: u16, pos: u16) -> (r: Result<u16, ExecutionError>)
        requires
            self@.wf(),
        ensures
            r == read_loc(self@, read_from, pos),
    {
        if read_from < MAX_ADDR as u16 {
            Ok(self.mem[read_from as usize])
        } else {
            self.get_register(read_from as usize, pos)
        }
    }

    /// Resolves the operand word stored at `pos`: a literal is itself the
    /// value, a register reference reads the register.
    pub(crate) fn resolve_operand(&self, pos: u16) -> (r: Result<u16, ExecutionError>)
        requires
            self@.wf(),
            pos < 32768,
        ensures
            r == resolve(self@, pos as int),
    {
        let w: u16 = self.mem[pos as usize];
        if w < MAX_ADDR as u16 {
            Ok(w)
        } else {
            self.get_register(w as usize, pos)
        }
    }
}

/// The closed set of conditions that stop execution. `Halt` is the normal
/// termination signal (the `halt` opcode, or `ret` on an empty stack); every
/// other variant is a fault, carrying the offending value and the position
/// it was found at.
#[derive(Debug, Clone, PartialEq, Eq)]
pub enum ExecutionError {
    Halt,
    InvalidOpcode(u16, u16),
    InvalidRegister(usize, u16),
    EmptyStack(u16),
    InvalidAddress(u16, u16),
    EmptyStdin(u16),
    ReadError(String, u16),
}

pub type OpcodeResult = Result<(), ExecutionError>;

} // verus!
