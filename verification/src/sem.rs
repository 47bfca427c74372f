//! The mathematical model of the machine: a ghost snapshot of the whole
//! state, operand resolution, the generic read/write operations, and a
//! small-step transition function covering every opcode.
//!
//! The executable engine in [`crate::machine`] and [`crate::opcodes`] is
//! specified against these functions: `exec_next` performs exactly one
//! [`step`], and `run` iterates [`run_steps`].

use vstd::prelude::*;

use crate::machine::ExecutionError;

verus! {

/// Ghost snapshot of a whole machine, each field the mathematical view of
/// the corresponding field of `MachineState`.
pub struct MachineView {
    /// The 32768 memory cells.
    pub mem: Seq<u16>,
    /// Address of the word the next fetch reads.
    pub cur: int,
    /// The 8 general-purpose registers.
    pub registers: Seq<u16>,
    /// The LIFO stack; the last element is the top.
    pub stack: Seq<u16>,
    /// Bytes queued for the `in` opcode; the first element is read next.
    pub input: Seq<u8>,
    /// Bytes emitted so far by the `out` opcode, in program order.
    pub output: Seq<u8>,
}

/// The result of one transition: the machine after the step, and `Ok` or the
/// fault it stopped with. A step that returns `Err` leaves the machine
/// exactly as it was.
pub type Step = (MachineView, Result<(), ExecutionError>);

impl MachineView {
    /// Well-formedness: the full address space is populated, all 8 registers
    /// exist, and the program counter has not run past the end of memory.
    pub open spec fn wf(self) -> bool {
        &&& self.mem.len() == 32768
        &&& self.registers.len() == 8
        &&& 0 <= self.cur <= 32768
    }
}

/// Read resolution of the raw word at `pos`: a word below 32768 is a literal
/// and is itself the value; a word in `[32768, 32776)` names a register and
/// resolves to that register's contents; any larger word claims to be a
/// register reference but is out of range.
pub open spec fn resolve(m: MachineView, pos: int) -> Result<u16, ExecutionError> {
    let w: u16 = m.mem[pos];
    if w < 32768 {
        Ok(w)
    } else if w < 32776 {
        Ok(m.registers[w - 32768])
    } else {
        Err(ExecutionError::InvalidRegister(w as usize, pos as u16))
    }
}

/// The generic read operation: a location word below 32768 is a memory
/// address, anything else a register reference.
pub open spec fn read_loc(m: MachineView, loc: u16, pos: u16) -> Result<u16, ExecutionError> {
    if loc < 32768 {
        Ok(m.mem[loc as int])
    } else if loc < 32776 {
        Ok(m.registers[loc - 32768])
    } else {
        Err(ExecutionError::InvalidRegister(loc as usize, pos))
    }
}

/// The generic write operation: a destination word below 32768 is a memory
/// address, anything else a register reference. Only the targeted cell
/// changes; a failed write changes nothing.
pub open spec fn write_loc(m: MachineView, loc: u16, val: u16, pos: u16) -> Result<
    MachineView,
    ExecutionError,
> {
    if loc < 32768 {
        Ok(MachineView { mem: m.mem.update(loc as int, val), ..m })
    } else if loc < 32776 {
        Ok(MachineView { registers: m.registers.update(loc - 32768, val), ..m })
    } else {
        Err(ExecutionError::InvalidRegister(loc as usize, pos))
    }
}

/// Addition modulo 32768.
pub open spec fn add_wrap(b: u16, c: u16) -> u16 {
    ((b + c) % 32768) as u16
}

/// Multiplication modulo 32768.
pub open spec fn mul_wrap(b: u16, c: u16) -> u16 {
    ((b * c) % 32768) as u16
}

/// The remainder of `b` divided by `c`. The architecture leaves a zero
/// divisor unspecified; this machine defines the result as 0 rather than
/// faulting, since the fault taxonomy is closed.
pub open spec fn mod_val(b: u16, c: u16) -> u16 {
    if c == 0 {
        0
    } else {
        (b % c) as u16
    }
}

/// The 15-bit bitwise complement: bit 15 of the result is always 0.
pub open spec fn not15(b: u16) -> u16 {
    !b & 0x7fff
}

/// The low 8 bits of a word, as the byte the `out` opcode emits.
pub open spec fn low_byte(a: u16) -> u8 {
    (a % 256) as u8
}

// The per-opcode transitions. Each takes the machine with `cur` already
// advanced past the opcode word, so `m.cur` is the position of the first
// operand (the handlers of `MachineState` use the same convention), and
// each assumes its operand words lie inside the address space — `step`
// checks that before dispatching. A transition that returns `Err` returns
// the machine unchanged.

/// `halt`: terminate with the `Halt` signal.
pub open spec fn step_halt(m: MachineView) -> Step {
    (m, Err(ExecutionError::Halt))
}

/// `set a b`: write resolved `b` through the generic write operation to
/// destination `a`.
pub open spec fn step_set(m: MachineView) -> Step {
    match resolve(m, m.cur + 1) {
        Err(e) => (m, Err(e)),
        Ok(b) => match write_loc(m, m.mem[m.cur], b, m.cur as u16) {
            Err(e) => (m, Err(e)),
            Ok(m2) => (MachineView { cur: m.cur + 2, ..m2 }, Ok(())),
        },
    }
}

/// `push a`: push resolved `a` onto the stack.
pub open spec fn step_push(m: MachineView) -> Step {
    match resolve(m, m.cur) {
        Err(e) => (m, Err(e)),
        Ok(a) => (MachineView { stack: m.stack.push(a), cur: m.cur + 1, ..m }, Ok(())),
    }
}

/// `pop a`: pop the top of the stack into destination `a`; an empty stack
/// is the `EmptyStack` fault.
pub open spec fn step_pop(m: MachineView) -> Step {
    if m.stack.len() == 0 {
        (m, Err(ExecutionError::EmptyStack((m.cur - 1) as u16)))
    } else {
        let m1 = MachineView { stack: m.stack.drop_last(), ..m };
        match write_loc(m1, m.mem[m.cur], m.stack.last(), m.cur as u16) {
            Err(e) => (m, Err(e)),
            Ok(m2) => (MachineView { cur: m.cur + 1, ..m2 }, Ok(())),
        }
    }
}

/// The shared shape of `eq`, `gt`, `add`, `mult`, `mod`, `and` and `or`:
/// resolve `b` and `c`, combine them with `f`, write the result through the
/// generic write operation to destination `a`, and advance past the three
/// operands.
pub open spec fn step_binop(m: MachineView, f: spec_fn(u16, u16) -> u16) -> Step {
    match resolve(m, m.cur + 1) {
        Err(e) => (m, Err(e)),
        Ok(b) => match resolve(m, m.cur + 2) {
            Err(e) => (m, Err(e)),
            Ok(c) => match write_loc(m, m.mem[m.cur], f(b, c), m.cur as u16) {
                Err(e) => (m, Err(e)),
                Ok(m2) => (MachineView { cur: m.cur + 3, ..m2 }, Ok(())),
            },
        },
    }
}

/// `eq a b c`: write 1 if resolved `b` equals resolved `c`, else 0.
pub open spec fn step_eq(m: MachineView) -> Step {
    step_binop(
        m,
        |b: u16, c: u16|
            if b == c {
                1u16
            } else {
                0u16
            },
    )
}

/// `gt a b c`: write 1 if resolved `b` is greater than resolved `c`, else 0.
pub open spec fn step_gt(m: MachineView) -> Step {
    step_binop(
        m,
        |b: u16, c: u16|
            if b > c {
                1u16
            } else {
                0u16
            },
    )
}

/// `add a b c`: write the sum of resolved `b` and `c`, modulo 32768.
pub open spec fn step_add(m: MachineView) -> Step {
    step_binop(m, |b: u16, c: u16| add_wrap(b, c))
}

/// `mult a b c`: write the product of resolved `b` and `c`, modulo 32768.
pub open spec fn step_mult(m: MachineView) -> Step {
    step_binop(m, |b: u16, c: u16| mul_wrap(b, c))
}

/// `mod a b c`: write the remainder of resolved `b` divided by resolved `c`.
pub open spec fn step_modulo(m: MachineView) -> Step {
    step_binop(m, |b: u16, c: u16| mod_val(b, c))
}

/// `and a b c`: write the bitwise and of resolved `b` and `c`.
pub open spec fn step_and(m: MachineView) -> Step {
    step_binop(m, |b: u16, c: u16| b & c)
}

/// `or a b c`: write the bitwise or of resolved `b` and `c`.
pub open spec fn step_or(m: MachineView) -> Step {
    step_binop(m, |b: u16, c: u16| b | c)
}

/// `not a b`: write the 15-bit complement of resolved `b` to `a`.
pub open spec fn step_not(m: MachineView) -> Step {
    match resolve(m, m.cur + 1) {
        Err(e) => (m, Err(e)),
        Ok(b) => match write_loc(m, m.mem[m.cur], not15(b), m.cur as u16) {
            Err(e) => (m, Err(e)),
            Ok(m2) => (MachineView { cur: m.cur + 2, ..m2 }, Ok(())),
        },
    }
}

/// `jmp a`: jump to the raw target word `a`. A jump target is validated as
/// an address, never resolved as an operand: any target word at or past the
/// end of the address space is the `InvalidAddress` fault, whatever a
/// register of that name may hold.
pub open spec fn step_jmp(m: MachineView) -> Step {
    let t: u16 = m.mem[m.cur];
    if t >= 32768 {
        (m, Err(ExecutionError::InvalidAddress(t, m.cur as u16)))
    } else {
        (MachineView { cur: t as int, ..m }, Ok(()))
    }
}

/// The shared shape of `jt` and `jf`: validate the raw target word first —
/// so an out-of-range target faults whatever the condition — then resolve
/// the condition `a` and either jump or advance past both operands.
pub open spec fn step_branch(m: MachineView, jump_if_nonzero: bool) -> Step {
    let t: u16 = m.mem[m.cur + 1];
    if t >= 32768 {
        (m, Err(ExecutionError::InvalidAddress(t, (m.cur + 1) as u16)))
    } else {
        match resolve(m, m.cur) {
            Err(e) => (m, Err(e)),
            Ok(a) => {
                let taken: bool = if jump_if_nonzero {
                    a != 0
                } else {
                    a == 0
                };
                if taken {
                    (MachineView { cur: t as int, ..m }, Ok(()))
                } else {
                    (MachineView { cur: m.cur + 2, ..m }, Ok(()))
                }
            },
        }
    }
}

/// `jt a b`: if resolved `a` is nonzero, jump to the raw target `b`.
pub open spec fn step_jmp_true(m: MachineView) -> Step {
    step_branch(m, true)
}

/// `jf a b`: if resolved `a` is zero, jump to the raw target `b`.
pub open spec fn step_jmp_false(m: MachineView) -> Step {
    step_branch(m, false)
}

/// `rmem a b`: read through the generic read operation at resolved `b` and
/// write the value to destination `a`.
pub open spec fn step_rmem(m: MachineView) -> Step {
    match resolve(m, m.cur + 1) {
        Err(e) => (m, Err(e)),
        Ok(addr) => match read_loc(m, addr, (m.cur + 1) as u16) {
            Err(e) => (m, Err(e)),
            Ok(v) => match write_loc(m, m.mem[m.cur], v, m.cur as u16) {
                Err(e) => (m, Err(e)),
                Ok(m2) => (MachineView { cur: m.cur + 2, ..m2 }, Ok(())),
            },
        },
    }
}

/// `wmem a b`: write resolved `b` through the generic write operation at
/// resolved `a`. Writing into the program's own code is permitted.
pub open spec fn step_wmem(m: MachineView) -> Step {
    match resolve(m, m.cur) {
        Err(e) => (m, Err(e)),
        Ok(addr) => match resolve(m, m.cur + 1) {
            Err(e) => (m, Err(e)),
            Ok(v) => match write_loc(m, addr, v, m.cur as u16) {
                Err(e) => (m, Err(e)),
                Ok(m2) => (MachineView { cur: m.cur + 2, ..m2 }, Ok(())),
            },
        },
    }
}

/// `call a`: push the address of the next instruction, then jump to the raw
/// target word `a`, validated as `jmp` validates it.
pub open spec fn step_call(m: MachineView) -> Step {
    let t: u16 = m.mem[m.cur];
    if t >= 32768 {
        (m, Err(ExecutionError::InvalidAddress(t, m.cur as u16)))
    } else {
        (MachineView { stack: m.stack.push((m.cur + 1) as u16), cur: t as int, ..m }, Ok(()))
    }
}

/// `ret`: pop the stack into the program counter. An empty stack is the
/// `Halt` signal, not a fault; a popped value outside the address space is
/// the `InvalidAddress` fault.
pub open spec fn step_ret(m: MachineView) -> Step {
    if m.stack.len() == 0 {
        (m, Err(ExecutionError::Halt))
    } else {
        let t: u16 = m.stack.last();
        if t >= 32768 {
            (m, Err(ExecutionError::InvalidAddress(t, m.cur as u16)))
        } else {
            (MachineView { stack: m.stack.drop_last(), cur: t as int, ..m }, Ok(()))
        }
    }
}

/// `out a`: append the low 8 bits of resolved `a` to the output.
pub open spec fn step_char_out(m: MachineView) -> Step {
    match resolve(m, m.cur) {
        Err(e) => (m, Err(e)),
        Ok(a) => (MachineView { output: m.output.push(low_byte(a)), cur: m.cur + 1, ..m }, Ok(())),
    }
}

/// `in a`: take the next queued input byte and write it to destination `a`;
/// an empty queue is the `EmptyStdin` fault, and consumes nothing.
pub open spec fn step_char_in(m: MachineView) -> Step {
    if m.input.len() == 0 {
        (m, Err(ExecutionError::EmptyStdin((m.cur - 1) as u16)))
    } else {
        let m1 = MachineView { input: m.input.drop_first(), ..m };
        match write_loc(m1, m.mem[m.cur], m.input.first() as u16, m.cur as u16) {
            Err(e) => (m, Err(e)),
            Ok(m2) => (MachineView { cur: m.cur + 1, ..m2 }, Ok(())),
        }
    }
}

/// `noop`: no effect beyond advancing past the opcode.
pub open spec fn step_no_op(m: MachineView) -> Step {
    (m, Ok(()))
}

/// How many operand words follow each opcode.
pub open spec fn operand_count(op: u16) -> int {
    if op == 0 || op == 18 || op == 21 {
        0
    } else if op == 2 || op == 3 || op == 6 || op == 17 || op == 19 || op == 20 {
        1
    } else if op == 1 || op == 7 || op == 8 || op == 14 || op == 15 || op == 16 {
        2
    } else {
        3
    }
}

/// One fetch-decode-execute transition from `m`. A fetch at the end of the
/// address space, an opcode word outside the table, or an instruction whose
/// operands would run past the end of memory each fault before any handler
/// runs; otherwise the opcode's transition runs with the counter advanced
/// past the opcode word. Whenever the result is `Err`, the machine of the
/// result equals `m`.
pub open spec fn step(m: MachineView) -> Step {
    if m.cur >= 32768 {
        (m, Err(ExecutionError::InvalidAddress(32768, m.cur as u16)))
    } else {
        let op: u16 = m.mem[m.cur];
        if op > 21 {
            (m, Err(ExecutionError::InvalidOpcode(op, m.cur as u16)))
        } else if m.cur + operand_count(op) >= 32768 {
            (m, Err(ExecutionError::InvalidAddress(32768, m.cur as u16)))
        } else {
            let m1 = MachineView { cur: m.cur + 1, ..m };
            let s: Step = if op == 0 {
                step_halt(m1)
            } else if op == 1 {
                step_set(m1)
            } else if op == 2 {
                step_push(m1)
            } else if op == 3 {
                step_pop(m1)
            } else if op == 4 {
                step_eq(m1)
            } else if op == 5 {
                step_gt(m1)
            } else if op == 6 {
                step_jmp(m1)
            } else if op == 7 {
                step_jmp_true(m1)
            } else if op == 8 {
                step_jmp_false(m1)
            } else if op == 9 {
                step_add(m1)
            } else if op == 10 {
                step_mult(m1)
            } else if op == 11 {
                step_modulo(m1)
            } else if op == 12 {
                step_and(m1)
            } else if op == 13 {
                step_or(m1)
            } else if op == 14 {
                step_not(m1)
            } else if op == 15 {
                step_rmem(m1)
            } else if op == 16 {
                step_wmem(m1)
            } else if op == 17 {
                step_call(m1)
            } else if op == 18 {
                step_ret(m1)
            } else if op == 19 {
                step_char_out(m1)
            } else if op == 20 {
                step_char_in(m1)
            } else {
                step_no_op(m1)
            };
            if s.1 is Err {
                (m, s.1)
            } else {
                s
            }
        }
    }
}

/// Up to `fuel` transitions from `m`: iteration stops early at the first
/// `Err`, returning the machine the failing step left (unchanged by that
/// step) together with the signal or fault.
pub open spec fn run_steps(m: MachineView, fuel: nat) -> Step
    decreases fuel,
{
    if fuel == 0 {
        (m, Ok(()))
    } else {
        let s: Step = step(m);
        match s.1 {
            Err(e) => (m, Err(e)),
            Ok(u) => run_steps(s.0, (fuel - 1) as nat),
        }
    }
}

} // verus!
