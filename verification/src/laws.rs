//! General properties of the architecture, proved against the semantics of
//! [`crate::sem`]: operand classification, the range of the modular
//! arithmetic, the 15-bit complement, the push/pop round trip, the two
//! empty-stack policies, and the validation of jump and call targets.

use vstd::prelude::*;

use crate::machine::ExecutionError;
use crate::sem::add_wrap;
use crate::sem::mul_wrap;
use crate::sem::not15;
use crate::sem::read_loc;
use crate::sem::resolve;
use crate::sem::step;
use crate::sem::MachineView;

verus! {

/// Every raw word classifies one way: a word below 32768 resolves as a
/// literal with its own value; a word in `[32768, 32776)` resolves as the
/// register it names; any larger word fails with `InvalidRegister`.
pub proof fn lemma_operand_resolution(m: MachineView, pos: int)
    requires
        m.wf(),
        0 <= pos < 32768,
    ensures
        m.mem[pos] < 32768 ==> resolve(m, pos) == Ok::<u16, ExecutionError>(m.mem[pos]),
        32768 <= m.mem[pos] < 32776 ==> resolve(m, pos) == Ok::<u16, ExecutionError>(
            m.registers[m.mem[pos] - 32768],
        ),
        m.mem[pos] >= 32776 ==> resolve(m, pos) == Err::<u16, ExecutionError>(
            ExecutionError::InvalidRegister(m.mem[pos] as usize, pos as u16),
        ),
{
}

/// The results of `add` and `mult` always lie in `[0, 32768)`: modular
/// reduction holds for every combination of operands, including both at
/// the maximum representable value.
pub proof fn lemma_arith_results_reduced(b: u16, c: u16)
    ensures
        add_wrap(b, c) < 32768,
        mul_wrap(b, c) < 32768,
{
}

/// The output of `not` never has bit 15 set, and applying it twice to any
/// value of the address space gives the value back.
pub proof fn lemma_not_involution(x: u16)
    ensures
        not15(x) < 32768,
        x < 32768 ==> not15(not15(x)) == x,
{
    assert(!x & 0x7fff < 32768) by (bit_vector);
    assert(x < 32768 ==> !(!x & 0x7fff) & 0x7fff == x) by (bit_vector);
}

/// `push` followed immediately by `pop` succeeds, hands the pushed value to
/// `pop`'s destination, and leaves the stack in its prior state; the
/// counter nets exactly the two instructions' own advances, and the input
/// and output streams are untouched.
pub proof fn lemma_push_then_pop(m: MachineView)
    requires
        m.wf(),
        m.cur + 3 < 32768,
        m.mem[m.cur] == 2,  // a push instruction ...
        m.mem[m.cur + 1] < 32776,  // ... whose operand resolves,
        m.mem[m.cur + 2] == 3,  // then a pop instruction ...
        m.mem[m.cur + 3] < 32776,  // ... whose destination is valid
    ensures
        ({
            let v: u16 = resolve(m, m.cur + 1)->Ok_0;
            let s1 = step(m);
            let s2 = step(s1.0);
            &&& s1.1 == Ok::<(), ExecutionError>(())
            &&& s2.1 == Ok::<(), ExecutionError>(())
            &&& s2.0.stack == m.stack
            &&& s2.0.cur == m.cur + 4
            &&& read_loc(s2.0, m.mem[m.cur + 3], 0) == Ok::<u16, ExecutionError>(v)
            &&& s2.0.input == m.input
            &&& s2.0.output == m.output
        }),
{
    let v: u16 = resolve(m, m.cur + 1)->Ok_0;
    assert(m.stack.push(v).last() == v);
    assert(m.stack.push(v).drop_last() =~= m.stack);
}

/// The two empty-stack policies: `pop` on an empty stack is the
/// `EmptyStack` fault, while `ret` on an empty stack is the `Halt` signal
/// — normal termination, not a fault. Neither touches the machine.
pub proof fn lemma_empty_stack_policy(m: MachineView)
    requires
        m.wf(),
        m.stack.len() == 0,
        m.cur < 32768,
    ensures
        m.mem[m.cur] == 3 && m.cur + 1 < 32768 ==> step(m) == (
            m,
            Err::<(), ExecutionError>(ExecutionError::EmptyStack(m.cur as u16)),
        ),
        m.mem[m.cur] == 18 ==> step(m) == (m, Err::<(), ExecutionError>(ExecutionError::Halt)),
{
}

/// A jump, branch or call whose raw target word lies at or past the end of
/// the address space always faults with `InvalidAddress` carrying that
/// word and its position — whatever the branch condition evaluates to, and
/// whatever a register named by the target word may hold.
pub proof fn lemma_jump_targets_validated(m: MachineView)
    requires
        m.wf(),
        m.cur < 32768,
    ensures
        (m.mem[m.cur] == 6 || m.mem[m.cur] == 17) && m.cur + 1 < 32768 && m.mem[m.cur + 1] >= 32768
            ==> step(m) == (
            m,
            Err::<(), ExecutionError>(
                ExecutionError::InvalidAddress(m.mem[m.cur + 1], (m.cur + 1) as u16),
            ),
        ),
        (m.mem[m.cur] == 7 || m.mem[m.cur] == 8) && m.cur + 2 < 32768 && m.mem[m.cur + 2] >= 32768
            ==> step(m) == (
            m,
            Err::<(), ExecutionError>(
                ExecutionError::InvalidAddress(m.mem[m.cur + 2], (m.cur + 2) as u16),
            ),
        ),
{
}

} // verus!
