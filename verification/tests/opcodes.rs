use vm15::ExecutionError;
use vm15::MachineState;
use vm15::MAX_ADDR;

fn setup(overrides: Vec<u16>) -> MachineState {
    MachineState::new(overrides)
}

#[test]
fn invalid_opcode() {
    let mut machine = setup(vec![u16::MAX]);
    assert_eq!(
        machine.exec_next(),
        Err(ExecutionError::InvalidOpcode(u16::MAX, 0))
    );
}

#[test]
fn invalid_register() {
    let mut machine = setup(vec![]);
    assert_eq!(
        machine.set_register(0, 0, 0),
        Err(ExecutionError::InvalidRegister(0, 0))
    );
}

#[test]
fn halt() {
    let mut machine = setup(vec![]);
    assert_eq!(machine.exec_next(), Err(ExecutionError::Halt))
}

#[test]
fn set() {
    let mut machine = setup(vec![1, MAX_ADDR as u16, 10]);
    assert_eq!(machine.exec_next(), Ok(()));
    assert_eq!(machine.cur, 3);
    assert_eq!(machine.registers[0], 10);
}

#[test]
fn push() {
    let mut machine = setup(vec![2, 10]);
    assert_eq!(machine.exec_next(), Ok(()));
    assert_eq!(machine.cur, 2);
    assert_eq!(machine.stack.back(), Some(&10));
}

#[test]
fn pop() {
    let mut machine = setup(vec![3]);
    machine.stack.push_back(10);
    assert_eq!(machine.exec_next(), Ok(()));
    assert_eq!(machine.cur, 2);
    assert_eq!(machine.mem[0], 10);
    assert!(machine.stack.is_empty());
}

#[test]
fn eq() {
    // true
    let mut machine = setup(vec![4, 0, 2, 2, 4, 0, 2, 1]);
    assert_eq!(machine.exec_next(), Ok(()));
    assert_eq!(machine.cur, 4);
    assert_eq!(machine.mem[0], 1);

    // false
    assert_eq!(machine.exec_next(), Ok(()));
    assert_eq!(machine.cur, 8);
    assert_eq!(machine.mem[0], 0);
}

#[test]
fn gt() {
    // true
    let mut machine = setup(vec![5, 0, 2, 1, 5, 0, 2, 2]);
    assert_eq!(machine.exec_next(), Ok(()));
    assert_eq!(machine.cur, 4);
    assert_eq!(machine.mem[0], 1);

    // false
    assert_eq!(machine.exec_next(), Ok(()));
    assert_eq!(machine.cur, 8);
    assert_eq!(machine.mem[0], 0);
}

#[test]
fn jmp() {
    let mut machine = setup(vec![6, 10]);
    assert_eq!(machine.exec_next(), Ok(()));
    assert_eq!(machine.cur, 10);
}

#[test]
fn jmp_true() {
    // true
    let mut machine = setup(vec![7, 1, 4, 0, 7, 0, 0]);
    assert_eq!(machine.exec_next(), Ok(()));
    assert_eq!(machine.cur, 4);

    // false
    assert_eq!(machine.exec_next(), Ok(()));
    assert_eq!(machine.cur, 7);
}

#[test]
fn jmp_false() {
    // true
    let mut machine = setup(vec![8, 0, 4, 0, 8, 1, 0]);
    assert_eq!(machine.exec_next(), Ok(()));
    assert_eq!(machine.cur, 4);

    // false
    assert_eq!(machine.exec_next(), Ok(()));
    assert_eq!(machine.cur, 7);
}

#[test]
fn add() {
    let mut machine = setup(vec![9, 0, 2, 2]);
    assert_eq!(machine.exec_next(), Ok(()));
    assert_eq!(machine.mem[0], 4);
    assert_eq!(machine.cur, 4);
}

#[test]
fn mult() {
    let mut machine = setup(vec![10, 0, 2, 3]);
    assert_eq!(machine.exec_next(), Ok(()));
    assert_eq!(machine.mem[0], 6);
    assert_eq!(machine.cur, 4);
}

#[test]
fn modulo() {
    // exact
    let mut machine = setup(vec![11, 0, 6, 3, 11, 0, 5, 3]);
    assert_eq!(machine.exec_next(), Ok(()));
    assert_eq!(machine.mem[0], 0);
    assert_eq!(machine.cur, 4);
    // inexact
    assert_eq!(machine.exec_next(), Ok(()));
    assert_eq!(machine.mem[0], 2);
    assert_eq!(machine.cur, 8);
}

#[test]
fn and() {
    let mut machine = setup(vec![12, 0, 1, 3]);
    assert_eq!(machine.exec_next(), Ok(()));
    assert_eq!(machine.mem[0], 1);
    assert_eq!(machine.cur, 4);
}

#[test]
fn or() {
    let mut machine = setup(vec![13, 0, 1, 2]);
    assert_eq!(machine.exec_next(), Ok(()));
    assert_eq!(machine.mem[0], 3);
    assert_eq!(machine.cur, 4);
}

#[test]
fn not() {
    let mut machine = setup(vec![14, 0, 1]);
    assert_eq!(machine.exec_next(), Ok(()));
    // the complement is taken over the low 15 bits: bit 15 stays clear
    assert_eq!(machine.mem[0], !1 & 0x7fff);
    assert_eq!(machine.cur, 3);
}

#[test]
fn rmem() {
    let mut machine = setup(vec![15, 0, 0]);
    assert_eq!(machine.exec_next(), Ok(()));
    // destination 0 receives the value read at address 0, the opcode itself
    assert_eq!(machine.mem[0], 15);
    assert_eq!(machine.cur, 3);
}

#[test]
fn wmem() {
    let mut machine = setup(vec![16, 0, 1]);
    assert_eq!(machine.exec_next(), Ok(()));
    // address operand 0, value operand 1
    assert_eq!(machine.mem[0], 1);
    assert_eq!(machine.cur, 3);
}

#[test]
fn call() {
    let mut machine = setup(vec![17, 0]);
    assert_eq!(machine.exec_next(), Ok(()));
    assert_eq!(machine.stack.back(), Some(&2));
    assert_eq!(machine.cur, 0);
}

#[test]
fn ret() {
    // empty stack
    let mut machine = setup(vec![18, 18]);
    assert_eq!(machine.exec_next(), Err(ExecutionError::Halt));
    // valid case
    machine.stack.push_back(10);
    assert_eq!(machine.exec_next(), Ok(()));
    assert_eq!(machine.cur, 10);
}

#[test]
fn out() {
    let mut machine = setup(vec![19, b'a' as u16]);

    // opcode is recognized
    assert_eq!(machine.exec_next(), Ok(()));

    // opcode moves past arguments
    assert_eq!(machine.cur, 2);
}

#[test]
fn no_op() {
    let initial = setup(vec![21]);
    let mut machine = initial.clone();
    assert_eq!(machine.exec_next(), Ok(()));
    assert_eq!(initial.mem, machine.mem);
    assert_eq!(machine.cur, 1);
}

#[test]
fn mini_program() {
    let mut machine = setup(vec![9, 32768, 32769, 4, 19, 32768]);
    machine.registers[1] = 60;
    assert_eq!(machine.exec_next(), Ok(()));
    assert_eq!(machine.cur, 4);
    assert_eq!(machine.registers[0], 64);
    assert_eq!(machine.exec_next(), Ok(()));
    assert_eq!(machine.cur, 6);
}
