use vm15::ExecutionError;
use vm15::MachineState;

fn setup(overrides: Vec<u16>) -> MachineState {
    MachineState::new(overrides)
}

#[test]
fn new_pads_memory_with_zeros() {
    let machine = setup(vec![7, 9]);
    assert_eq!(machine.mem.len(), 32768);
    assert_eq!(machine.mem[0], 7);
    assert_eq!(machine.mem[1], 9);
    assert_eq!(machine.mem[2], 0);
    assert_eq!(machine.mem[32767], 0);
    assert_eq!(machine.cur, 0);
    assert_eq!(machine.registers, [0; 8]);
    assert!(machine.stack.is_empty());
    assert!(machine.input.is_empty());
    assert!(machine.output.is_empty());
}

#[test]
fn literal_and_register_resolution() {
    let mut machine = setup(vec![5, 6, 7]);
    machine.registers[3] = 1234;
    // a word below 32768 is a memory address for the generic read
    assert_eq!(machine.read(1, 0), Ok(6));
    // register references resolve to the register's contents
    assert_eq!(machine.get_register(32771, 0), Ok(1234));
    // a reference past the last register is a fault carrying word and position
    assert_eq!(
        machine.get_register(32776, 7),
        Err(ExecutionError::InvalidRegister(32776, 7))
    );
    assert_eq!(
        machine.read(40000, 5),
        Err(ExecutionError::InvalidRegister(40000, 5))
    );
}

#[test]
fn invalid_register_operand_faults() {
    let mut machine = setup(vec![9, 0, 32776, 1]);
    assert_eq!(
        machine.exec_next(),
        Err(ExecutionError::InvalidRegister(32776, 2))
    );
    // a fault leaves the machine untouched
    assert_eq!(machine.cur, 0);
    assert_eq!(machine.mem[0], 9);
}

#[test]
fn set_with_memory_destination() {
    // the generic write operation governs set's destination
    let mut machine = setup(vec![1, 5, 99]);
    assert_eq!(machine.exec_next(), Ok(()));
    assert_eq!(machine.mem[5], 99);
    assert_eq!(machine.cur, 3);
}

#[test]
fn add_wraps_at_modulus() {
    let mut machine = setup(vec![9, 0, 32767, 1]);
    assert_eq!(machine.exec_next(), Ok(()));
    assert_eq!(machine.mem[0], 0);
}

#[test]
fn add_of_maximum_register_values() {
    let mut machine = setup(vec![9, 0, 32768, 32769]);
    machine.registers[0] = 65535;
    machine.registers[1] = 65535;
    assert_eq!(machine.exec_next(), Ok(()));
    // (65535 + 65535) mod 32768
    assert_eq!(machine.mem[0] as u32, 131070 % 32768);
    assert!(machine.mem[0] < 32768);
}

#[test]
fn mult_wraps_at_modulus() {
    let mut machine = setup(vec![10, 0, 2000, 100]);
    assert_eq!(machine.exec_next(), Ok(()));
    assert_eq!(machine.mem[0] as u32, 200000 % 32768);
    assert!(machine.mem[0] < 32768);
}

#[test]
fn modulo_by_zero_gives_zero() {
    let mut machine = setup(vec![11, 0, 5, 0]);
    assert_eq!(machine.exec_next(), Ok(()));
    assert_eq!(machine.mem[0], 0);
    assert_eq!(machine.cur, 4);
}

#[test]
fn not_clears_bit_15() {
    let mut machine = setup(vec![14, 0, 32767]);
    assert_eq!(machine.exec_next(), Ok(()));
    assert_eq!(machine.mem[0], 0);
}

#[test]
fn not_twice_is_identity() {
    let mut machine = setup(vec![14, 32768, 5, 14, 32769, 32768]);
    assert_eq!(machine.exec_next(), Ok(()));
    assert_eq!(machine.registers[0], !5 & 0x7fff);
    assert_eq!(machine.exec_next(), Ok(()));
    assert_eq!(machine.registers[1], 5);
}

#[test]
fn push_then_pop_round_trip() {
    let mut machine = setup(vec![2, 77, 3, 32768]);
    assert_eq!(machine.exec_next(), Ok(()));
    assert_eq!(machine.stack.back(), Some(&77));
    assert_eq!(machine.exec_next(), Ok(()));
    // the pushed value lands in pop's destination, the stack is as before
    assert_eq!(machine.registers[0], 77);
    assert!(machine.stack.is_empty());
    assert_eq!(machine.cur, 4);
}

#[test]
fn stack_is_lifo() {
    let mut machine = setup(vec![2, 1, 2, 2, 3, 32768]);
    assert_eq!(machine.exec_next(), Ok(()));
    assert_eq!(machine.exec_next(), Ok(()));
    assert_eq!(machine.exec_next(), Ok(()));
    assert_eq!(machine.registers[0], 2);
    assert_eq!(machine.stack.back(), Some(&1));
}

#[test]
fn pop_on_empty_stack_faults() {
    let mut machine = setup(vec![3, 0]);
    assert_eq!(machine.exec_next(), Err(ExecutionError::EmptyStack(0)));
    assert_eq!(machine.cur, 0);
}

#[test]
fn jump_to_boundary_address() {
    // the jump target is exactly the size of the address space
    let mut machine = setup(vec![6, 32768]);
    assert_eq!(
        machine.exec_next(),
        Err(ExecutionError::InvalidAddress(32768, 1))
    );
}

#[test]
fn branch_target_validated_even_when_not_taken() {
    let mut machine = setup(vec![7, 0, 40000]);
    assert_eq!(
        machine.exec_next(),
        Err(ExecutionError::InvalidAddress(40000, 2))
    );
    let mut machine = setup(vec![8, 1, 40000]);
    assert_eq!(
        machine.exec_next(),
        Err(ExecutionError::InvalidAddress(40000, 2))
    );
}

#[test]
fn call_target_validated() {
    let mut machine = setup(vec![17, 40000]);
    assert_eq!(
        machine.exec_next(),
        Err(ExecutionError::InvalidAddress(40000, 1))
    );
    // the return address was not pushed
    assert!(machine.stack.is_empty());
}

#[test]
fn ret_to_invalid_address() {
    let mut machine = setup(vec![18]);
    machine.stack.push_back(40000);
    assert_eq!(
        machine.exec_next(),
        Err(ExecutionError::InvalidAddress(40000, 1))
    );
}

#[test]
fn out_emits_low_byte() {
    let mut machine = setup(vec![19, 64, 19, 321]);
    assert_eq!(machine.exec_next(), Ok(()));
    assert_eq!(machine.output, vec![64]);
    assert_eq!(machine.exec_next(), Ok(()));
    // 321 mod 256
    assert_eq!(machine.output, vec![64, 65]);
}

#[test]
fn out_through_register() {
    let mut machine = setup(vec![9, 32768, 32769, 4, 19, 32768]);
    machine.registers[1] = 60;
    assert_eq!(machine.exec_next(), Ok(()));
    assert_eq!(machine.exec_next(), Ok(()));
    // the character with code 64 is '@'
    assert_eq!(machine.output, vec![b'@']);
    assert_eq!(machine.cur, 6);
}

#[test]
fn in_reads_queued_byte() {
    let mut machine = setup(vec![20, 32768]);
    machine.input.push_back(b'x');
    assert_eq!(machine.exec_next(), Ok(()));
    assert_eq!(machine.registers[0], b'x' as u16);
    assert_eq!(machine.cur, 2);
    assert!(machine.input.is_empty());
}

#[test]
fn in_on_empty_input_faults() {
    let mut machine = setup(vec![20, 32768]);
    assert_eq!(machine.exec_next(), Err(ExecutionError::EmptyStdin(0)));
    assert_eq!(machine.cur, 0);
}

#[test]
fn opcode_just_past_table_faults() {
    let mut machine = setup(vec![22]);
    assert_eq!(
        machine.exec_next(),
        Err(ExecutionError::InvalidOpcode(22, 0))
    );
}

#[test]
fn truncated_instruction_at_end_of_memory() {
    let mut machine = setup(vec![]);
    machine.mem[32766] = 9;
    machine.cur = 32766;
    assert_eq!(
        machine.exec_next(),
        Err(ExecutionError::InvalidAddress(32768, 32766))
    );
    assert_eq!(machine.cur, 32766);
}

#[test]
fn fetch_past_end_of_memory() {
    let mut machine = setup(vec![]);
    machine.cur = 32768;
    assert_eq!(
        machine.exec_next(),
        Err(ExecutionError::InvalidAddress(32768, 32768))
    );
}

#[test]
fn rmem_through_register_address() {
    let mut machine = setup(vec![15, 0, 32768, 0, 0, 99]);
    machine.registers[0] = 5;
    assert_eq!(machine.exec_next(), Ok(()));
    assert_eq!(machine.mem[0], 99);
    assert_eq!(machine.cur, 3);
}

#[test]
fn wmem_through_register_address() {
    let mut machine = setup(vec![16, 32768, 7]);
    machine.registers[0] = 9;
    assert_eq!(machine.exec_next(), Ok(()));
    assert_eq!(machine.mem[9], 7);
    assert_eq!(machine.cur, 3);
}

#[test]
fn run_reports_halt() {
    let mut machine = setup(vec![19, b'H' as u16, 19, b'i' as u16, 0]);
    assert_eq!(machine.run(), Err(ExecutionError::Halt));
    assert_eq!(machine.output, b"Hi".to_vec());
}

#[test]
fn run_stops_at_step_bound() {
    // a tight loop never halts; run gives up after its step bound
    let mut machine = setup(vec![6, 0]);
    assert_eq!(machine.run(), Ok(()));
    assert_eq!(machine.cur, 0);
}

#[test]
fn run_stops_at_first_fault() {
    let mut machine = setup(vec![21, 3, 0]);
    assert_eq!(machine.run(), Err(ExecutionError::EmptyStack(1)));
    assert_eq!(machine.cur, 1);
}
