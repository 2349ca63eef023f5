use intcode::memory::{ComputerMemory, RangeAddressable};
use intcode::{Computer, Fault, ParameterMode};

#[test]
fn unwritten_addresses_read_as_zero() {
    let memory = ComputerMemory::new();
    assert_eq!(memory.read_range(0..4), vec![0, 0, 0, 0]);
    assert_eq!(memory.read_range(1000..1002), vec![0, 0]);
}

#[test]
fn an_empty_or_reversed_range_reads_nothing() {
    let mut memory = ComputerMemory::new();
    memory.write_range(0..3, vec![1, 2, 3]);
    assert_eq!(memory.read_range(2..2), Vec::<i32>::new());
    assert_eq!(memory.read_range(3..1), Vec::<i32>::new());
}

#[test]
fn write_range_stores_data_by_address() {
    let mut memory = ComputerMemory::new();
    memory.write_range(0..3, vec![7, 8, 9]);
    assert_eq!(memory.read_range(0..5), vec![7, 8, 9, 0, 0]);
    assert_eq!(memory.len(), 3);

    memory.write_range(1..3, vec![40, 41, 42, 43]);
    assert_eq!(memory.read_range(0..5), vec![7, 41, 42, 0, 0]);

    memory.write_range(4..6, vec![0, 0, 0, 0, -4, -5]);
    assert_eq!(memory.read_range(0..6), vec![7, 41, 42, 0, -4, -5]);
    assert_eq!(memory.len(), 5);
}

#[test]
fn an_empty_or_reversed_range_writes_nothing() {
    let mut memory = ComputerMemory::new();
    memory.write_range(0..0, vec![]);
    memory.write_range(5..5, vec![1]);
    memory.write_range(9..2, vec![1, 2]);
    assert_eq!(memory.len(), 0);
}

#[test]
fn read_and_write_memory_go_by_address() {
    let mut computer = Computer::new(vec![10, 20, 30], vec![]);
    assert_eq!(computer.read_memory(1), 20);
    assert_eq!(computer.read_memory(3), 0);
    computer.write_memory(3, -8);
    computer.write_memory(1, 21);
    assert_eq!(computer.memory.read_range(0..5), vec![10, 21, 30, -8, 0]);
    assert_eq!(computer.instruction_pointer, 0);
}

#[test]
fn read_addr_resolves_by_mode_and_consumes_one_word() {
    let mut computer = Computer::new(vec![7, 7, -2, -2], vec![]);
    computer.relative_base = 5;
    assert_eq!(computer.read_addr(&ParameterMode::Position), Ok(7));
    assert_eq!(computer.read_addr(&ParameterMode::Relative), Ok(12));
    assert_eq!(computer.read_addr(&ParameterMode::Relative), Ok(3));
    assert_eq!(computer.instruction_pointer, 3);
    assert_eq!(computer.read_addr(&ParameterMode::Position), Err(Fault::InvalidAddress));
    assert_eq!(computer.instruction_pointer, 4);
    assert_eq!(computer.read_addr(&ParameterMode::Position), Ok(0));
}

#[test]
fn read_addr_yields_no_address_in_immediate_mode() {
    let mut computer = Computer::new(vec![7, 0, -5], vec![]);
    assert_eq!(computer.read_addr(&ParameterMode::Immediate), Err(Fault::InvalidInstruction));
    assert_eq!(computer.read_addr(&ParameterMode::Immediate), Err(Fault::InvalidInstruction));
    assert_eq!(computer.read_addr(&ParameterMode::Immediate), Err(Fault::InvalidInstruction));
    assert_eq!(computer.instruction_pointer, 3);
    assert_eq!(computer.memory.read_range(0..3), vec![7, 0, -5]);
}

#[test]
fn read_addr_faults_below_zero_only() {
    let mut computer = Computer::new(vec![-1, -5, -6], vec![]);
    computer.relative_base = 5;
    assert_eq!(computer.read_addr(&ParameterMode::Position), Err(Fault::InvalidAddress));
    assert_eq!(computer.read_addr(&ParameterMode::Relative), Ok(0));
    assert_eq!(computer.read_addr(&ParameterMode::Relative), Err(Fault::InvalidAddress));
}

#[test]
fn read_value_resolves_by_mode_and_consumes_one_word() {
    let mut computer = Computer::new(vec![3, 3, 1, 40, -1, -9], vec![]);
    computer.relative_base = 2;
    assert_eq!(computer.read_value(&ParameterMode::Position), Ok(40));
    assert_eq!(computer.read_value(&ParameterMode::Immediate), Ok(3));
    assert_eq!(computer.read_value(&ParameterMode::Relative), Ok(40));
    assert_eq!(computer.instruction_pointer, 3);
    assert_eq!(computer.read_value(&ParameterMode::Position), Ok(0));
    assert_eq!(computer.read_value(&ParameterMode::Position), Err(Fault::InvalidAddress));
    assert_eq!(computer.read_value(&ParameterMode::Immediate), Ok(-9));
    assert_eq!(computer.read_value(&ParameterMode::Relative), Ok(1));
    assert_eq!(computer.instruction_pointer, 7);
}

#[test]
fn the_relative_base_wraps_at_the_machine_word() {
    let mut computer = Computer::new(vec![109, 1, 99], vec![]);
    computer.relative_base = isize::MAX;
    assert_eq!(computer.run(), Ok(()));
    assert_eq!(computer.relative_base, isize::MIN);
}

#[test]
fn a_relative_address_may_pass_the_largest_word() {
    let mut computer = Computer::new(vec![109, 2147483647, 21101, 40, 2, 2147483647, 99], vec![]);
    assert_eq!(computer.run(), Ok(()));
    assert_eq!(computer.read_memory(4294967294), 42);
}
