use crate::fault::Fault;
use crate::instruction::{Instruction, ParameterMode};
use crate::machine::{lemma_outcome, MachineState, Transition};
use crate::memory::{ComputerMemory, RangeAddressable};
use crate::opcode::OpCode;
use std::collections::VecDeque;
use vstd::prelude::*;

verus! {

/// The execution engine: it owns the memory, the two registers, the input
/// queue and the output log of one run.
///
/// Every value of the type is a valid machine, so all of it is open to
/// inspection; its mathematical value is the [`MachineState`] of its view.
pub struct Computer {
    /// The machine's memory.
    pub memory: ComputerMemory,
    /// The address of the next word to fetch. It is wider than an address so
    /// that it can pass the last address and hold a negative jump target; a
    /// pointer outside the memory reads zero.
    pub instruction_pointer: i128,
    /// The register that relative-mode offsets are added to.
    pub relative_base: isize,
    /// The input words not yet consumed, next one first.
    pub input: VecDeque<i32>,
    /// The words emitted so far, oldest first.
    pub output: Vec<i32>,
}

impl View for Computer {
    type V = MachineState;

    open spec fn view(&self) -> MachineState {
        MachineState {
            memory: self.memory@,
            instruction_pointer: self.instruction_pointer as int,
            relative_base: self.relative_base,
            input: self.input@,
            output: self.output@,
        }
    }
}

impl Computer {
    /// A fresh machine with `initial_memory` loaded from address zero on and
    /// `input` as its input queue.
    pub fn new(initial_memory: Vec<i32>, input: Vec<i32>) -> (computer: Computer)
        ensures
            computer@ == MachineState::initial(initial_memory@, input@),
    {
        let ghost program = initial_memory@;
        let mut memory = ComputerMemory::new();
        let length = initial_memory.len();
        memory.write_range(0..length, initial_memory);
        assert(memory@ =~= MachineState::initial(program, input@).memory);

        let mut queue: VecDeque<i32> = VecDeque::new();
        for index in 0..input.len()
            invariant
                queue@ == input@.take(index as int),
        {
            queue.push_back(input[index]);
            assert(input@.take(index as int).push(input@[index as int]) =~= input@.take(
                index + 1,
            ));
        }
        assert(input@.take(input@.len() as int) =~= input@);

        Computer {
            memory,
            instruction_pointer: 0,
            relative_base: 0,
            input: queue,
            output: Vec::new(),
        }
    }

    /// The word at `addr`: zero where nothing was written.
    pub fn read_memory(&self, addr: usize) -> (word: i32)
        ensures
            word == self@.word(addr as int),
    {
        match self.memory.get(&addr) {
            Some(word) => *word,
            None => 0,
        }
    }

    /// Writes `value` to `addr`.
    pub fn write_memory(&mut self, addr: usize, value: i32)
        ensures
            final(self)@ == old(self)@.store(addr, value),
    {
        self.memory.insert(addr, value);
    }

    /// The word at the instruction pointer. A pointer that is no address of
    /// the memory, as after a jump to a negative target, reads zero.
    fn next_word(&self) -> (word: i32)
        ensures
            word == self@.next_word(),
    {
        if 0 <= self.instruction_pointer && self.instruction_pointer <= usize::MAX as i128 {
            self.read_memory(self.instruction_pointer as usize)
        } else {
            0
        }
    }

    /// Consumes the word at the instruction pointer and resolves it as an
    /// address under `mode`. Immediate mode yields no address: it is legal for
    /// values only, and in address position the instruction is invalid.
    pub fn read_addr(&mut self, mode: &ParameterMode) -> (addr: Result<usize, Fault>)
        requires
            old(self)@.instruction_pointer < i128::MAX,
        ensures
            final(self)@ == old(self)@.advance(),
            addr == old(self)@.address_operand(*mode),
    {
        let value = self.next_word();
        self.instruction_pointer += 1;

        let addr: i128 = match mode {
            ParameterMode::Position => value as i128,
            ParameterMode::Relative => self.relative_base as i128 + value as i128,
            ParameterMode::Immediate => {
                return Err(Fault::InvalidInstruction);
            },
        };

        if addr < 0 {
            return Err(Fault::InvalidAddress);
        }
        Ok(addr as usize)
    }

    /// Consumes the word at the instruction pointer and resolves it as a value
    /// under `mode`.
    pub fn read_value(&mut self, mode: &ParameterMode) -> (value: Result<i32, Fault>)
        requires
            old(self)@.instruction_pointer < i128::MAX,
        ensures
            final(self)@ == old(self)@.advance(),
            value == old(self)@.value_operand(*mode),
    {
        match mode {
            ParameterMode::Immediate => {
                let value = self.next_word();
                self.instruction_pointer += 1;
                Ok(value)
            },
            _ => {
                match self.read_addr(mode) {
                    Ok(addr) => Ok(self.read_memory(addr)),
                    Err(fault) => Err(fault),
                }
            },
        }
    }

    /// Consumes two words and resolves them as values under the first two
    /// of `modes`; where one faults, the first fault is returned.
    fn read_value_pair(&mut self, modes: &Vec<ParameterMode>) -> (values: Result<
        (i32, i32),
        Fault,
    >)
        requires
            modes@.len() >= 2,
            old(self)@.instruction_pointer + 2 <= i128::MAX,
        ensures
            final(self)@ == old(self)@.advance().advance(),
            values == old(self)@.value_pair(modes@),
    {
        let first = self.read_value(&modes[0]);
        let second = self.read_value(&modes[1]);
        match (first, second) {
            (Ok(first), Ok(second)) => Ok((first, second)),
            (Err(fault), _) => Err(fault),
            (_, Err(fault)) => Err(fault),
        }
    }

    /// Consumes three words and resolves them as two values and a destination
    /// address under the first three of `modes`; where one faults, the first
    /// fault is returned.
    fn read_value_pair_and_target(&mut self, modes: &Vec<ParameterMode>) -> (operands: Result<
        (i32, i32, usize),
        Fault,
    >)
        requires
            modes@.len() >= 3,
            old(self)@.instruction_pointer + 3 <= i128::MAX,
        ensures
            final(self)@ == old(self)@.advance().advance().advance(),
            operands == old(self)@.value_pair_and_target(modes@),
    {
        let values = self.read_value_pair(modes);
        let target = self.read_addr(&modes[2]);
        match (values, target) {
            (Ok((first, second)), Ok(target)) => Ok((first, second, target)),
            (Err(fault), _) => Err(fault),
            (_, Err(fault)) => Err(fault),
        }
    }

    /// Resolves the parameters of `instruction`, which start at the instruction
    /// pointer, and performs its operation. After a fault only the instruction
    /// pointer has moved.
    fn execute(&mut self, instruction: &Instruction) -> (executed: Result<(), Fault>)
        requires
            instruction@.well_formed(),
            instruction.op_code != OpCode::Halt,
            old(self)@.instruction_pointer + 3 <= i128::MAX,
        ensures
            match old(self)@.execute(instruction@) {
                Transition::Next(next) => executed == Ok::<(), Fault>(()) && final(self)@
                    == next,
                Transition::Fault(fault) => executed == Err::<(), Fault>(fault)
                    && final(self)@.at(old(self)@.instruction_pointer) == old(self)@,
                Transition::Halt => false,
            },
    {
        let modes = &instruction.parameter_modes;
        match instruction.op_code {
            OpCode::Add => {
                match self.read_value_pair_and_target(modes) {
                    Ok((arg1, arg2, addr)) => {
                        self.write_memory(addr, arg1.wrapping_add(arg2));
                        Ok(())
                    },
                    Err(fault) => Err(fault),
                }
            },
            OpCode::Mul => {
                match self.read_value_pair_and_target(modes) {
                    Ok((arg1, arg2, addr)) => {
                        self.write_memory(addr, arg1.wrapping_mul(arg2));
                        Ok(())
                    },
                    Err(fault) => Err(fault),
                }
            },
            OpCode::Input => {
                match self.read_addr(&modes[0]) {
                    Ok(addr) => match self.input.pop_front() {
                        Some(input) => {
                            self.write_memory(addr, input);
                            Ok(())
                        },
                        None => Err(Fault::InputExhausted),
                    },
                    Err(fault) => Err(fault),
                }
            },
            OpCode::Output => {
                match self.read_value(&modes[0]) {
                    Ok(value) => {
                        self.output.push(value);
                        Ok(())
                    },
                    Err(fault) => Err(fault),
                }
            },
            OpCode::JumpIfZero => {
                match self.read_value_pair(modes) {
                    Ok((test, addr)) => {
                        if test == 0 {
                            self.instruction_pointer = addr as i128;
                        }
                        Ok(())
                    },
                    Err(fault) => Err(fault),
                }
            },
            OpCode::JumpIfNotZero => {
                match self.read_value_pair(modes) {
                    Ok((test, addr)) => {
                        if test != 0 {
                            self.instruction_pointer = addr as i128;
                        }
                        Ok(())
                    },
                    Err(fault) => Err(fault),
                }
            },
            OpCode::StoreIfLessThan => {
                match self.read_value_pair_and_target(modes) {
                    Ok((arg1, arg2, addr)) => {
                        self.write_memory(addr, if arg1 < arg2 { 1 } else { 0 });
                        Ok(())
                    },
                    Err(fault) => Err(fault),
                }
            },
            OpCode::StoreIfEquals => {
                match self.read_value_pair_and_target(modes) {
                    Ok((arg1, arg2, addr)) => {
                        self.write_memory(addr, if arg1 == arg2 { 1 } else { 0 });
                        Ok(())
                    },
                    Err(fault) => Err(fault),
                }
            },
            OpCode::IncrementRelativeBase => {
                match self.read_value(&modes[0]) {
                    Ok(offset) => {
                        self.relative_base = self.relative_base.wrapping_add(offset as isize);
                        Ok(())
                    },
                    Err(fault) => Err(fault),
                }
            },
            OpCode::Halt => unreached(),
        }
    }

    /// Executes one instruction. Returns `Ok(true)` where it was a halt,
    /// `Ok(false)` where it completed, and the fault where it faulted; after a
    /// halt or a fault the machine is as it was before the call.
    pub fn step_forward(&mut self) -> (halted: Result<bool, Fault>)
        ensures
            match old(self)@.step() {
                Transition::Halt => halted == Ok::<bool, Fault>(true) && final(self)@ == old(
                    self,
                )@,
                Transition::Fault(fault) => halted == Err::<bool, Fault>(fault) && final(self)@
                    == old(self)@,
                Transition::Next(next) => halted == Ok::<bool, Fault>(false) && final(self)@
                    == next,
            },
    {
        let start = self.instruction_pointer;
        let instruction = match Instruction::try_from(self.next_word()) {
            Ok(instruction) => instruction,
            Err(fault) => {
                return Err(fault);
            },
        };

        if let OpCode::Halt = instruction.op_code {
            return Ok(true);
        }
        // Only a written cell holds a word that decodes, so the pointer is an
        // address and can pass the instruction's parameters without overflow.
        assert(0 <= start <= usize::MAX);
        assert(instruction@.well_formed());
        self.instruction_pointer += 1;
        assert(old(self)@.step() == self@.execute(instruction@));

        let executed = self.execute(&instruction);

        match executed {
            Ok(()) => Ok(false),
            Err(fault) => {
                self.instruction_pointer = start;
                Err(fault)
            },
        }
    }

    /// Runs the machine until it halts or faults. After a halt the instruction
    /// pointer stands at the halt; after a fault the machine is as it was
    /// before the faulting instruction.
    ///
    /// A run that never reaches a halt or a fault does not return, so the
    /// contract speaks of the runs that do.
    pub fn run(&mut self) -> (result: Result<(), Fault>)
        requires
            old(self)@.terminates(),
        ensures
            result == old(self)@.outcome().result,
            final(self)@ == old(self)@.outcome().state,
    {
        let ghost mut fuel: nat = choose|fuel: nat|
            (#[trigger] old(self)@.run_with(fuel)) is Some;
        proof {
            lemma_outcome(old(self)@, fuel);
        }
        loop
            invariant
                self@.run_with(fuel) is Some,
                self@.run_with(fuel).unwrap() == old(self)@.outcome(),
            decreases fuel,
        {
            match self.step_forward() {
                Ok(should_halt) => {
                    if should_halt {
                        return Ok(());
                    }
                },
                Err(fault) => {
                    return Err(fault);
                },
            }
            proof {
                fuel = (fuel - 1) as nat;
            }
        }
    }
}

/// Builds a machine for `program` and `input`, runs it to its halt and hands
/// it back for inspection. It is for programs that halt; a caller that must
/// deal with a fault builds the machine and calls [`Computer::run`] itself.
pub fn run_program(program: Vec<i32>, input: Vec<i32>) -> (computer: Computer)
    requires
        MachineState::initial(program@, input@).terminates(),
        MachineState::initial(program@, input@).outcome().result is Ok,
    ensures
        computer@ == MachineState::initial(program@, input@).outcome().state,
{
    let mut computer = Computer::new(program, input);
    match computer.run() {
        Ok(()) => computer,
        Err(_) => unreached(),
    }
}

} // verus!
