use crate::fault::Fault;
use crate::instruction::{decode, InstructionView, ParameterMode};
use crate::memory::word_at;
use crate::opcode::OpCode;
use vstd::prelude::*;

verus! {

/// The mathematical state of a machine between two instructions.
#[verifier::ext_equal]
pub struct MachineState {
    /// The cells that were written; every other address reads as zero.
    pub memory: Map<usize, i32>,
    /// The address of the next word to fetch.
    pub instruction_pointer: int,
    /// The register that relative-mode offsets are added to.
    pub relative_base: isize,
    /// The input words not yet consumed, next one first.
    pub input: Seq<i32>,
    /// The words emitted so far, oldest first.
    pub output: Seq<i32>,
}

/// What executing one instruction does to a machine.
#[verifier::ext_equal]
pub enum Transition {
    /// The instruction was a halt: the run is over and the state stays.
    Halt,
    /// The instruction faulted: the run is aborted and the state stays.
    Fault(Fault),
    /// The instruction completed and left the machine in this state.
    Next(MachineState),
}

/// How a run ended, and the state it ended in.
#[verifier::ext_equal]
pub struct Outcome {
    /// `Ok` where the run reached a halt, else the fault that aborted it.
    pub result: Result<(), Fault>,
    /// The state before the halting or faulting instruction.
    pub state: MachineState,
}

impl MachineState {
    /// The state of a fresh machine: `program` loaded from address zero on,
    /// both registers zero, `input` waiting and nothing emitted.
    pub open spec fn initial(program: Seq<i32>, input: Seq<i32>) -> MachineState {
        MachineState {
            memory: Map::new(
                |addr: usize| addr < program.len(),
                |addr: usize| program[addr as int],
            ),
            instruction_pointer: 0,
            relative_base: 0,
            input,
            output: Seq::empty(),
        }
    }

    /// The word at `addr`.
    pub open spec fn word(self, addr: int) -> i32 {
        word_at(self.memory, addr)
    }

    /// The word at the instruction pointer.
    pub open spec fn next_word(self) -> i32 {
        self.word(self.instruction_pointer)
    }

    /// The state with the instruction pointer moved to `target`.
    pub open spec fn at(self, target: int) -> MachineState {
        MachineState { instruction_pointer: target, ..self }
    }

    /// The state with the instruction pointer moved past one word.
    pub open spec fn advance(self) -> MachineState {
        self.at(self.instruction_pointer + 1)
    }

    /// The state with `value` written to `addr`.
    pub open spec fn store(self, addr: usize, value: i32) -> MachineState {
        MachineState { memory: self.memory.insert(addr, value), ..self }
    }

    /// The address that the word at the instruction pointer denotes under
    /// `mode`: the word itself in position mode, the word added to the relative
    /// base in relative mode. Immediate mode denotes no address.
    pub open spec fn address(self, mode: ParameterMode) -> Option<int> {
        match mode {
            ParameterMode::Position => Some(self.next_word() as int),
            ParameterMode::Relative => Some(self.relative_base + self.next_word()),
            ParameterMode::Immediate => None,
        }
    }

    /// The parameter at the instruction pointer resolved as an address. An
    /// immediate-mode parameter in address position makes the instruction
    /// invalid; a negative address is an invalid address.
    pub open spec fn address_operand(self, mode: ParameterMode) -> Result<usize, Fault> {
        match self.address(mode) {
            None => Err(Fault::InvalidInstruction),
            Some(address) => if address < 0 {
                Err(Fault::InvalidAddress)
            } else {
                Ok(address as usize)
            },
        }
    }

    /// The parameter at the instruction pointer resolved as a value: the word
    /// itself in immediate mode, else the word stored at its address.
    pub open spec fn value_operand(self, mode: ParameterMode) -> Result<i32, Fault> {
        match mode {
            ParameterMode::Immediate => Ok(self.next_word()),
            _ => match self.address_operand(mode) {
                Ok(addr) => Ok(self.word(addr as int)),
                Err(fault) => Err(fault),
            },
        }
    }

    /// The two value operands that start at the instruction pointer, or the
    /// fault of the first of them that faults.
    pub open spec fn value_pair(self, modes: Seq<ParameterMode>) -> Result<(i32, i32), Fault> {
        match self.value_operand(modes[0]) {
            Err(fault) => Err(fault),
            Ok(first) => match self.advance().value_operand(modes[1]) {
                Err(fault) => Err(fault),
                Ok(second) => Ok((first, second)),
            },
        }
    }

    /// The two value operands and the destination address that start at the
    /// instruction pointer, or the fault of the first of the three that faults.
    pub open spec fn value_pair_and_target(self, modes: Seq<ParameterMode>) -> Result<
        (i32, i32, usize),
        Fault,
    > {
        match self.value_pair(modes) {
            Err(fault) => Err(fault),
            Ok((first, second)) => match self.advance().advance().address_operand(modes[2]) {
                Err(fault) => Err(fault),
                Ok(target) => Ok((first, second, target)),
            },
        }
    }

    /// The effect of `instruction` on a state whose instruction pointer stands
    /// at the instruction's first parameter. Parameters are resolved left to
    /// right, one word each, before the operation acts; the first one that
    /// faults decides. A destination is always resolved as an address, so an
    /// instruction that puts its destination in immediate mode faults there.
    /// Sums and products wrap to 32 bits, the relative base wraps to the
    /// machine's word.
    pub open spec fn execute(self, instruction: InstructionView) -> Transition {
        let modes = instruction.parameter_modes;
        let second = self.advance();
        let third = second.advance();
        let fourth = third.advance();
        match instruction.op_code {
            OpCode::Add => match self.value_pair_and_target(modes) {
                Ok((left, right, target)) => Transition::Next(
                    fourth.store(target, left.wrapping_add(right)),
                ),
                Err(fault) => Transition::Fault(fault),
            },
            OpCode::Mul => match self.value_pair_and_target(modes) {
                Ok((left, right, target)) => Transition::Next(
                    fourth.store(target, left.wrapping_mul(right)),
                ),
                Err(fault) => Transition::Fault(fault),
            },
            OpCode::Input => match self.address_operand(modes[0]) {
                Ok(target) => if self.input.len() == 0 {
                    Transition::Fault(Fault::InputExhausted)
                } else {
                    Transition::Next(
                        MachineState {
                            input: self.input.subrange(1, self.input.len() as int),
                            ..second.store(target, self.input[0])
                        },
                    )
                },
                Err(fault) => Transition::Fault(fault),
            },
            OpCode::Output => match self.value_operand(modes[0]) {
                Ok(value) => Transition::Next(
                    MachineState { output: self.output.push(value), ..second },
                ),
                Err(fault) => Transition::Fault(fault),
            },
            OpCode::JumpIfNotZero => match self.value_pair(modes) {
                Ok((test, target)) => Transition::Next(
                    if test != 0 {
                        third.at(target as int)
                    } else {
                        third
                    },
                ),
                Err(fault) => Transition::Fault(fault),
            },
            OpCode::JumpIfZero => match self.value_pair(modes) {
                Ok((test, target)) => Transition::Next(
                    if test == 0 {
                        third.at(target as int)
                    } else {
                        third
                    },
                ),
                Err(fault) => Transition::Fault(fault),
            },
            OpCode::StoreIfLessThan => match self.value_pair_and_target(modes) {
                Ok((left, right, target)) => Transition::Next(
                    fourth.store(
                        target,
                        if left < right {
                            1
                        } else {
                            0
                        },
                    ),
                ),
                Err(fault) => Transition::Fault(fault),
            },
            OpCode::StoreIfEquals => match self.value_pair_and_target(modes) {
                Ok((left, right, target)) => Transition::Next(
                    fourth.store(
                        target,
                        if left == right {
                            1
                        } else {
                            0
                        },
                    ),
                ),
                Err(fault) => Transition::Fault(fault),
            },
            OpCode::IncrementRelativeBase => match self.value_operand(modes[0]) {
                Ok(offset) => Transition::Next(
                    MachineState {
                        relative_base: self.relative_base.wrapping_add(offset as isize),
                        ..second
                    },
                ),
                Err(fault) => Transition::Fault(fault),
            },
            OpCode::Halt => Transition::Halt,
        }
    }

    /// One fetch-decode-execute cycle: the word at the instruction pointer is
    /// decoded; a word that encodes nothing is a fault, a halt ends the run,
    /// and any other instruction is executed on its parameters, which follow
    /// the operation word.
    pub open spec fn step(self) -> Transition {
        match decode(self.next_word()) {
            None => Transition::Fault(Fault::InvalidInstruction),
            Some(instruction) => if instruction.op_code == OpCode::Halt {
                Transition::Halt
            } else {
                self.advance().execute(instruction)
            },
        }
    }

    /// The state after `steps` completed instructions, or `None` where the run
    /// halts or faults before that.
    pub open spec fn state_after(self, steps: nat) -> Option<MachineState>
        decreases steps,
    {
        if steps == 0 {
            Some(self)
        } else {
            match self.step() {
                Transition::Next(next) => next.state_after((steps - 1) as nat),
                _ => None,
            }
        }
    }

    /// How the run from this state ends if it ends within `fuel` completed
    /// instructions, and `None` if it does not.
    pub open spec fn run_with(self, fuel: nat) -> Option<Outcome>
        decreases fuel,
    {
        match self.step() {
            Transition::Halt => Some(Outcome { result: Ok(()), state: self }),
            Transition::Fault(fault) => Some(Outcome { result: Err(fault), state: self }),
            Transition::Next(next) => if fuel == 0 {
                None
            } else {
                next.run_with((fuel - 1) as nat)
            },
        }
    }

    /// The run from this state reaches a halt or a fault.
    pub open spec fn terminates(self) -> bool {
        exists|fuel: nat| (#[trigger] self.run_with(fuel)) is Some
    }

    /// How the run from this state ends. It is meaningful where the run
    /// [`terminates`](Self::terminates).
    pub open spec fn outcome(self) -> Outcome {
        self.run_with(choose|fuel: nat| (#[trigger] self.run_with(fuel)) is Some).unwrap()
    }
}

/// More fuel does not change how a run ends: if it ends within `fuel`
/// instructions, it ends the same way within any other sufficient number.
pub proof fn lemma_run_with_agrees(state: MachineState, fuel: nat, other: nat)
    requires
        state.run_with(fuel) is Some,
        state.run_with(other) is Some,
    ensures
        state.run_with(fuel) == state.run_with(other),
    decreases fuel,
{
    if let Transition::Next(next) = state.step() {
        lemma_run_with_agrees(next, (fuel - 1) as nat, (other - 1) as nat);
    }
}

/// A run that ends within `fuel` instructions terminates, and its outcome is
/// the one found with that fuel.
pub proof fn lemma_outcome(state: MachineState, fuel: nat)
    requires
        state.run_with(fuel) is Some,
    ensures
        state.terminates(),
        state.outcome() == state.run_with(fuel).unwrap(),
{
    let chosen = choose|fuel: nat| (#[trigger] state.run_with(fuel)) is Some;
    lemma_run_with_agrees(state, fuel, chosen);
}

/// A run that reaches `state` after `steps` completed instructions ends as the
/// run from `state` ends.
pub proof fn lemma_run_through(start: MachineState, steps: nat, state: MachineState, fuel: nat)
    requires
        start.state_after(steps) == Some(state),
        state.run_with(fuel) is Some,
    ensures
        start.run_with(steps + fuel) == state.run_with(fuel),
        start.terminates(),
        start.outcome() == state.run_with(fuel).unwrap(),
    decreases steps,
{
    if steps > 0 {
        let next = start.step()->Next_0;
        lemma_run_through(next, (steps - 1) as nat, state, fuel);
        assert(start.run_with(steps + fuel) == next.run_with((steps + fuel - 1) as nat));
    }
    lemma_outcome(start, steps + fuel);
}

/// A program that consists of halt words only, run on any input, halts at
/// once: it emits nothing and leaves the memory as it was loaded.
pub proof fn halt_program_changes_nothing(program: Seq<i32>, input: Seq<i32>)
    requires
        program.len() > 0,
        forall|addr: int| 0 <= addr < program.len() ==> program[addr] == 99,
    ensures
        MachineState::initial(program, input).terminates(),
        MachineState::initial(program, input).outcome() == (Outcome {
            result: Ok(()),
            state: MachineState::initial(program, input),
        }),
        MachineState::initial(program, input).outcome().state.output == Seq::<i32>::empty(),
        MachineState::initial(program, input).outcome().state.memory == MachineState::initial(
            program,
            input,
        ).memory,
{
    let state = MachineState::initial(program, input);
    assert(state.next_word() == program[0]);
    assert(decode(99).unwrap().op_code == OpCode::Halt);
    assert(state.step() == Transition::Halt);
    lemma_outcome(state, 0);
}

/// Immediate mode is for values only. Resolved as an address it yields none,
/// whatever the word, and an instruction that puts its destination in
/// immediate mode never completes: it is an invalid instruction, unless an
/// operand before the destination has faulted with an invalid address, and
/// either way nothing is stored.
pub proof fn immediate_destination_stores_nothing(
    state: MachineState,
    instruction: InstructionView,
)
    requires
        instruction.well_formed(),
        instruction.op_code.destination() matches Some(index)
            && instruction.parameter_modes[index] == ParameterMode::Immediate,
    ensures
        state.address_operand(ParameterMode::Immediate) == Err::<usize, Fault>(
            Fault::InvalidInstruction,
        ),
        state.execute(instruction) == Transition::Fault(Fault::InvalidInstruction)
            || state.execute(instruction) == Transition::Fault(Fault::InvalidAddress),
{
}

/// The state stands at an input instruction whose target address resolves.
pub open spec fn awaits_input(state: MachineState) -> bool {
    &&& decode(state.next_word()) matches Some(instruction)
    &&& instruction.op_code == OpCode::Input
    &&& state.advance().address_operand(instruction.parameter_modes[0]) is Ok
}

/// An input instruction that finds the queue empty faults, whenever in a run
/// it is reached: the run from `start` ends there with the input-exhausted
/// fault, and nothing is written in place of the missing word.
pub proof fn input_on_empty_queue_faults(start: MachineState, steps: nat, state: MachineState)
    requires
        start.state_after(steps) == Some(state),
        awaits_input(state),
        state.input.len() == 0,
    ensures
        state.step() == Transition::Fault(Fault::InputExhausted),
        start.terminates(),
        start.outcome() == (Outcome { result: Err(Fault::InputExhausted), state }),
{
    assert(state.step() == Transition::Fault(Fault::InputExhausted));
    lemma_run_through(start, steps, state, 0);
}

/// An instruction only ever appends to the output log and only ever consumes
/// the input queue from its front.
pub proof fn step_keeps_the_logs(state: MachineState)
    ensures
        state.step() matches Transition::Next(next) ==> {
            &&& state.output.is_prefix_of(next.output)
            &&& next.input.is_suffix_of(state.input)
        },
{
}

/// Over a whole run the output log is append-only and the input queue is
/// consumed front to back: what was emitted before the run is the start of the
/// final output, and what is left of the input is the end of what was there.
pub proof fn run_keeps_the_logs(start: MachineState, fuel: nat)
    requires
        start.run_with(fuel) is Some,
    ensures
        start.output.is_prefix_of(start.outcome().state.output),
        start.outcome().state.input.is_suffix_of(start.input),
    decreases fuel,
{
    lemma_outcome(start, fuel);
    if let Transition::Next(next) = start.step() {
        step_keeps_the_logs(start);
        run_keeps_the_logs(next, (fuel - 1) as nat);
        lemma_outcome(next, (fuel - 1) as nat);
    }
}

} // verus!
