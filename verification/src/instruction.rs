use crate::fault::Fault;
use crate::opcode::OpCode;
use vstd::arithmetic::power::pow;
use vstd::prelude::*;
use vstd::string::StringExecFns;

verus! {

/// How a parameter word is turned into an operand.
#[derive(Debug, Clone, Copy, PartialEq, Eq, Structural)]
pub enum ParameterMode {
    /// The word is the address of the operand.
    Position,
    /// The word is the operand. This is legal for a value only: a parameter
    /// that names a destination has no address in this mode.
    Immediate,
    /// The word is an offset from the relative base to the operand's address.
    Relative,
}

impl ParameterMode {
    /// The mode selected by a mode digit, if there is one.
    pub open spec fn from_digit(digit: int) -> Option<ParameterMode> {
        if digit == 0 {
            Some(ParameterMode::Position)
        } else if digit == 1 {
            Some(ParameterMode::Immediate)
        } else if digit == 2 {
            Some(ParameterMode::Relative)
        } else {
            None
        }
    }

    /// The symbol under which the mode is printed.
    pub open spec fn symbol(self) -> Seq<char> {
        match self {
            ParameterMode::Position => "ARG"@,
            ParameterMode::Immediate => "#"@,
            ParameterMode::Relative => "@"@,
        }
    }

    /// The mode's symbol as an owned string.
    pub fn to_string(&self) -> (text: String)
        ensures
            text@ == self.symbol(),
    {
        match self {
            ParameterMode::Position => String::from_str("ARG"),
            ParameterMode::Immediate => String::from_str("#"),
            ParameterMode::Relative => String::from_str("@"),
        }
    }
}

/// A decoded operation word: the operation and one addressing mode for each
/// parameter the operation consumes, in parameter order.
#[derive(Debug, PartialEq, Eq)]
pub struct Instruction {
    /// The operation.
    pub op_code: OpCode,
    /// The addressing mode of each parameter, first parameter first.
    pub parameter_modes: Vec<ParameterMode>,
}

/// The mathematical value of an [`Instruction`].
#[verifier::ext_equal]
pub struct InstructionView {
    /// The operation.
    pub op_code: OpCode,
    /// The addressing mode of each parameter, first parameter first.
    pub parameter_modes: Seq<ParameterMode>,
}

impl View for Instruction {
    type V = InstructionView;

    open spec fn view(&self) -> InstructionView {
        InstructionView { op_code: self.op_code, parameter_modes: self.parameter_modes@ }
    }
}

impl InstructionView {
    /// An instruction carries exactly one mode per parameter of its operation.
    pub open spec fn well_formed(self) -> bool {
        self.parameter_modes.len() == self.op_code.arity()
    }

    /// The printed form: the mnemonic, then a space and a symbol per parameter.
    pub open spec fn text(self) -> Seq<char> {
        self.op_code.mnemonic() + modes_text(self.parameter_modes)
    }
}

/// The printed form of a list of modes: each symbol preceded by a space.
pub open spec fn modes_text(modes: Seq<ParameterMode>) -> Seq<char>
    decreases modes.len(),
{
    if modes.len() == 0 {
        Seq::empty()
    } else {
        modes_text(modes.drop_last()) + " "@ + modes.last().symbol()
    }
}

/// The operation a word selects. Its two lowest decimal digits name one of the
/// nine working operations; halting is selected by the word 99 alone, and no
/// negative word selects anything.
pub open spec fn operation_of(value: int) -> Option<OpCode> {
    if value == 99 {
        Some(OpCode::Halt)
    } else if value >= 0 && 1 <= value % 100 <= 9 {
        OpCode::from_code(value % 100)
    } else {
        None
    }
}

/// The mode digit of the parameter at `index` (counted from zero): the decimal
/// digit of `value` at place `index + 2`.
pub open spec fn mode_digit(value: int, index: nat) -> int {
    (value / pow(10, index + 2)) % 10
}

/// The instruction a word encodes, or `None` where it encodes none: where it
/// selects no operation, or where the mode digit of one of the operation's
/// parameters is not 0, 1 or 2. Digits above the last parameter's are ignored.
/// Each of the three modes is accepted at every parameter; that a destination
/// has no address in immediate mode shows when the parameter is resolved.
pub open spec fn decode(value: i32) -> Option<InstructionView> {
    match operation_of(value as int) {
        None => None,
        Some(op_code) => {
            if forall|index: nat|
                index < op_code.arity() ==> (#[trigger] ParameterMode::from_digit(
                    mode_digit(value as int, index),
                )) is Some {
                Some(
                    InstructionView {
                        op_code,
                        parameter_modes: Seq::new(
                            op_code.arity(),
                            |index: int|
                                ParameterMode::from_digit(
                                    mode_digit(value as int, index as nat),
                                ).unwrap(),
                        ),
                    },
                )
            } else {
                None
            }
        },
    }
}

/// What the decoder owes for `value`: the encoded instruction where there is
/// one, and the invalid-instruction fault where there is none.
pub open spec fn decodes_to(value: i32, decoded: Result<Instruction, Fault>) -> bool {
    match decode(value) {
        Some(instruction) => decoded is Ok && decoded.unwrap()@ == instruction,
        None => decoded == Err::<Instruction, Fault>(Fault::InvalidInstruction),
    }
}

/// The mode digits of the three parameters an operation can have are the
/// hundreds, thousands and ten-thousands digits of the word.
pub proof fn lemma_mode_digits(value: int)
    ensures
        mode_digit(value, 0) == (value / 100) % 10,
        mode_digit(value, 1) == (value / 1000) % 10,
        mode_digit(value, 2) == (value / 10000) % 10,
{
    reveal_with_fuel(pow, 5);
}

impl Instruction {
    /// Decodes one word fetched from memory.
    pub fn try_from(value: i32) -> (decoded: Result<Instruction, Fault>)
        ensures
            decodes_to(value, decoded),
            decoded is Ok ==> decoded.unwrap()@.well_formed(),
    {
        if value < 0 {
            return Err(Fault::InvalidInstruction);
        }
        let numeric_op_code: i32 = value % 100;
        if numeric_op_code > 9 && value != 99 {
            return Err(Fault::InvalidInstruction);
        }
        let op_code = match numeric_op_code {
            1 => OpCode::Add,
            2 => OpCode::Mul,
            3 => OpCode::Input,
            4 => OpCode::Output,
            5 => OpCode::JumpIfNotZero,
            6 => OpCode::JumpIfZero,
            7 => OpCode::StoreIfLessThan,
            8 => OpCode::StoreIfEquals,
            9 => OpCode::IncrementRelativeBase,
            99 => OpCode::Halt,
            _ => {
                return Err(Fault::InvalidInstruction);
            },
        };

        let mut parameter_modes: Vec<ParameterMode> = Vec::new();
        let parameter_count: usize = match op_code {
            OpCode::Add | OpCode::Mul | OpCode::StoreIfLessThan | OpCode::StoreIfEquals => 3,
            OpCode::JumpIfNotZero | OpCode::JumpIfZero => 2,
            OpCode::Input | OpCode::Output | OpCode::IncrementRelativeBase => 1,
            OpCode::Halt => 0,
        };

        let mut place: i32 = 100;
        for param in 0..parameter_count
            invariant
                value >= 0,
                operation_of(value as int) == Some(op_code),
                parameter_count == op_code.arity(),
                param == 0 ==> place == 100,
                param == 1 ==> place == 1000,
                param == 2 ==> place == 10000,
                parameter_modes@.len() == param,
                forall|index: nat|
                    index < param ==> (#[trigger] ParameterMode::from_digit(
                        mode_digit(value as int, index),
                    )) == Some(parameter_modes@[index as int]),
        {
            proof {
                lemma_mode_digits(value as int);
            }
            let mode = match value / place % 10 {
                0 => ParameterMode::Position,
                1 => ParameterMode::Immediate,
                2 => ParameterMode::Relative,
                _ => {
                    assert(ParameterMode::from_digit(mode_digit(value as int, param as nat))
                        is None);
                    return Err(Fault::InvalidInstruction);
                },
            };
            parameter_modes.push(mode);
            if param < 2 {
                place = place * 10;
            }
        }

        let instruction = Instruction { op_code, parameter_modes };
        assert(instruction@ =~= decode(value).unwrap());
        Ok(instruction)
    }

    /// The instruction's printed form as an owned string.
    pub fn to_string(&self) -> (text: String)
        ensures
            text@ == self@.text(),
    {
        let mut text = self.op_code.to_string();
        for index in 0..self.parameter_modes.len()
            invariant
                text@ == self.op_code.mnemonic() + modes_text(
                    self.parameter_modes@.take(index as int),
                ),
        {
            let symbol = self.parameter_modes[index].to_string();
            text.append(" ");
            text.append(symbol.as_str());
            assert(self.parameter_modes@.take(index + 1).drop_last()
                =~= self.parameter_modes@.take(index as int));
        }
        assert(self.parameter_modes@.take(self.parameter_modes.len() as int)
            =~= self.parameter_modes@);
        text
    }
}

/// Decoding depends on the word alone: whatever two runs of the decoder return
/// for one word, both succeed or both fail, and the two instructions have the
/// same operation and the same modes.
pub proof fn decode_is_deterministic(
    value: i32,
    first: Result<Instruction, Fault>,
    second: Result<Instruction, Fault>,
)
    requires
        decodes_to(value, first),
        decodes_to(value, second),
    ensures
        first is Ok <==> second is Ok,
        first is Ok ==> first.unwrap()@ == second.unwrap()@,
        first is Err ==> first == second,
{
}

} // verus!
