use vstd::prelude::*;
use vstd::string::StringExecFns;

verus! {

/// The ten operations of the machine.
#[derive(Debug, Clone, Copy, PartialEq, Eq, Structural)]
pub enum OpCode {
    Add,
    Mul,
    Input,
    Output,
    JumpIfZero,
    JumpIfNotZero,
    StoreIfLessThan,
    StoreIfEquals,
    IncrementRelativeBase,
    Halt,
}

impl OpCode {
    /// The operation selected by a two-digit operation code, if there is one.
    pub open spec fn from_code(code: int) -> Option<OpCode> {
        if code == 1 {
            Some(OpCode::Add)
        } else if code == 2 {
            Some(OpCode::Mul)
        } else if code == 3 {
            Some(OpCode::Input)
        } else if code == 4 {
            Some(OpCode::Output)
        } else if code == 5 {
            Some(OpCode::JumpIfNotZero)
        } else if code == 6 {
            Some(OpCode::JumpIfZero)
        } else if code == 7 {
            Some(OpCode::StoreIfLessThan)
        } else if code == 8 {
            Some(OpCode::StoreIfEquals)
        } else if code == 9 {
            Some(OpCode::IncrementRelativeBase)
        } else if code == 99 {
            Some(OpCode::Halt)
        } else {
            None
        }
    }

    /// How many parameters the operation consumes.
    pub open spec fn arity(self) -> nat {
        match self {
            OpCode::Add | OpCode::Mul | OpCode::StoreIfLessThan | OpCode::StoreIfEquals => 3,
            OpCode::JumpIfNotZero | OpCode::JumpIfZero => 2,
            OpCode::Input | OpCode::Output | OpCode::IncrementRelativeBase => 1,
            OpCode::Halt => 0,
        }
    }

    /// The index of the parameter that names where the operation stores its
    /// result, for the operations that store one.
    pub open spec fn destination(self) -> Option<int> {
        match self {
            OpCode::Add | OpCode::Mul | OpCode::StoreIfLessThan | OpCode::StoreIfEquals => Some(
                2,
            ),
            OpCode::Input => Some(0),
            _ => None,
        }
    }

    /// The mnemonic under which the operation is printed.
    pub open spec fn mnemonic(self) -> Seq<char> {
        match self {
            OpCode::Add => "ADD"@,
            OpCode::Mul => "MUL"@,
            OpCode::Input => "IN"@,
            OpCode::Output => "OUT"@,
            OpCode::JumpIfNotZero => "JNZ"@,
            OpCode::JumpIfZero => "JZ"@,
            OpCode::StoreIfLessThan => "SLT"@,
            OpCode::StoreIfEquals => "SEQ"@,
            OpCode::IncrementRelativeBase => "INCB"@,
            OpCode::Halt => "HALT"@,
        }
    }

    /// The operation's mnemonic as an owned string.
    pub fn to_string(&self) -> (text: String)
        ensures
            text@ == self.mnemonic(),
    {
        match self {
            OpCode::Add => String::from_str("ADD"),
            OpCode::Mul => String::from_str("MUL"),
            OpCode::Input => String::from_str("IN"),
            OpCode::Output => String::from_str("OUT"),
            OpCode::JumpIfNotZero => String::from_str("JNZ"),
            OpCode::JumpIfZero => String::from_str("JZ"),
            OpCode::StoreIfLessThan => String::from_str("SLT"),
            OpCode::StoreIfEquals => String::from_str("SEQ"),
            OpCode::IncrementRelativeBase => String::from_str("INCB"),
            OpCode::Halt => String::from_str("HALT"),
        }
    }
}

} // verus!
