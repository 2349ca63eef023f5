use vstd::prelude::*;

verus! {

/// The fatal conditions that abort a run. None of them is recoverable: the
/// machine is left exactly as it was before the instruction that faulted.
#[derive(Debug, Clone, Copy, PartialEq, Eq, Structural)]
pub enum Fault {
    /// The word at the instruction pointer does not encode an operation, one
    /// of its parameter-mode digits is not 0, 1 or 2, or it puts a parameter
    /// that must be an address in immediate mode.
    InvalidInstruction,
    /// A parameter resolved to a negative address.
    InvalidAddress,
    /// An input operation found the input queue empty.
    InputExhausted,
}

} // verus!
