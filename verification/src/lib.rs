//! A verified Intcode virtual machine.
//!
//! The machine executes programs encoded as sequences of signed 32-bit words.
//! Decoding lives in [`instruction`], the sparse memory in [`memory`], the
//! mathematical model of one execution step in [`machine`], and the executable
//! engine, proved against that model, in [`intcode`].

pub mod fault;
pub mod instruction;
pub mod intcode;
pub mod machine;
pub mod memory;
pub mod opcode;

pub use crate::fault::Fault;
pub use crate::instruction::{Instruction, ParameterMode};
pub use crate::intcode::{run_program, Computer};
pub use crate::memory::{ComputerMemory, RangeAddressable};
pub use crate::opcode::OpCode;
