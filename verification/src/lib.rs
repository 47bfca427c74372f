//! A verified interpreter for a small virtual machine: a 15-bit address
//! space of 16-bit cells, 8 registers, a LIFO stack, and a 22-opcode
//! instruction set with arithmetic modulo 32768.
//!
//! The executable engine lives in [`machine`] and [`opcodes`]; its behaviour
//! is specified against the mathematical small-step semantics in [`sem`],
//! and the general properties of the architecture are proved in [`laws`].

pub mod laws;
pub mod machine;
pub mod opcodes;
pub mod sem;

pub use machine::ExecutionError;
pub use machine::MachineState;
pub use machine::OpcodeResult;
pub use machine::MAX_ADDR;
pub use machine::REGISTER_COUNT;
pub use sem::MachineView;
