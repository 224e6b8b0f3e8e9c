//! An interpreter for the Intel 8080 instruction set: the processor state
//! record and an engine that executes one instruction per call.

pub mod engine;
pub mod isa;
pub mod laws;
pub mod state;

pub use engine::{decode_opcode, emulate_8080_op, parity, shift_nn};
pub use isa::{Cond, Instruction, Pair, Reg, StepOutcome, PROGRAM_LIMIT};
pub use state::{ConditionCodes, ImageTooLarge, State8080, MEMORY_SIZE};
