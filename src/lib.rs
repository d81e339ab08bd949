//! An interpreter for a small 8-bit virtual machine with a 4 KiB address
//! space, sixteen byte registers, a sixteen-entry call stack, two countdown
//! timers and a 64 x 32 monochrome frame buffer.
//!
//! `semantics` states what every instruction does over `MachineState`;
//! `processor` implements it and is verified against that statement.
pub mod disassembler;
pub mod instruction;
pub mod laws;
pub mod memory;
pub mod processor;
pub mod semantics;

pub use disassembler::{Disassembler, NullDisassembler};
pub use instruction::{Instruction, decode};
pub use memory::{MemoryBus, FONT};
pub use processor::{Processor, ProcessorOutput};
pub use semantics::{Fault, ProcessorAction};
