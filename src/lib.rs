//! A CHIP-8 virtual machine: register and memory state, the
//! fetch-decode-execute step, and the program loader it relies on.
pub mod binary_parser;
pub mod chip8;
pub mod chip8_display;
pub mod laws;
pub mod model;

pub use binary_parser::{copy_binary_to_memory, decode_words, LoadError};
pub use chip8::CHIP8;
pub use chip8_display::{CHIP8Display, DummyCHIP8Display};
pub use model::{Fault, Instruction, Outcome, MEMORY_SIZE, PROGRAM_START, STACK_DEPTH};
