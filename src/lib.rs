//! An interpreter for the classic 8-bit fantasy console instruction set:
//! memory, registers, call stack, timers, keypad and a monochrome
//! framebuffer, driven one instruction at a time.
pub mod font;
pub mod instruction;
pub mod laws;
pub mod machine;
pub mod model;
mod random;

pub use instruction::{Instruction, decode};
pub use machine::{Chip8, key_for_char};
pub use model::Fault;

