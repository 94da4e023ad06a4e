//! A CHIP-8 virtual machine: instruction decoding, the semantics of every
//! instruction over memory, registers, call stack, timers and a monochrome
//! framebuffer, the blocking key-wait, and the keypad's state.
//!
//! `machine` states what the machine does as functions on values, `cpu`
//! carries it out and is proved to agree, and `laws` proves properties of
//! the semantics that hold in every state.
use vstd::prelude::*;

pub mod cpu;
pub mod fonts;
pub mod framebuffer;
pub mod instruction;
pub mod keyboard;
pub mod keypad;
pub mod laws;
pub mod machine;

pub use cpu::{Emulator, CPU};
pub use instruction::{parse_instruction, Instruction};
pub use keyboard::Keyboard;
pub use keypad::{map_scancode, PhysicalKey};
pub use machine::{MachineError, ProgramCounter, Quirks};

verus! {

} // verus!
