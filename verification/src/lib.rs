//! A CHIP-8 interpreter core.
//!
//! The machine has 4096 bytes of memory, sixteen byte registers, a 16-bit
//! index register, a program counter, a call stack, a 64 by 32 monochrome
//! display and two countdown timers. [`Emulator::tick`] executes one
//! instruction and steps the timers. The keyboard and the audio device
//! belong to the host: each tick takes a [`Keypad`] with the keys that are
//! down and the state of the audio device, and hands back the
//! [`AudioCommand`] that the host owes the device.
//!
//! [`machine::Machine`] is the machine as a mathematical value, with the
//! meaning of every instruction; the contracts of [`Emulator`] are stated
//! over it, and [`laws`] proves what follows for every program.

pub mod audio;
pub mod display;
pub mod display_lemmas;
pub mod emulator;
pub mod fault;
pub mod font;
pub mod instruction;
pub mod keypad;
pub mod laws;
pub mod machine;
mod rng;

pub use crate::audio::AudioCommand;
pub use crate::emulator::Emulator;
pub use crate::fault::Fault;
pub use crate::instruction::Instruction;
pub use crate::keypad::Keypad;

use vstd::prelude::*;

verus! {

/// Number of pixel columns of the display.
pub const CHIP8_DISPLAY_WIDTH: usize = 64;

/// Number of pixel rows of the display.
pub const CHIP8_DISPLAY_HEIGHT: usize = 32;

} // verus!
