//! A verified CHIP-8 virtual machine core.
//!
//! The crate models the classic CHIP-8 interpreter: 4 KB of memory, sixteen
//! 8-bit registers, a 16-entry call stack, two timers, a 16-key keypad and a
//! 64 x 32 monochrome display buffer.  Every instruction of the original
//! 35-opcode set is executed against that state by a single cycle function
//! whose behaviour is pinned down by an abstract transition function.

use vstd::prelude::*;

pub mod emulator;
pub mod laws;
mod rng;
pub mod semantics;
pub mod state;

verus! {

/// Width of the display in pixels.
pub const SCREEN_WIDTH: usize = 64;

/// Height of the display in pixels.
pub const SCREEN_HEIGHT: usize = 32;

/// Number of bytes of machine memory.
pub const MEMORY_SIZE: usize = 4096;

/// Address at which loaded programs begin.
pub const PROGRAM_START: usize = 512;

} // verus!
