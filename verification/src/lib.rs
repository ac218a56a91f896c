//! The core of a Game Boy emulator: the SM83 CPU's registers, the operands and
//! operators of its instruction set, the instruction decoder, the cartridge
//! header, and the clock that paces audio frames.

pub mod audio;
pub mod cartridge;
pub mod cpu;

use vstd::prelude::*;

verus! {

/// The machine clock of the Game Boy, in cycles per second.
pub const CLOCK_CYCLE: u64 = 4194304;

} // verus!
