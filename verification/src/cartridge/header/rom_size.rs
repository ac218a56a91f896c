//! The ROM size code of the cartridge header.

use vstd::prelude::*;

verus! {

/// The amount of ROM that a size code announces.
#[derive(Debug, Clone, Copy, PartialEq, Eq, Hash, Structural)]
pub enum RomSizeAmount {
    Unknown,
    Kb32,
    Kb64,
    Kb128,
    Kb256,
    Kb512,
    Mb1,
    Mb2,
    Mb4,
    Mb8,
    Mb1P1,
    Mb1P2,
    Mb1P5,
}

/// The amount that a size code announces: codes 0x00 to 0x08 give 32 KiB
/// doubling up to 8 MiB, 0x52, 0x53 and 0x54 give 1.1, 1.2 and 1.5 MiB, and
/// every other code is unknown.
pub open spec fn amount_of(code: u8) -> RomSizeAmount {
    if code == 0x00 {
        RomSizeAmount::Kb32
    } else if code == 0x01 {
        RomSizeAmount::Kb64
    } else if code == 0x02 {
        RomSizeAmount::Kb128
    } else if code == 0x03 {
        RomSizeAmount::Kb256
    } else if code == 0x04 {
        RomSizeAmount::Kb512
    } else if code == 0x05 {
        RomSizeAmount::Mb1
    } else if code == 0x06 {
        RomSizeAmount::Mb2
    } else if code == 0x07 {
        RomSizeAmount::Mb4
    } else if code == 0x08 {
        RomSizeAmount::Mb8
    } else if code == 0x52 {
        RomSizeAmount::Mb1P1
    } else if code == 0x53 {
        RomSizeAmount::Mb1P2
    } else if code == 0x54 {
        RomSizeAmount::Mb1P5
    } else {
        RomSizeAmount::Unknown
    }
}

impl From<u8> for RomSizeAmount {
    fn from(code: u8) -> (r: Self) {
        match code {
            0x00 => RomSizeAmount::Kb32,
            0x01 => RomSizeAmount::Kb64,
            0x02 => RomSizeAmount::Kb128,
            0x03 => RomSizeAmount::Kb256,
            0x04 => RomSizeAmount::Kb512,
            0x05 => RomSizeAmount::Mb1,
            0x06 => RomSizeAmount::Mb2,
            0x07 => RomSizeAmount::Mb4,
            0x08 => RomSizeAmount::Mb8,
            0x52 => RomSizeAmount::Mb1P1,
            0x53 => RomSizeAmount::Mb1P2,
            0x54 => RomSizeAmount::Mb1P5,
            _ => RomSizeAmount::Unknown,
        }
    }
}

impl vstd::std_specs::convert::FromSpecImpl<u8> for RomSizeAmount {
    open spec fn obeys_from_spec() -> bool {
        true
    }

    open spec fn from_spec(code: u8) -> Self {
        amount_of(code)
    }
}

/// The ROM size field: the code as stored, and the amount it announces.
#[derive(Debug, Clone, Copy, PartialEq, Eq, Hash, Structural)]
pub struct RomSize {
    pub code: u8,
    pub amount: RomSizeAmount,
}

impl From<u8> for RomSize {
    fn from(code: u8) -> (r: Self) {
        Self { code, amount: RomSizeAmount::from(code) }
    }
}

impl vstd::std_specs::convert::FromSpecImpl<u8> for RomSize {
    open spec fn obeys_from_spec() -> bool {
        true
    }

    open spec fn from_spec(code: u8) -> Self {
        RomSize { code, amount: amount_of(code) }
    }
}

/// Where the ROM size code stands in the image.
pub const POSITION: usize = 0x0148;

impl RomSize {
    /// Reads the ROM size field of an image.
    pub fn load(rom_bytes: &[u8]) -> (r: Self)
        requires
            rom_bytes@.len() > POSITION,
        ensures
            r == (RomSize { code: rom_bytes@[POSITION as int], amount: amount_of(rom_bytes@[POSITION as int]) }),
    {
        RomSize::from(rom_bytes[POSITION])
    }
}

} // verus!
