//! The cartridge header: the fields that a ROM image stores from 0x100 to
//! 0x14F.

mod fields;
mod rom_size;

pub use fields::{
    CGBFlag, CartridgeType, Destination, EntryPoint, GlobalChecksum, Licensee, Logo, RamSize, SGBFlag,
    Title, bytes_between,
};
pub use rom_size::{RomSize, RomSizeAmount, amount_of};

use vstd::prelude::*;
use fields::{load_header_checksum, load_version};

verus! {

/// The cartridge header.
#[derive(Debug, Clone, PartialEq, Eq)]
pub struct Header {
    pub entry_point: EntryPoint,
    pub logo: Logo,
    pub cgb_flag: CGBFlag,
    pub title: Title,
    pub licensee: Licensee,
    pub sgb_flag: SGBFlag,
    pub cartridge_type: CartridgeType,
    pub rom_size: RomSize,
    pub ram_size: RamSize,
    pub destination: Destination,
    pub version: u8,
    pub header_checksum: u8,
    pub global_checksum: GlobalChecksum,
}

/// Why a header could not be loaded.
#[derive(Debug, Clone, Copy, PartialEq, Eq, Hash, Structural)]
pub enum Error {
    /// The image ends before the header does.
    TooSmall,
}

/// The length that an image needs to hold the whole header.
pub const MIN_HEADER_LENGTH: usize = 0x150;

impl Header {
    /// Every field holds what the image stores at its place.
    pub open spec fn read_from(self, bytes: Seq<u8>) -> bool {
        &&& self.entry_point.bytes@ == bytes.subrange(0x100, 0x104)
        &&& self.logo.bytes@ == bytes.subrange(0x104, 0x134)
        &&& self.cgb_flag.code == bytes[0x143]
        &&& self.title.bytes@ == bytes.subrange(0x134, 0x144)
        &&& self.licensee.new_code@ == bytes.subrange(0x144, 0x146)
        &&& self.licensee.old_code == bytes[0x14B]
        &&& self.sgb_flag.code == bytes[0x146]
        &&& self.cartridge_type.code == bytes[0x147]
        &&& self.rom_size == (RomSize { code: bytes[0x148], amount: amount_of(bytes[0x148]) })
        &&& self.ram_size.code == bytes[0x149]
        &&& self.destination.code == bytes[0x14A]
        &&& self.version == bytes[0x14C]
        &&& self.header_checksum == bytes[0x14D]
        &&& self.global_checksum.value == bytes[0x14E] as int * 256 + bytes[0x14F] as int
    }

    /// Loads the header of a ROM image; an image shorter than the header is
    /// refused with `TooSmall`.
    pub fn load(bytes: &[u8]) -> (r: Result<Self, Error>)
        ensures
            r is Err <==> bytes@.len() < MIN_HEADER_LENGTH,
            r matches Err(e) ==> e == Error::TooSmall,
            r matches Ok(h) ==> h.read_from(bytes@),
    {
        if bytes.len() < MIN_HEADER_LENGTH {
            return Err(Error::TooSmall);
        }
        Ok(Self {
            entry_point: EntryPoint::load(bytes),
            logo: Logo::load(bytes),
            cgb_flag: CGBFlag::load(bytes),
            title: Title::load(bytes),
            licensee: Licensee::load(bytes),
            sgb_flag: SGBFlag::load(bytes),
            cartridge_type: CartridgeType::load(bytes),
            rom_size: RomSize::load(bytes),
            ram_size: RamSize::load(bytes),
            destination: Destination::load(bytes),
            version: load_version(bytes),
            header_checksum: load_header_checksum(bytes),
            global_checksum: GlobalChecksum::load(bytes),
        })
    }
}

/// Where the fields stand: the entry point at 0x100 to 0x103, the logo at
/// 0x104 to 0x133, the title at 0x134 to 0x143 with the colour flag at its
/// last byte, the new licensee code at 0x144 and 0x145, then one byte each
/// for the SGB flag, the cartridge type, the ROM size, the RAM size, the
/// destination and the old licensee code from 0x146 to 0x14B, the version at
/// 0x14C, the header checksum at 0x14D and the big-endian global checksum at
/// 0x14E and 0x14F.
pub proof fn lemma_header_layout(h: Header, bytes: Seq<u8>)
    requires
        bytes.len() >= MIN_HEADER_LENGTH,
        h.read_from(bytes),
    ensures
        forall|i: int| 0 <= i < 4 ==> h.entry_point.bytes@[i] == bytes[0x100 + i],
        forall|i: int| 0 <= i < 48 ==> h.logo.bytes@[i] == bytes[0x104 + i],
        forall|i: int| 0 <= i < 16 ==> h.title.bytes@[i] == bytes[0x134 + i],
        h.entry_point.bytes@.len() == 4 && h.logo.bytes@.len() == 48 && h.title.bytes@.len() == 16,
        h.cgb_flag.code == h.title.bytes@[15],
        h.licensee.new_code@ == seq![bytes[0x144], bytes[0x145]],
        h.sgb_flag.code == bytes[0x146],
        h.cartridge_type.code == bytes[0x147],
        h.rom_size.code == bytes[0x148],
        h.ram_size.code == bytes[0x149],
        h.destination.code == bytes[0x14A],
        h.licensee.old_code == bytes[0x14B],
        h.version == bytes[0x14C],
        h.header_checksum == bytes[0x14D],
        h.global_checksum.value == 256 * bytes[0x14E] + bytes[0x14F],
{
    assert(h.licensee.new_code@ =~= seq![bytes[0x144], bytes[0x145]]);
}

/// The ROM size codes: 0x00 to 0x08 announce 32 KiB, 64 KiB, 128 KiB, 256
/// KiB, 512 KiB, 1 MiB, 2 MiB, 4 MiB and 8 MiB; 0x52, 0x53 and 0x54 announce
/// 1.1, 1.2 and 1.5 MiB; every other code is unknown.
pub proof fn lemma_rom_size_codes(code: u8)
    ensures
        code <= 8 ==> amount_of(code) == seq![
            RomSizeAmount::Kb32,
            RomSizeAmount::Kb64,
            RomSizeAmount::Kb128,
            RomSizeAmount::Kb256,
            RomSizeAmount::Kb512,
            RomSizeAmount::Mb1,
            RomSizeAmount::Mb2,
            RomSizeAmount::Mb4,
            RomSizeAmount::Mb8,
        ][code as int],
        0x52 <= code <= 0x54 ==> amount_of(code) == seq![
            RomSizeAmount::Mb1P1,
            RomSizeAmount::Mb1P2,
            RomSizeAmount::Mb1P5,
        ][code - 0x52],
        (amount_of(code) == RomSizeAmount::Unknown) == (code > 8 && !(0x52 <= code <= 0x54)),
{
}

} // verus!
