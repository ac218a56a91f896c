//! The fields of the cartridge header other than the ROM size, each held as
//! the bytes that the image stores at its place.

use vstd::prelude::*;

verus! {

/// The bytes of `bytes` from `start` up to, not including, `end`.
pub fn bytes_between(bytes: &[u8], start: usize, end: usize) -> (r: Vec<u8>)
    requires
        start <= end <= bytes@.len(),
    ensures
        r@ == bytes@.subrange(start as int, end as int),
{
    let mut r: Vec<u8> = Vec::new();
    let mut i: usize = start;
    while i < end
        invariant
            start <= i <= end,
            end <= bytes@.len(),
            r@ == bytes@.subrange(start as int, i as int),
        decreases end - i,
    {
        r.push(bytes[i]);
        i = i + 1;
        assert(r@ =~= bytes@.subrange(start as int, i as int));
    }
    r
}

/// The code that the boot ROM jumps to: the four bytes at 0x100.
#[derive(Debug, Clone, PartialEq, Eq)]
pub struct EntryPoint {
    pub bytes: Vec<u8>,
}

impl EntryPoint {
    pub fn load(bytes: &[u8]) -> (r: Self)
        requires
            bytes@.len() >= 0x104,
        ensures
            r.bytes@ == bytes@.subrange(0x100, 0x104),
    {
        EntryPoint { bytes: bytes_between(bytes, 0x100, 0x104) }
    }
}

/// The logo bitmap: the 48 bytes at 0x104.
#[derive(Debug, Clone, PartialEq, Eq)]
pub struct Logo {
    pub bytes: Vec<u8>,
}

impl Logo {
    pub fn load(bytes: &[u8]) -> (r: Self)
        requires
            bytes@.len() >= 0x134,
        ensures
            r.bytes@ == bytes@.subrange(0x104, 0x134),
    {
        Logo { bytes: bytes_between(bytes, 0x104, 0x134) }
    }
}

/// The title: the 16 bytes at 0x134.
#[derive(Debug, Clone, PartialEq, Eq)]
pub struct Title {
    pub bytes: Vec<u8>,
}

impl Title {
    pub fn load(bytes: &[u8]) -> (r: Self)
        requires
            bytes@.len() >= 0x144,
        ensures
            r.bytes@ == bytes@.subrange(0x134, 0x144),
    {
        Title { bytes: bytes_between(bytes, 0x134, 0x144) }
    }
}

/// The Game Boy Color flag: the byte at 0x143.
#[derive(Debug, Clone, Copy, PartialEq, Eq, Structural)]
pub struct CGBFlag {
    pub code: u8,
}

impl CGBFlag {
    pub fn load(bytes: &[u8]) -> (r: Self)
        requires
            bytes@.len() > 0x143,
        ensures
            r.code == bytes@[0x143],
    {
        CGBFlag { code: bytes[0x143] }
    }
}

/// The licensee codes: the two bytes of the new code at 0x144, and the old
/// code at 0x14B.
#[derive(Debug, Clone, PartialEq, Eq)]
pub struct Licensee {
    pub new_code: Vec<u8>,
    pub old_code: u8,
}

impl Licensee {
    pub fn load(bytes: &[u8]) -> (r: Self)
        requires
            bytes@.len() > 0x14B,
        ensures
            r.new_code@ == bytes@.subrange(0x144, 0x146),
            r.old_code == bytes@[0x14B],
    {
        Licensee { new_code: bytes_between(bytes, 0x144, 0x146), old_code: bytes[0x14B] }
    }
}

/// The Super Game Boy flag: the byte at 0x146.
#[derive(Debug, Clone, Copy, PartialEq, Eq, Structural)]
pub struct SGBFlag {
    pub code: u8,
}

impl SGBFlag {
    pub fn load(bytes: &[u8]) -> (r: Self)
        requires
            bytes@.len() > 0x146,
        ensures
            r.code == bytes@[0x146],
    {
        SGBFlag { code: bytes[0x146] }
    }
}

/// The cartridge type: the byte at 0x147.
#[derive(Debug, Clone, Copy, PartialEq, Eq, Structural)]
pub struct CartridgeType {
    pub code: u8,
}

impl CartridgeType {
    pub fn load(bytes: &[u8]) -> (r: Self)
        requires
            bytes@.len() > 0x147,
        ensures
            r.code == bytes@[0x147],
    {
        CartridgeType { code: bytes[0x147] }
    }
}

/// The RAM size code: the byte at 0x149.
#[derive(Debug, Clone, Copy, PartialEq, Eq, Structural)]
pub struct RamSize {
    pub code: u8,
}

impl RamSize {
    pub fn load(bytes: &[u8]) -> (r: Self)
        requires
            bytes@.len() > 0x149,
        ensures
            r.code == bytes@[0x149],
    {
        RamSize { code: bytes[0x149] }
    }
}

/// The destination code: the byte at 0x14A.
#[derive(Debug, Clone, Copy, PartialEq, Eq, Structural)]
pub struct Destination {
    pub code: u8,
}

impl Destination {
    pub fn load(bytes: &[u8]) -> (r: Self)
        requires
            bytes@.len() > 0x14A,
        ensures
            r.code == bytes@[0x14A],
    {
        Destination { code: bytes[0x14A] }
    }
}

/// The version number: the byte at 0x14C.
pub fn load_version(bytes: &[u8]) -> (r: u8)
    requires
        bytes@.len() > 0x14C,
    ensures
        r == bytes@[0x14C],
{
    bytes[0x14C]
}

/// The header checksum: the byte at 0x14D.
pub fn load_header_checksum(bytes: &[u8]) -> (r: u8)
    requires
        bytes@.len() > 0x14D,
    ensures
        r == bytes@[0x14D],
{
    bytes[0x14D]
}

/// The global checksum: the big-endian word at 0x14E.
#[derive(Debug, Clone, Copy, PartialEq, Eq, Structural)]
pub struct GlobalChecksum {
    pub value: u16,
}

impl GlobalChecksum {
    pub fn load(bytes: &[u8]) -> (r: Self)
        requires
            bytes@.len() > 0x14F,
        ensures
            r.value == bytes@[0x14E] as int * 256 + bytes@[0x14F] as int,
    {
        GlobalChecksum { value: bytes[0x14E] as u16 * 256 + bytes[0x14F] as u16 }
    }
}

} // verus!
