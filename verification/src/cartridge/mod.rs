//! The cartridge: the header at the start of a ROM image.


pub mod header;
