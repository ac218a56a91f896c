use gameboy_core::cartridge::header::{Error, Header, RomSize, RomSizeAmount};

fn image() -> Vec<u8> {
    let mut bytes = vec![0u8; 0x150];
    bytes[0x100..0x104].copy_from_slice(&[0x00, 0xC3, 0x50, 0x01]);
    for i in 0x104..0x134 {
        bytes[i] = (i % 251) as u8;
    }
    bytes[0x134..0x13F].copy_from_slice(b"TETRIS\0\0\0\0\0");
    bytes[0x143] = 0x80;
    bytes[0x144] = b'0';
    bytes[0x145] = b'1';
    bytes[0x146] = 0x03;
    bytes[0x147] = 0x01;
    bytes[0x148] = 0x05;
    bytes[0x149] = 0x02;
    bytes[0x14A] = 0x01;
    bytes[0x14B] = 0x33;
    bytes[0x14C] = 0x01;
    bytes[0x14D] = 0xE7;
    bytes[0x14E] = 0x12;
    bytes[0x14F] = 0x34;
    bytes
}

#[test]
fn too_small_image_is_refused() {
    assert_eq!(Header::load(&[]), Err(Error::TooSmall));
    assert_eq!(Header::load(&vec![0u8; 0x14F]), Err(Error::TooSmall));
}

#[test]
fn header_fields_are_read_from_their_places() {
    let bytes = image();
    let header = Header::load(&bytes).unwrap();
    assert_eq!(header.entry_point.bytes, vec![0x00, 0xC3, 0x50, 0x01]);
    assert_eq!(header.logo.bytes, bytes[0x104..0x134].to_vec());
    assert_eq!(&header.title.bytes[..6], b"TETRIS");
    assert_eq!(header.title.bytes.len(), 16);
    assert_eq!(header.cgb_flag.code, 0x80);
    assert_eq!(header.licensee.new_code, b"01".to_vec());
    assert_eq!(header.licensee.old_code, 0x33);
    assert_eq!(header.sgb_flag.code, 0x03);
    assert_eq!(header.cartridge_type.code, 0x01);
    assert_eq!(header.rom_size, RomSize { code: 0x05, amount: RomSizeAmount::Mb1 });
    assert_eq!(header.ram_size.code, 0x02);
    assert_eq!(header.destination.code, 0x01);
    assert_eq!(header.version, 0x01);
    assert_eq!(header.header_checksum, 0xE7);
    assert_eq!(header.global_checksum.value, 0x1234);
}

#[test]
fn longer_image_loads() {
    let mut bytes = image();
    bytes.resize(0x8000, 0xFF);
    assert!(Header::load(&bytes).is_ok());
}

#[test]
fn rom_size_amounts() {
    let known = [
        (0x00, RomSizeAmount::Kb32),
        (0x01, RomSizeAmount::Kb64),
        (0x02, RomSizeAmount::Kb128),
        (0x03, RomSizeAmount::Kb256),
        (0x04, RomSizeAmount::Kb512),
        (0x05, RomSizeAmount::Mb1),
        (0x06, RomSizeAmount::Mb2),
        (0x07, RomSizeAmount::Mb4),
        (0x08, RomSizeAmount::Mb8),
        (0x52, RomSizeAmount::Mb1P1),
        (0x53, RomSizeAmount::Mb1P2),
        (0x54, RomSizeAmount::Mb1P5),
    ];
    for code in 0..=255u8 {
        let expected = known
            .iter()
            .find(|(c, _)| *c == code)
            .map(|(_, a)| *a)
            .unwrap_or(RomSizeAmount::Unknown);
        assert_eq!(RomSizeAmount::from(code), expected);
        assert_eq!(RomSize::from(code), RomSize { code, amount: expected });
    }
}

#[test]
fn rom_size_load_reads_0x148() {
    let mut bytes = vec![0u8; 0x149];
    bytes[0x148] = 0x53;
    assert_eq!(RomSize::load(&bytes), RomSize { code: 0x53, amount: RomSizeAmount::Mb1P2 });
}
