use gba_core::cartridge::{ascii_text, compute_checksum, has_valid_checksum};
use gba_core::{Cartridge, CartridgeHeader, IncompleteHeaderError, LoadError};

fn rom() -> Vec<u8> {
    let mut rom = vec![0u8; 0x200];
    rom[0xA0..0xA9].copy_from_slice(b"GBA Tests");
    rom[0xAC..0xB0].copy_from_slice(b"1337");
    rom[0xB0..0xB2].copy_from_slice(b"JS");
    rom[0xB2] = 0x96;
    let chk = compute_checksum(&rom[0xA0..0xBD]);
    rom[0xBD] = chk;
    rom
}

#[test]
fn header_fields() {
    let rom = rom();
    let header = CartridgeHeader::parse(&rom).unwrap();
    assert_eq!(&header.game_title[..9], b"GBA Tests");
    assert_eq!(header.game_title.len(), 12);
    assert_eq!(header.game_code, b"1337".to_vec());
    assert_eq!(header.maker_code, b"JS".to_vec());
    assert_eq!(header.software_version, 0x00);
    assert_eq!(header.checksum, rom[0xBD]);
    assert!(has_valid_checksum(&rom));
}

#[test]
fn checksum_value() {
    // -(0x96) - 0x19 = 0x51 (mod 256)
    let mut bytes = vec![0u8; 29];
    bytes[0x12] = 0x96;
    assert_eq!(compute_checksum(&bytes), 0x51);
    assert_eq!(compute_checksum(&[0u8; 29]), 0xE7);
}

#[test]
fn bad_checksum_still_parses() {
    let mut rom = rom();
    rom[0xBD] = rom[0xBD].wrapping_add(1);
    assert!(!has_valid_checksum(&rom));
    assert!(CartridgeHeader::parse(&rom).is_ok());
}

#[test]
fn short_rom_is_rejected() {
    assert_eq!(CartridgeHeader::parse(&[0u8; 191]), Err(IncompleteHeaderError));
    assert_eq!(
        Cartridge::load_from_bytes(vec![0u8; 10]).unwrap_err(),
        LoadError::HeaderError(IncompleteHeaderError)
    );
    let cart = Cartridge::load_from_bytes(rom()).unwrap();
    assert_eq!(cart.rom().len(), 0x200);
    assert_eq!(cart.header.game_code, b"1337".to_vec());
}

/// A ROM whose header holds the fields of the "GBA Tests" ROM: title, game
/// code, maker code, version, a device type byte with bit 7 set, and its
/// checksum.
fn gba_tests_rom() -> Vec<u8> {
    let mut rom = vec![0u8; 0x400];
    rom[0xA0..0xA9].copy_from_slice(b"GBA Tests");
    rom[0xAC..0xB0].copy_from_slice(b"1337");
    rom[0xB0..0xB2].copy_from_slice(b"JS");
    rom[0xB2] = 0x96;
    rom[0xB4] = 0x80;
    rom[0xBD] = 0x69;
    rom
}

#[test]
fn info() {
    let rom = gba_tests_rom();
    let header = CartridgeHeader::parse(&rom).unwrap();

    assert_eq!(header.title(), b"GBA Tests".to_vec());
    assert_eq!(header.game_code, b"1337".to_vec());
    assert_eq!(header.maker_code, b"JS".to_vec());
    assert_eq!(header.software_version, 0x00);
    assert_eq!(header.checksum, 0x69);
}

#[test]
fn checksum() {
    let rom = gba_tests_rom();
    let header = CartridgeHeader::parse(&rom).unwrap();

    assert_eq!(header.checksum, compute_checksum(&rom[0xA0..0xBD]));
}

#[test]
fn header_info() {
    let rom = gba_tests_rom();
    let header = CartridgeHeader::parse(&rom).unwrap();

    assert_eq!(header.title(), b"GBA Tests".to_vec());
    assert_eq!(header.game_code, b"1337".to_vec());
    assert_eq!(header.maker_code, b"JS".to_vec());
    assert_eq!(header.software_version, 0x00);
    assert_eq!(header.checksum, 0x69);
}

#[test]
fn ascii_text_stops_at_padding() {
    assert_eq!(ascii_text(b"AB\0C"), b"AB".to_vec());
    assert_eq!(ascii_text(b"ABCD"), b"ABCD".to_vec());
    assert_eq!(ascii_text(b"\0AB"), Vec::<u8>::new());
}
