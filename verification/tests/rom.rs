//! The cartridge container: header fields, section slicing, and the
//! decode of a PRG-ROM pulled out of a file image.

use nespile::parser::rom::{
    NesFormatVersion, NametableArrangement, ParserError, TVSystem, parse_file, parse_header,
};
use nespile::parser::NesProgram;

fn image(flags6: u8, flags7: u8, flags9: u8, prg_units: u8, chr_units: u8) -> Vec<u8> {
    let mut data = vec![
        0x4e, 0x45, 0x53, 0x1a, prg_units, chr_units, flags6, flags7, 0, flags9, 0, 0, 0, 0, 0, 0,
    ];
    if (flags6 / 4) % 2 == 1 {
        data.extend(std::iter::repeat(0xaa).take(512));
    }
    data.extend(std::iter::repeat(0xea).take(prg_units as usize * 0x4000));
    data.extend(std::iter::repeat(0x55).take(chr_units as usize * 0x2000));
    data
}

#[test]
fn test_header_fields() {
    let data = image(0b0001_0011, 0b0010_1000, 0x01, 2, 1);
    let header = parse_header(&data).unwrap();
    assert_eq!(header.prgrom_size, 2 * 0x4000);
    assert_eq!(header.chrrom_size, 0x2000);
    assert_eq!(header.flags6.nametable_arrangement, NametableArrangement::Horizontal);
    assert!(header.flags6.persistent_memory);
    assert!(!header.flags6.has_trainer);
    assert!(!header.flags6.alt_nametable_layout);
    assert_eq!(header.flags6.mapper_lower, 1);
    assert!(!header.flags7.vs_unisystem);
    assert!(!header.flags7.playchoice_10);
    assert_eq!(header.flags7.nes2_indicator, 2);
    assert_eq!(header.flags7.mapper_upper, 2);
    assert_eq!(header.flags9.tv_system, TVSystem::PAL);
    assert_eq!(header.version, NesFormatVersion::NES2_0);
}

#[test]
fn test_header_version_variants() {
    assert_eq!(parse_header(&image(0, 0b0000_0000, 0, 1, 0)).unwrap().version, NesFormatVersion::INES);
    assert_eq!(
        parse_header(&image(0, 0b0000_0100, 0, 1, 0)).unwrap().version,
        NesFormatVersion::ArchaicINes
    );
    assert_eq!(
        parse_header(&image(0, 0b0000_1100, 0, 1, 0)).unwrap().version,
        NesFormatVersion::Unknown
    );
}

#[test]
fn test_header_bad_magic() {
    let mut data = image(0, 0, 0, 1, 0);
    data[3] = 0x00;
    assert_eq!(parse_header(&data), Err(ParserError::BadMagic));
}

#[test]
fn test_header_too_short() {
    let data = vec![0x4eu8, 0x45, 0x53];
    assert_eq!(
        parse_header(&data),
        Err(ParserError::UnexpectedEndOfFile { position: 0, bytes_needed: 13 })
    );
}

#[test]
fn test_file_sections() {
    let data = image(0b0000_0100, 0, 0, 1, 1);
    let file = parse_file(&data).unwrap();
    assert!(file.header.flags6.has_trainer);
    let trainer = file.trainer.unwrap();
    assert_eq!(trainer.len(), 512);
    assert!(trainer.iter().all(|b| *b == 0xaa));
    assert_eq!(file.prgrom_data.len(), 0x4000);
    assert!(file.prgrom_data.iter().all(|b| *b == 0xea));
    assert_eq!(file.chrrom_data.len(), 0x2000);
    assert!(file.chrrom_data.iter().all(|b| *b == 0x55));
}

#[test]
fn test_file_truncated_prgrom() {
    let mut data = image(0, 0, 0, 1, 0);
    data.truncate(16 + 0x4000 - 1);
    assert_eq!(
        parse_file(&data),
        Err(ParserError::UnexpectedEndOfFile { position: 16, bytes_needed: 1 })
    );
}

#[test]
fn test_program_from_file() {
    // A PRG-ROM of nothing but NOPs disassembles to one NOP per byte.
    let data = image(0, 0, 0, 1, 0);
    let file = parse_file(&data).unwrap();
    let program = NesProgram::try_from_file(&file).unwrap();
    assert_eq!(program.operations.len(), 0x4000);
    assert_eq!(program.operations[0].to_source_string(), "NOP");
}
