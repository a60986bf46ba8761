//! Decoding and rendering whole programs: the concrete scenarios, the
//! boundary behaviour at the declared limit, and determinism.

use nespile::parser::address_mode::{AddrModeAbsInd, AddrModeNoZeropageY};
use nespile::parser::opcodes::Opcode;
use nespile::parser::{NesProgram, ProgramParseError};

#[test]
fn test_brk_at_limit_one() {
    let data = vec![0x00u8];
    let program = NesProgram::parse(&data, 1).unwrap();
    assert_eq!(program.operations, vec![Opcode::BRK]);
    assert_eq!(program.to_source_string(1), "$8000    BRK");
}

#[test]
fn test_lda_immediate() {
    let data = vec![0xa9u8, 0x42];
    let program = NesProgram::parse(&data, 2).unwrap();
    assert_eq!(
        program.operations,
        vec![Opcode::LDA(AddrModeNoZeropageY::Immediate(0x42))]
    );
    assert_eq!(program.to_source_string(2), "$8000    LDA   #$42");
}

#[test]
fn test_jmp_absolute() {
    let data = vec![0x4cu8, 0x00, 0x90];
    let program = NesProgram::parse(&data, 3).unwrap();
    assert_eq!(
        program.operations,
        vec![Opcode::JMP(AddrModeAbsInd::Absolute(0x9000))]
    );
    assert_eq!(program.to_source_string(3), "$8000    JMP   $9000");
}

#[test]
fn test_two_instructions() {
    let data = vec![0xa9u8, 0x01, 0x00];
    let program = NesProgram::parse(&data, 3).unwrap();
    assert_eq!(program.operations.len(), 2);
    assert_eq!(
        program.to_source_string(3),
        "$8000    LDA   #$01\n$8002    BRK"
    );
}

#[test]
fn test_stp_never_errors() {
    let data = vec![0x02u8];
    let program = NesProgram::parse(&data, 1).unwrap();
    assert_eq!(program.operations, vec![Opcode::STP]);
    assert_eq!(program.to_source_string(1), "$8000    STP");
}

#[test]
fn test_round_trip_determinism() {
    let data = vec![0xa9u8, 0x01, 0x4c, 0x00, 0x80, 0x02, 0xe8, 0x00];
    let first = NesProgram::parse(&data, 8).unwrap();
    let second = NesProgram::parse(&data, 8).unwrap();
    assert_eq!(first.operations, second.operations);
    assert_eq!(first.to_source_string(8), second.to_source_string(8));
}

#[test]
fn test_boundary_exact_fit() {
    // The operand of the final JMP ends exactly at the limit.
    let data = vec![0xe8u8, 0x4c, 0x00, 0x90];
    let program = NesProgram::parse(&data, 4).unwrap();
    assert_eq!(program.operations.len(), 2);
}

#[test]
fn test_boundary_one_byte_short() {
    let data = vec![0x4cu8, 0x00];
    let r = NesProgram::parse(&data, 2);
    assert_eq!(
        r.unwrap_err(),
        ProgramParseError::UnexpectedEndOfStream { position: 0, bytes_needed: 1 }
    );
}

#[test]
fn test_truncated_immediate_operand() {
    let data = vec![0xa9u8];
    let r = NesProgram::parse(&data, 1);
    assert_eq!(
        r.unwrap_err(),
        ProgramParseError::UnexpectedEndOfStream { position: 0, bytes_needed: 1 }
    );
}

#[test]
fn test_sax_slot_reports_invalid_encoding() {
    let data = vec![0x00u8, 0x83, 0x00];
    let r = NesProgram::parse(&data, 3);
    assert_eq!(
        r.unwrap_err(),
        ProgramParseError::InvalidEncoding { byte: 0x83, position: 1 }
    );
}

#[test]
fn test_addresses_increase_by_encoded_size() {
    // One two-byte, one three-byte and one one-byte instruction: the
    // rendered addresses step by exactly those sizes.
    let data = vec![0xa9u8, 0x01, 0x4c, 0x00, 0x80, 0xe8];
    let program = NesProgram::parse(&data, 6).unwrap();
    assert_eq!(
        program.to_source_string(6),
        "$8000    LDA   #$01\n$8002    JMP   $8000\n$8005    INX"
    );
}

#[test]
fn test_little_endian_operand_order() {
    let data = vec![0xadu8, 0x34, 0x12];
    let program = NesProgram::parse(&data, 3).unwrap();
    assert_eq!(program.to_source_string(3), "$8000    LDA   $1234");
}

#[test]
fn test_empty_program_renders_empty() {
    let data: Vec<u8> = vec![];
    let program = NesProgram::parse(&data, 0).unwrap();
    assert_eq!(program.operations.len(), 0);
    assert_eq!(program.to_source_string(0), "");
}

#[test]
fn test_address_width_grows_with_total_size() {
    // A total size that pushes the highest address past $ffff widens
    // every address field to five digits.
    let data = vec![0x00u8];
    let program = NesProgram::parse(&data, 1).unwrap();
    assert_eq!(program.to_source_string(0x8001), "$08000    BRK");
}
