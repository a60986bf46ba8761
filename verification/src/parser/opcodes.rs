//! The opcode classification table: a total map from every byte value to
//! a mnemonic and the addressing-mode subset it may take, and the decoder
//! that reads one whole instruction from the byte stream.

use vstd::prelude::*;
use vstd::string::StringExecFns;
use crate::parser::{ProgramParseError, with_int_pos};
use crate::parser::address_mode::{
    AddressMode,
    AddrModeAHX, AddrModeAbs, AddrModeAbsInd,
    AddrModeAbsX, AddrModeAbsY, AddrModeImmediate,
    AddrModeLAX, AddrModeNoZeropageY, AddrModeNoZeropageYNoImm,
    AddrModeRelative, AddrModeSTX, AddrModeSTY,
    AddrModeSimple, AddrModeSimpleOrImm, AddrModeSimpleX,
    AddrModeSimpleXAcc, AddrModeSimpleXImm, AddrModeSimpleYImm,
};

verus! {

/// The symbolic instruction names: the official 6502 mnemonics, the
/// undocumented ones with stable behaviour, and `STP` for the remaining
/// slots, which halt the CPU.
#[derive(Debug, Clone, Copy, PartialEq, Eq, Structural)]
pub enum Mnemonic {
    ADC, AND, ASL, BCC, BCS, BEQ, BIT, BMI,
    BNE, BPL, BRK, BVC, BVS, CLC, CLD, CLI,
    CLV, CMP, CPX, CPY, DEC, DEX, DEY, EOR,
    INC, INX, INY, JMP, JSR, LDA, LDX, LDY,
    LSR, NOP, ORA, PHA, PHP, PLA, PLP, ROL,
    ROR, RTI, RTS, SBC, SEC, SED, SEI, STA,
    STX, STY, TAX, TAY, TSX, TXA, TXS, TYA,
    AHX, ALR, ANC, ARR, AXS, DCP, ISC, LAS,
    LAX, LXA, RLA, RRA, SAX, SHX, SHY, SLO,
    SRE, TAS, XAA, STP,
}

/// Row `0x0_` of the opcode matrix.
pub open spec fn opcode_row_0(b: u8) -> Mnemonic {
    if b == 0x00 {
        Mnemonic::BRK
    } else if b == 0x01 {
        Mnemonic::ORA
    } else if b == 0x02 {
        Mnemonic::STP
    } else if b == 0x03 {
        Mnemonic::SLO
    } else if b == 0x04 {
        Mnemonic::NOP
    } else if b == 0x05 {
        Mnemonic::ORA
    } else if b == 0x06 {
        Mnemonic::ASL
    } else if b == 0x07 {
        Mnemonic::SLO
    } else if b == 0x08 {
        Mnemonic::PHP
    } else if b == 0x09 {
        Mnemonic::ORA
    } else if b == 0x0a {
        Mnemonic::ASL
    } else if b == 0x0b {
        Mnemonic::ANC
    } else if b == 0x0c {
        Mnemonic::NOP
    } else if b == 0x0d {
        Mnemonic::ORA
    } else if b == 0x0e {
        Mnemonic::ASL
    } else {
        Mnemonic::SLO
    }
}

/// Row `0x1_` of the opcode matrix.
pub open spec fn opcode_row_1(b: u8) -> Mnemonic {
    if b == 0x10 {
        Mnemonic::BPL
    } else if b == 0x11 {
        Mnemonic::ORA
    } else if b == 0x12 {
        Mnemonic::STP
    } else if b == 0x13 {
        Mnemonic::SLO
    } else if b == 0x14 {
        Mnemonic::NOP
    } else if b == 0x15 {
        Mnemonic::ORA
    } else if b == 0x16 {
        Mnemonic::ASL
    } else if b == 0x17 {
        Mnemonic::SLO
    } else if b == 0x18 {
        Mnemonic::CLC
    } else if b == 0x19 {
        Mnemonic::ORA
    } else if b == 0x1a {
        Mnemonic::NOP
    } else if b == 0x1b {
        Mnemonic::SLO
    } else if b == 0x1c {
        Mnemonic::NOP
    } else if b == 0x1d {
        Mnemonic::ORA
    } else if b == 0x1e {
        Mnemonic::ASL
    } else {
        Mnemonic::SLO
    }
}

/// Row `0x2_` of the opcode matrix.
pub open spec fn opcode_row_2(b: u8) -> Mnemonic {
    if b == 0x20 {
        Mnemonic::JSR
    } else if b == 0x21 {
        Mnemonic::AND
    } else if b == 0x22 {
        Mnemonic::STP
    } else if b == 0x23 {
        Mnemonic::RLA
    } else if b == 0x24 {
        Mnemonic::BIT
    } else if b == 0x25 {
        Mnemonic::AND
    } else if b == 0x26 {
        Mnemonic::ROL
    } else if b == 0x27 {
        Mnemonic::RLA
    } else if b == 0x28 {
        Mnemonic::PLP
    } else if b == 0x29 {
        Mnemonic::AND
    } else if b == 0x2a {
        Mnemonic::ROL
    } else if b == 0x2b {
        Mnemonic::ANC
    } else if b == 0x2c {
        Mnemonic::BIT
    } else if b == 0x2d {
        Mnemonic::AND
    } else if b == 0x2e {
        Mnemonic::ROL
    } else {
        Mnemonic::RLA
    }
}

/// Row `0x3_` of the opcode matrix.
pub open spec fn opcode_row_3(b: u8) -> Mnemonic {
    if b == 0x30 {
        Mnemonic::BMI
    } else if b == 0x31 {
        Mnemonic::AND
    } else if b == 0x32 {
        Mnemonic::STP
    } else if b == 0x33 {
        Mnemonic::RLA
    } else if b == 0x34 {
        Mnemonic::NOP
    } else if b == 0x35 {
        Mnemonic::AND
    } else if b == 0x36 {
        Mnemonic::ROL
    } else if b == 0x37 {
        Mnemonic::RLA
    } else if b == 0x38 {
        Mnemonic::SEC
    } else if b == 0x39 {
        Mnemonic::AND
    } else if b == 0x3a {
        Mnemonic::NOP
    } else if b == 0x3b {
        Mnemonic::RLA
    } else if b == 0x3c {
        Mnemonic::NOP
    } else if b == 0x3d {
        Mnemonic::AND
    } else if b == 0x3e {
        Mnemonic::ROL
    } else {
        Mnemonic::RLA
    }
}

/// Row `0x4_` of the opcode matrix.
pub open spec fn opcode_row_4(b: u8) -> Mnemonic {
    if b == 0x40 {
        Mnemonic::RTI
    } else if b == 0x41 {
        Mnemonic::EOR
    } else if b == 0x42 {
        Mnemonic::STP
    } else if b == 0x43 {
        Mnemonic::SRE
    } else if b == 0x44 {
        Mnemonic::NOP
    } else if b == 0x45 {
        Mnemonic::EOR
    } else if b == 0x46 {
        Mnemonic::LSR
    } else if b == 0x47 {
        Mnemonic::SRE
    } else if b == 0x48 {
        Mnemonic::PHA
    } else if b == 0x49 {
        Mnemonic::EOR
    } else if b == 0x4a {
        Mnemonic::LSR
    } else if b == 0x4b {
        Mnemonic::ALR
    } else if b == 0x4c {
        Mnemonic::JMP
    } else if b == 0x4d {
        Mnemonic::EOR
    } else if b == 0x4e {
        Mnemonic::LSR
    } else {
        Mnemonic::SRE
    }
}

/// Row `0x5_` of the opcode matrix.
pub open spec fn opcode_row_5(b: u8) -> Mnemonic {
    if b == 0x50 {
        Mnemonic::BVC
    } else if b == 0x51 {
        Mnemonic::EOR
    } else if b == 0x52 {
        Mnemonic::STP
    } else if b == 0x53 {
        Mnemonic::SRE
    } else if b == 0x54 {
        Mnemonic::NOP
    } else if b == 0x55 {
        Mnemonic::EOR
    } else if b == 0x56 {
        Mnemonic::LSR
    } else if b == 0x57 {
        Mnemonic::SRE
    } else if b == 0x58 {
        Mnemonic::CLI
    } else if b == 0x59 {
        Mnemonic::EOR
    } else if b == 0x5a {
        Mnemonic::NOP
    } else if b == 0x5b {
        Mnemonic::SRE
    } else if b == 0x5c {
        Mnemonic::NOP
    } else if b == 0x5d {
        Mnemonic::EOR
    } else if b == 0x5e {
        Mnemonic::LSR
    } else {
        Mnemonic::SRE
    }
}

/// Row `0x6_` of the opcode matrix.
pub open spec fn opcode_row_6(b: u8) -> Mnemonic {
    if b == 0x60 {
        Mnemonic::RTS
    } else if b == 0x61 {
        Mnemonic::ADC
    } else if b == 0x62 {
        Mnemonic::STP
    } else if b == 0x63 {
        Mnemonic::RRA
    } else if b == 0x64 {
        Mnemonic::NOP
    } else if b == 0x65 {
        Mnemonic::ADC
    } else if b == 0x66 {
        Mnemonic::ROR
    } else if b == 0x67 {
        Mnemonic::RRA
    } else if b == 0x68 {
        Mnemonic::PLA
    } else if b == 0x69 {
        Mnemonic::ADC
    } else if b == 0x6a {
        Mnemonic::ROR
    } else if b == 0x6b {
        Mnemonic::ARR
    } else if b == 0x6c {
        Mnemonic::JMP
    } else if b == 0x6d {
        Mnemonic::ADC
    } else if b == 0x6e {
        Mnemonic::ROR
    } else {
        Mnemonic::RRA
    }
}

/// Row `0x7_` of the opcode matrix.
pub open spec fn opcode_row_7(b: u8) -> Mnemonic {
    if b == 0x70 {
        Mnemonic::BVS
    } else if b == 0x71 {
        Mnemonic::ADC
    } else if b == 0x72 {
        Mnemonic::STP
    } else if b == 0x73 {
        Mnemonic::RRA
    } else if b == 0x74 {
        Mnemonic::NOP
    } else if b == 0x75 {
        Mnemonic::ADC
    } else if b == 0x76 {
        Mnemonic::ROR
    } else if b == 0x77 {
        Mnemonic::RRA
    } else if b == 0x78 {
        Mnemonic::SEI
    } else if b == 0x79 {
        Mnemonic::ADC
    } else if b == 0x7a {
        Mnemonic::NOP
    } else if b == 0x7b {
        Mnemonic::RRA
    } else if b == 0x7c {
        Mnemonic::NOP
    } else if b == 0x7d {
        Mnemonic::ADC
    } else if b == 0x7e {
        Mnemonic::ROR
    } else {
        Mnemonic::RRA
    }
}

/// Row `0x8_` of the opcode matrix.
pub open spec fn opcode_row_8(b: u8) -> Mnemonic {
    if b == 0x80 {
        Mnemonic::NOP
    } else if b == 0x81 {
        Mnemonic::STA
    } else if b == 0x82 {
        Mnemonic::NOP
    } else if b == 0x83 {
        Mnemonic::SAX
    } else if b == 0x84 {
        Mnemonic::STY
    } else if b == 0x85 {
        Mnemonic::STA
    } else if b == 0x86 {
        Mnemonic::STX
    } else if b == 0x87 {
        Mnemonic::SAX
    } else if b == 0x88 {
        Mnemonic::DEY
    } else if b == 0x89 {
        Mnemonic::NOP
    } else if b == 0x8a {
        Mnemonic::TXA
    } else if b == 0x8b {
        Mnemonic::XAA
    } else if b == 0x8c {
        Mnemonic::STY
    } else if b == 0x8d {
        Mnemonic::STA
    } else if b == 0x8e {
        Mnemonic::STX
    } else {
        Mnemonic::SAX
    }
}

/// Row `0x9_` of the opcode matrix.
pub open spec fn opcode_row_9(b: u8) -> Mnemonic {
    if b == 0x90 {
        Mnemonic::BCC
    } else if b == 0x91 {
        Mnemonic::STA
    } else if b == 0x92 {
        Mnemonic::STP
    } else if b == 0x93 {
        Mnemonic::AHX
    } else if b == 0x94 {
        Mnemonic::STY
    } else if b == 0x95 {
        Mnemonic::STA
    } else if b == 0x96 {
        Mnemonic::STX
    } else if b == 0x97 {
        Mnemonic::SAX
    } else if b == 0x98 {
        Mnemonic::TYA
    } else if b == 0x99 {
        Mnemonic::STA
    } else if b == 0x9a {
        Mnemonic::TXS
    } else if b == 0x9b {
        Mnemonic::TAS
    } else if b == 0x9c {
        Mnemonic::SHY
    } else if b == 0x9d {
        Mnemonic::STA
    } else if b == 0x9e {
        Mnemonic::SHX
    } else {
        Mnemonic::AHX
    }
}

/// Row `0xa_` of the opcode matrix.
pub open spec fn opcode_row_a(b: u8) -> Mnemonic {
    if b == 0xa0 {
        Mnemonic::LDY
    } else if b == 0xa1 {
        Mnemonic::LDA
    } else if b == 0xa2 {
        Mnemonic::LDX
    } else if b == 0xa3 {
        Mnemonic::LAX
    } else if b == 0xa4 {
        Mnemonic::LDY
    } else if b == 0xa5 {
        Mnemonic::LDA
    } else if b == 0xa6 {
        Mnemonic::LDX
    } else if b == 0xa7 {
        Mnemonic::LAX
    } else if b == 0xa8 {
        Mnemonic::TAY
    } else if b == 0xa9 {
        Mnemonic::LDA
    } else if b == 0xaa {
        Mnemonic::TAX
    } else if b == 0xab {
        Mnemonic::LXA
    } else if b == 0xac {
        Mnemonic::LDY
    } else if b == 0xad {
        Mnemonic::LDA
    } else if b == 0xae {
        Mnemonic::LDX
    } else {
        Mnemonic::LAX
    }
}

/// Row `0xb_` of the opcode matrix.
pub open spec fn opcode_row_b(b: u8) -> Mnemonic {
    if b == 0xb0 {
        Mnemonic::BCS
    } else if b == 0xb1 {
        Mnemonic::LDA
    } else if b == 0xb2 {
        Mnemonic::STP
    } else if b == 0xb3 {
        Mnemonic::LAX
    } else if b == 0xb4 {
        Mnemonic::LDY
    } else if b == 0xb5 {
        Mnemonic::LDA
    } else if b == 0xb6 {
        Mnemonic::LDX
    } else if b == 0xb7 {
        Mnemonic::LAX
    } else if b == 0xb8 {
        Mnemonic::CLV
    } else if b == 0xb9 {
        Mnemonic::LDA
    } else if b == 0xba {
        Mnemonic::TSX
    } else if b == 0xbb {
        Mnemonic::LAS
    } else if b == 0xbc {
        Mnemonic::LDY
    } else if b == 0xbd {
        Mnemonic::LDA
    } else if b == 0xbe {
        Mnemonic::LDX
    } else {
        Mnemonic::LAX
    }
}

/// Row `0xc_` of the opcode matrix.
pub open spec fn opcode_row_c(b: u8) -> Mnemonic {
    if b == 0xc0 {
        Mnemonic::CPY
    } else if b == 0xc1 {
        Mnemonic::CMP
    } else if b == 0xc2 {
        Mnemonic::NOP
    } else if b == 0xc3 {
        Mnemonic::DCP
    } else if b == 0xc4 {
        Mnemonic::CPY
    } else if b == 0xc5 {
        Mnemonic::CMP
    } else if b == 0xc6 {
        Mnemonic::DEC
    } else if b == 0xc7 {
        Mnemonic::DCP
    } else if b == 0xc8 {
        Mnemonic::INY
    } else if b == 0xc9 {
        Mnemonic::CMP
    } else if b == 0xca {
        Mnemonic::DEX
    } else if b == 0xcb {
        Mnemonic::AXS
    } else if b == 0xcc {
        Mnemonic::CPY
    } else if b == 0xcd {
        Mnemonic::CMP
    } else if b == 0xce {
        Mnemonic::DEC
    } else {
        Mnemonic::DCP
    }
}

/// Row `0xd_` of the opcode matrix.
pub open spec fn opcode_row_d(b: u8) -> Mnemonic {
    if b == 0xd0 {
        Mnemonic::BNE
    } else if b == 0xd1 {
        Mnemonic::CMP
    } else if b == 0xd2 {
        Mnemonic::STP
    } else if b == 0xd3 {
        Mnemonic::DCP
    } else if b == 0xd4 {
        Mnemonic::NOP
    } else if b == 0xd5 {
        Mnemonic::CMP
    } else if b == 0xd6 {
        Mnemonic::DEC
    } else if b == 0xd7 {
        Mnemonic::DCP
    } else if b == 0xd8 {
        Mnemonic::CLD
    } else if b == 0xd9 {
        Mnemonic::CMP
    } else if b == 0xda {
        Mnemonic::NOP
    } else if b == 0xdb {
        Mnemonic::DCP
    } else if b == 0xdc {
        Mnemonic::NOP
    } else if b == 0xdd {
        Mnemonic::CMP
    } else if b == 0xde {
        Mnemonic::DEC
    } else {
        Mnemonic::DCP
    }
}

/// Row `0xe_` of the opcode matrix.
pub open spec fn opcode_row_e(b: u8) -> Mnemonic {
    if b == 0xe0 {
        Mnemonic::CPX
    } else if b == 0xe1 {
        Mnemonic::SBC
    } else if b == 0xe2 {
        Mnemonic::NOP
    } else if b == 0xe3 {
        Mnemonic::ISC
    } else if b == 0xe4 {
        Mnemonic::CPX
    } else if b == 0xe5 {
        Mnemonic::SBC
    } else if b == 0xe6 {
        Mnemonic::INC
    } else if b == 0xe7 {
        Mnemonic::ISC
    } else if b == 0xe8 {
        Mnemonic::INX
    } else if b == 0xe9 {
        Mnemonic::SBC
    } else if b == 0xea {
        Mnemonic::NOP
    } else if b == 0xeb {
        Mnemonic::SBC
    } else if b == 0xec {
        Mnemonic::CPX
    } else if b == 0xed {
        Mnemonic::SBC
    } else if b == 0xee {
        Mnemonic::INC
    } else {
        Mnemonic::ISC
    }
}

/// Row `0xf_` of the opcode matrix.
pub open spec fn opcode_row_f(b: u8) -> Mnemonic {
    if b == 0xf0 {
        Mnemonic::BEQ
    } else if b == 0xf1 {
        Mnemonic::SBC
    } else if b == 0xf2 {
        Mnemonic::STP
    } else if b == 0xf3 {
        Mnemonic::ISC
    } else if b == 0xf4 {
        Mnemonic::NOP
    } else if b == 0xf5 {
        Mnemonic::SBC
    } else if b == 0xf6 {
        Mnemonic::INC
    } else if b == 0xf7 {
        Mnemonic::ISC
    } else if b == 0xf8 {
        Mnemonic::SED
    } else if b == 0xf9 {
        Mnemonic::SBC
    } else if b == 0xfa {
        Mnemonic::NOP
    } else if b == 0xfb {
        Mnemonic::ISC
    } else if b == 0xfc {
        Mnemonic::NOP
    } else if b == 0xfd {
        Mnemonic::SBC
    } else if b == 0xfe {
        Mnemonic::INC
    } else {
        Mnemonic::ISC
    }
}

/// The canonical opcode matrix: a total map from the opcode byte to its
/// mnemonic, documented and undocumented slots alike. It is data, not
/// logic, and is checked byte for byte against the reference matrix by
/// an exhaustive test.
pub open spec fn opcode_mnemonic(b: u8) -> Mnemonic {
    if b < 0x10 {
        opcode_row_0(b)
    } else if b < 0x20 {
        opcode_row_1(b)
    } else if b < 0x30 {
        opcode_row_2(b)
    } else if b < 0x40 {
        opcode_row_3(b)
    } else if b < 0x50 {
        opcode_row_4(b)
    } else if b < 0x60 {
        opcode_row_5(b)
    } else if b < 0x70 {
        opcode_row_6(b)
    } else if b < 0x80 {
        opcode_row_7(b)
    } else if b < 0x90 {
        opcode_row_8(b)
    } else if b < 0xa0 {
        opcode_row_9(b)
    } else if b < 0xb0 {
        opcode_row_a(b)
    } else if b < 0xc0 {
        opcode_row_b(b)
    } else if b < 0xd0 {
        opcode_row_c(b)
    } else if b < 0xe0 {
        opcode_row_d(b)
    } else if b < 0xf0 {
        opcode_row_e(b)
    } else {
        opcode_row_f(b)
    }
}
/// An instruction: a mnemonic together with the operand it was decoded
/// with, held in the restricted addressing-mode subset that the mnemonic
/// allows, so that an ill-matched pairing cannot be represented.
#[derive(Debug, Clone, Copy, PartialEq, Eq, Structural)]
pub enum Opcode {
    /// add with carry
    ADC(AddrModeNoZeropageY),
    /// and (with accumulator)
    AND(AddrModeNoZeropageY),
    /// arithmetic shift left
    ASL(AddrModeSimpleXAcc),
    /// branch on carry clear
    BCC(AddrModeRelative),
    /// branch on carry set
    BCS(AddrModeRelative),
    /// branch on equal (zero set)
    BEQ(AddrModeRelative),
    /// bit test
    BIT(AddrModeSimple),
    /// branch on minus (negative set)
    BMI(AddrModeRelative),
    /// branch on not equal (zero clear)
    BNE(AddrModeRelative),
    /// branch on plus (negative clear)
    BPL(AddrModeRelative),
    /// break / interrupt
    BRK,
    /// branch on overflow clear
    BVC(AddrModeRelative),
    /// branch on overflow set
    BVS(AddrModeRelative),
    /// clear carry
    CLC,
    /// clear decimal
    CLD,
    /// clear interrupt disable
    CLI,
    /// clear overflow
    CLV,
    /// compare (with accumulator)
    CMP(AddrModeNoZeropageY),
    /// compare with X
    CPX(AddrModeSimpleOrImm),
    /// compare with Y
    CPY(AddrModeSimpleOrImm),
    /// decrement
    DEC(AddrModeSimpleX),
    /// decrement X
    DEX,
    /// decrement Y
    DEY,
    /// exclusive or (with accumulator)
    EOR(AddrModeNoZeropageY),
    /// increment
    INC(AddrModeSimpleX),
    /// increment X
    INX,
    /// increment Y
    INY,
    /// jump
    JMP(AddrModeAbsInd),
    /// jump subroutine
    JSR(AddrModeAbs),
    /// load accumulator
    LDA(AddrModeNoZeropageY),
    /// load X
    LDX(AddrModeSimpleYImm),
    /// load Y
    LDY(AddrModeSimpleXImm),
    /// logical shift right
    LSR(AddrModeSimpleXAcc),
    /// no operation
    NOP,
    /// or with accumulator
    ORA(AddrModeNoZeropageY),
    /// push accumulator
    PHA,
    /// push processor status (SR)
    PHP,
    /// pull accumulator
    PLA,
    /// pull processor status (SR)
    PLP,
    /// rotate left
    ROL(AddrModeSimpleXAcc),
    /// rotate right
    ROR(AddrModeSimpleXAcc),
    /// return from interrupt
    RTI,
    /// return from subroutine
    RTS,
    /// subtract with carry
    SBC(AddrModeNoZeropageY),
    /// set carry
    SEC,
    /// set decimal
    SED,
    /// set interrupt disable
    SEI,
    /// store accumulator
    STA(AddrModeNoZeropageYNoImm),
    /// store X
    STX(AddrModeSTX),
    /// store Y
    STY(AddrModeSTY),
    /// transfer accumulator to X
    TAX,
    /// transfer accumulator to Y
    TAY,
    /// transfer stack pointer to X
    TSX,
    /// transfer X to accumulator
    TXA,
    /// transfer X to stack pointer
    TXS,
    /// transfer Y to accumulator
    TYA,
    /// stores A AND X AND (high byte of the address + 1); also known as SHA or AXA
    AHX(AddrModeAHX),
    /// AND, then logical shift right
    ALR(AddrModeImmediate),
    /// AND, with bit 7 copied to carry
    ANC(AddrModeImmediate),
    /// AND, then rotate right
    ARR(AddrModeImmediate),
    /// CMP and DEX at once, setting flags like CMP; also known as SBX
    AXS(AddrModeImmediate),
    /// DEC, then CMP
    DCP(AddrModeNoZeropageYNoImm),
    /// INC, then SBC
    ISC(AddrModeNoZeropageYNoImm),
    /// memory AND stack pointer, into A, X and the stack pointer
    LAS(AddrModeAbsY),
    /// LDA and LDX at once
    LAX(AddrModeLAX),
    /// (A OR magic) AND operand, into A and X
    LXA(AddrModeImmediate),
    /// rotate left, then AND
    RLA(AddrModeNoZeropageYNoImm),
    /// rotate right, then ADC
    RRA(AddrModeNoZeropageYNoImm),
    /// stores A AND X; also known as AAX
    ///
    /// The table pairs this mnemonic with the immediate-only mode subset,
    /// although the operation is conventionally a store with memory
    /// addressing. None of its four opcode slots (`0x83`, `0x87`, `0x8f`,
    /// `0x97`) matches an immediate rule, so each of them decodes to an
    /// `InvalidEncoding` error. That mismatch is a known defect of this
    /// table, kept deliberately rather than silently corrected: fixing
    /// it would change which bytes decode.
    SAX(AddrModeImmediate),
    /// stores X AND (high byte of the address + 1)
    SHX(AddrModeAbsY),
    /// stores Y AND (high byte of the address + 1)
    SHY(AddrModeAbsX),
    /// arithmetic shift left, then ORA
    SLO(AddrModeNoZeropageYNoImm),
    /// logical shift right, then EOR
    SRE(AddrModeNoZeropageYNoImm),
    /// A AND X into the stack pointer, and stored AND the high byte + 1
    TAS(AddrModeAbsY),
    /// (A OR magic) AND X AND operand, into A; also known as ANE
    XAA(AddrModeImmediate),
    /// stops the processor: the slots that jam the CPU
    STP,
}

/// Wraps a decoded restricted operand into its instruction, keeping the
/// cursor position and passing a decode error through.
pub open spec fn spec_wrap<T>(
    r: Result<(T, int), ProgramParseError>,
    f: spec_fn(T) -> Opcode,
) -> Result<(Opcode, int), ProgramParseError> {
    match r {
        Ok((m, p)) => Ok((f(m), p)),
        Err(e) => Err(e),
    }
}

/// The whole encoded size of the instruction that `b` begins, opcode
/// byte included, or `None` for the byte whose mnemonic accepts none of
/// the addressing-mode rules (the table's SAX defect, see `Opcode`).
pub open spec fn spec_byte_cost(b: u8) -> Option<int> {
    match opcode_mnemonic(b) {
        Mnemonic::ADC => match AddrModeNoZeropageY::spec_needed(b) {
            Some(sz) => Some(1 + sz),
            None => None,
        },
        Mnemonic::AND => match AddrModeNoZeropageY::spec_needed(b) {
            Some(sz) => Some(1 + sz),
            None => None,
        },
        Mnemonic::ASL => match AddrModeSimpleXAcc::spec_needed(b) {
            Some(sz) => Some(1 + sz),
            None => None,
        },
        Mnemonic::BCC => match AddrModeRelative::spec_needed(b) {
            Some(sz) => Some(1 + sz),
            None => None,
        },
        Mnemonic::BCS => match AddrModeRelative::spec_needed(b) {
            Some(sz) => Some(1 + sz),
            None => None,
        },
        Mnemonic::BEQ => match AddrModeRelative::spec_needed(b) {
            Some(sz) => Some(1 + sz),
            None => None,
        },
        Mnemonic::BIT => match AddrModeSimple::spec_needed(b) {
            Some(sz) => Some(1 + sz),
            None => None,
        },
        Mnemonic::BMI => match AddrModeRelative::spec_needed(b) {
            Some(sz) => Some(1 + sz),
            None => None,
        },
        Mnemonic::BNE => match AddrModeRelative::spec_needed(b) {
            Some(sz) => Some(1 + sz),
            None => None,
        },
        Mnemonic::BPL => match AddrModeRelative::spec_needed(b) {
            Some(sz) => Some(1 + sz),
            None => None,
        },
        Mnemonic::BRK => Some(1),
        Mnemonic::BVC => match AddrModeRelative::spec_needed(b) {
            Some(sz) => Some(1 + sz),
            None => None,
        },
        Mnemonic::BVS => match AddrModeRelative::spec_needed(b) {
            Some(sz) => Some(1 + sz),
            None => None,
        },
        Mnemonic::CLC => Some(1),
        Mnemonic::CLD => Some(1),
        Mnemonic::CLI => Some(1),
        Mnemonic::CLV => Some(1),
        Mnemonic::CMP => match AddrModeNoZeropageY::spec_needed(b) {
            Some(sz) => Some(1 + sz),
            None => None,
        },
        Mnemonic::CPX => match AddrModeSimpleOrImm::spec_needed(b) {
            Some(sz) => Some(1 + sz),
            None => None,
        },
        Mnemonic::CPY => match AddrModeSimpleOrImm::spec_needed(b) {
            Some(sz) => Some(1 + sz),
            None => None,
        },
        Mnemonic::DEC => match AddrModeSimpleX::spec_needed(b) {
            Some(sz) => Some(1 + sz),
            None => None,
        },
        Mnemonic::DEX => Some(1),
        Mnemonic::DEY => Some(1),
        Mnemonic::EOR => match AddrModeNoZeropageY::spec_needed(b) {
            Some(sz) => Some(1 + sz),
            None => None,
        },
        Mnemonic::INC => match AddrModeSimpleX::spec_needed(b) {
            Some(sz) => Some(1 + sz),
            None => None,
        },
        Mnemonic::INX => Some(1),
        Mnemonic::INY => Some(1),
        Mnemonic::JMP => match AddrModeAbsInd::spec_needed(b) {
            Some(sz) => Some(1 + sz),
            None => None,
        },
        Mnemonic::JSR => match AddrModeAbs::spec_needed(b) {
            Some(sz) => Some(1 + sz),
            None => None,
        },
        Mnemonic::LDA => match AddrModeNoZeropageY::spec_needed(b) {
            Some(sz) => Some(1 + sz),
            None => None,
        },
        Mnemonic::LDX => match AddrModeSimpleYImm::spec_needed(b) {
            Some(sz) => Some(1 + sz),
            None => None,
        },
        Mnemonic::LDY => match AddrModeSimpleXImm::spec_needed(b) {
            Some(sz) => Some(1 + sz),
            None => None,
        },
        Mnemonic::LSR => match AddrModeSimpleXAcc::spec_needed(b) {
            Some(sz) => Some(1 + sz),
            None => None,
        },
        Mnemonic::NOP => Some(1),
        Mnemonic::ORA => match AddrModeNoZeropageY::spec_needed(b) {
            Some(sz) => Some(1 + sz),
            None => None,
        },
        Mnemonic::PHA => Some(1),
        Mnemonic::PHP => Some(1),
        Mnemonic::PLA => Some(1),
        Mnemonic::PLP => Some(1),
        Mnemonic::ROL => match AddrModeSimpleXAcc::spec_needed(b) {
            Some(sz) => Some(1 + sz),
            None => None,
        },
        Mnemonic::ROR => match AddrModeSimpleXAcc::spec_needed(b) {
            Some(sz) => Some(1 + sz),
            None => None,
        },
        Mnemonic::RTI => Some(1),
        Mnemonic::RTS => Some(1),
        Mnemonic::SBC => match AddrModeNoZeropageY::spec_needed(b) {
            Some(sz) => Some(1 + sz),
            None => None,
        },
        Mnemonic::SEC => Some(1),
        Mnemonic::SED => Some(1),
        Mnemonic::SEI => Some(1),
        Mnemonic::STA => match AddrModeNoZeropageYNoImm::spec_needed(b) {
            Some(sz) => Some(1 + sz),
            None => None,
        },
        Mnemonic::STX => match AddrModeSTX::spec_needed(b) {
            Some(sz) => Some(1 + sz),
            None => None,
        },
        Mnemonic::STY => match AddrModeSTY::spec_needed(b) {
            Some(sz) => Some(1 + sz),
            None => None,
        },
        Mnemonic::TAX => Some(1),
        Mnemonic::TAY => Some(1),
        Mnemonic::TSX => Some(1),
        Mnemonic::TXA => Some(1),
        Mnemonic::TXS => Some(1),
        Mnemonic::TYA => Some(1),
        Mnemonic::AHX => match AddrModeAHX::spec_needed(b) {
            Some(sz) => Some(1 + sz),
            None => None,
        },
        Mnemonic::ALR => match AddrModeImmediate::spec_needed(b) {
            Some(sz) => Some(1 + sz),
            None => None,
        },
        Mnemonic::ANC => match AddrModeImmediate::spec_needed(b) {
            Some(sz) => Some(1 + sz),
            None => None,
        },
        Mnemonic::ARR => match AddrModeImmediate::spec_needed(b) {
            Some(sz) => Some(1 + sz),
            None => None,
        },
        Mnemonic::AXS => match AddrModeImmediate::spec_needed(b) {
            Some(sz) => Some(1 + sz),
            None => None,
        },
        Mnemonic::DCP => match AddrModeNoZeropageYNoImm::spec_needed(b) {
            Some(sz) => Some(1 + sz),
            None => None,
        },
        Mnemonic::ISC => match AddrModeNoZeropageYNoImm::spec_needed(b) {
            Some(sz) => Some(1 + sz),
            None => None,
        },
        Mnemonic::LAS => match AddrModeAbsY::spec_needed(b) {
            Some(sz) => Some(1 + sz),
            None => None,
        },
        Mnemonic::LAX => match AddrModeLAX::spec_needed(b) {
            Some(sz) => Some(1 + sz),
            None => None,
        },
        Mnemonic::LXA => match AddrModeImmediate::spec_needed(b) {
            Some(sz) => Some(1 + sz),
            None => None,
        },
        Mnemonic::RLA => match AddrModeNoZeropageYNoImm::spec_needed(b) {
            Some(sz) => Some(1 + sz),
            None => None,
        },
        Mnemonic::RRA => match AddrModeNoZeropageYNoImm::spec_needed(b) {
            Some(sz) => Some(1 + sz),
            None => None,
        },
        Mnemonic::SAX => match AddrModeImmediate::spec_needed(b) {
            Some(sz) => Some(1 + sz),
            None => None,
        },
        Mnemonic::SHX => match AddrModeAbsY::spec_needed(b) {
            Some(sz) => Some(1 + sz),
            None => None,
        },
        Mnemonic::SHY => match AddrModeAbsX::spec_needed(b) {
            Some(sz) => Some(1 + sz),
            None => None,
        },
        Mnemonic::SLO => match AddrModeNoZeropageYNoImm::spec_needed(b) {
            Some(sz) => Some(1 + sz),
            None => None,
        },
        Mnemonic::SRE => match AddrModeNoZeropageYNoImm::spec_needed(b) {
            Some(sz) => Some(1 + sz),
            None => None,
        },
        Mnemonic::TAS => match AddrModeAbsY::spec_needed(b) {
            Some(sz) => Some(1 + sz),
            None => None,
        },
        Mnemonic::XAA => match AddrModeImmediate::spec_needed(b) {
            Some(sz) => Some(1 + sz),
            None => None,
        },
        Mnemonic::STP => Some(1),
    }
}

impl Opcode {
    /// The mnemonic of this instruction.
    pub open spec fn spec_mnemonic(self) -> Mnemonic {
        match self {
            Opcode::ADC(_) => Mnemonic::ADC,
            Opcode::AND(_) => Mnemonic::AND,
            Opcode::ASL(_) => Mnemonic::ASL,
            Opcode::BCC(_) => Mnemonic::BCC,
            Opcode::BCS(_) => Mnemonic::BCS,
            Opcode::BEQ(_) => Mnemonic::BEQ,
            Opcode::BIT(_) => Mnemonic::BIT,
            Opcode::BMI(_) => Mnemonic::BMI,
            Opcode::BNE(_) => Mnemonic::BNE,
            Opcode::BPL(_) => Mnemonic::BPL,
            Opcode::BRK => Mnemonic::BRK,
            Opcode::BVC(_) => Mnemonic::BVC,
            Opcode::BVS(_) => Mnemonic::BVS,
            Opcode::CLC => Mnemonic::CLC,
            Opcode::CLD => Mnemonic::CLD,
            Opcode::CLI => Mnemonic::CLI,
            Opcode::CLV => Mnemonic::CLV,
            Opcode::CMP(_) => Mnemonic::CMP,
            Opcode::CPX(_) => Mnemonic::CPX,
            Opcode::CPY(_) => Mnemonic::CPY,
            Opcode::DEC(_) => Mnemonic::DEC,
            Opcode::DEX => Mnemonic::DEX,
            Opcode::DEY => Mnemonic::DEY,
            Opcode::EOR(_) => Mnemonic::EOR,
            Opcode::INC(_) => Mnemonic::INC,
            Opcode::INX => Mnemonic::INX,
            Opcode::INY => Mnemonic::INY,
            Opcode::JMP(_) => Mnemonic::JMP,
            Opcode::JSR(_) => Mnemonic::JSR,
            Opcode::LDA(_) => Mnemonic::LDA,
            Opcode::LDX(_) => Mnemonic::LDX,
            Opcode::LDY(_) => Mnemonic::LDY,
            Opcode::LSR(_) => Mnemonic::LSR,
            Opcode::NOP => Mnemonic::NOP,
            Opcode::ORA(_) => Mnemonic::ORA,
            Opcode::PHA => Mnemonic::PHA,
            Opcode::PHP => Mnemonic::PHP,
            Opcode::PLA => Mnemonic::PLA,
            Opcode::PLP => Mnemonic::PLP,
            Opcode::ROL(_) => Mnemonic::ROL,
            Opcode::ROR(_) => Mnemonic::ROR,
            Opcode::RTI => Mnemonic::RTI,
            Opcode::RTS => Mnemonic::RTS,
            Opcode::SBC(_) => Mnemonic::SBC,
            Opcode::SEC => Mnemonic::SEC,
            Opcode::SED => Mnemonic::SED,
            Opcode::SEI => Mnemonic::SEI,
            Opcode::STA(_) => Mnemonic::STA,
            Opcode::STX(_) => Mnemonic::STX,
            Opcode::STY(_) => Mnemonic::STY,
            Opcode::TAX => Mnemonic::TAX,
            Opcode::TAY => Mnemonic::TAY,
            Opcode::TSX => Mnemonic::TSX,
            Opcode::TXA => Mnemonic::TXA,
            Opcode::TXS => Mnemonic::TXS,
            Opcode::TYA => Mnemonic::TYA,
            Opcode::AHX(_) => Mnemonic::AHX,
            Opcode::ALR(_) => Mnemonic::ALR,
            Opcode::ANC(_) => Mnemonic::ANC,
            Opcode::ARR(_) => Mnemonic::ARR,
            Opcode::AXS(_) => Mnemonic::AXS,
            Opcode::DCP(_) => Mnemonic::DCP,
            Opcode::ISC(_) => Mnemonic::ISC,
            Opcode::LAS(_) => Mnemonic::LAS,
            Opcode::LAX(_) => Mnemonic::LAX,
            Opcode::LXA(_) => Mnemonic::LXA,
            Opcode::RLA(_) => Mnemonic::RLA,
            Opcode::RRA(_) => Mnemonic::RRA,
            Opcode::SAX(_) => Mnemonic::SAX,
            Opcode::SHX(_) => Mnemonic::SHX,
            Opcode::SHY(_) => Mnemonic::SHY,
            Opcode::SLO(_) => Mnemonic::SLO,
            Opcode::SRE(_) => Mnemonic::SRE,
            Opcode::TAS(_) => Mnemonic::TAS,
            Opcode::XAA(_) => Mnemonic::XAA,
            Opcode::STP => Mnemonic::STP,
        }
    }

    /// The operand, widened to the unrestricted mode set; `None` for an
    /// instruction of the opcode byte alone.
    pub open spec fn spec_argument(self) -> Option<AddressMode> {
        match self {
            Opcode::ADC(m) => Some(m.spec_to_address_mode()),
            Opcode::AND(m) => Some(m.spec_to_address_mode()),
            Opcode::ASL(m) => Some(m.spec_to_address_mode()),
            Opcode::BCC(m) => Some(m.spec_to_address_mode()),
            Opcode::BCS(m) => Some(m.spec_to_address_mode()),
            Opcode::BEQ(m) => Some(m.spec_to_address_mode()),
            Opcode::BIT(m) => Some(m.spec_to_address_mode()),
            Opcode::BMI(m) => Some(m.spec_to_address_mode()),
            Opcode::BNE(m) => Some(m.spec_to_address_mode()),
            Opcode::BPL(m) => Some(m.spec_to_address_mode()),
            Opcode::BRK => None,
            Opcode::BVC(m) => Some(m.spec_to_address_mode()),
            Opcode::BVS(m) => Some(m.spec_to_address_mode()),
            Opcode::CLC => None,
            Opcode::CLD => None,
            Opcode::CLI => None,
            Opcode::CLV => None,
            Opcode::CMP(m) => Some(m.spec_to_address_mode()),
            Opcode::CPX(m) => Some(m.spec_to_address_mode()),
            Opcode::CPY(m) => Some(m.spec_to_address_mode()),
            Opcode::DEC(m) => Some(m.spec_to_address_mode()),
            Opcode::DEX => None,
            Opcode::DEY => None,
            Opcode::EOR(m) => Some(m.spec_to_address_mode()),
            Opcode::INC(m) => Some(m.spec_to_address_mode()),
            Opcode::INX => None,
            Opcode::INY => None,
            Opcode::JMP(m) => Some(m.spec_to_address_mode()),
            Opcode::JSR(m) => Some(m.spec_to_address_mode()),
            Opcode::LDA(m) => Some(m.spec_to_address_mode()),
            Opcode::LDX(m) => Some(m.spec_to_address_mode()),
            Opcode::LDY(m) => Some(m.spec_to_address_mode()),
            Opcode::LSR(m) => Some(m.spec_to_address_mode()),
            Opcode::NOP => None,
            Opcode::ORA(m) => Some(m.spec_to_address_mode()),
            Opcode::PHA => None,
            Opcode::PHP => None,
            Opcode::PLA => None,
            Opcode::PLP => None,
            Opcode::ROL(m) => Some(m.spec_to_address_mode()),
            Opcode::ROR(m) => Some(m.spec_to_address_mode()),
            Opcode::RTI => None,
            Opcode::RTS => None,
            Opcode::SBC(m) => Some(m.spec_to_address_mode()),
            Opcode::SEC => None,
            Opcode::SED => None,
            Opcode::SEI => None,
            Opcode::STA(m) => Some(m.spec_to_address_mode()),
            Opcode::STX(m) => Some(m.spec_to_address_mode()),
            Opcode::STY(m) => Some(m.spec_to_address_mode()),
            Opcode::TAX => None,
            Opcode::TAY => None,
            Opcode::TSX => None,
            Opcode::TXA => None,
            Opcode::TXS => None,
            Opcode::TYA => None,
            Opcode::AHX(m) => Some(m.spec_to_address_mode()),
            Opcode::ALR(m) => Some(m.spec_to_address_mode()),
            Opcode::ANC(m) => Some(m.spec_to_address_mode()),
            Opcode::ARR(m) => Some(m.spec_to_address_mode()),
            Opcode::AXS(m) => Some(m.spec_to_address_mode()),
            Opcode::DCP(m) => Some(m.spec_to_address_mode()),
            Opcode::ISC(m) => Some(m.spec_to_address_mode()),
            Opcode::LAS(m) => Some(m.spec_to_address_mode()),
            Opcode::LAX(m) => Some(m.spec_to_address_mode()),
            Opcode::LXA(m) => Some(m.spec_to_address_mode()),
            Opcode::RLA(m) => Some(m.spec_to_address_mode()),
            Opcode::RRA(m) => Some(m.spec_to_address_mode()),
            Opcode::SAX(m) => Some(m.spec_to_address_mode()),
            Opcode::SHX(m) => Some(m.spec_to_address_mode()),
            Opcode::SHY(m) => Some(m.spec_to_address_mode()),
            Opcode::SLO(m) => Some(m.spec_to_address_mode()),
            Opcode::SRE(m) => Some(m.spec_to_address_mode()),
            Opcode::TAS(m) => Some(m.spec_to_address_mode()),
            Opcode::XAA(m) => Some(m.spec_to_address_mode()),
            Opcode::STP => None,
        }
    }

    /// How many operand bytes the instruction carries after its opcode
    /// byte.
    pub open spec fn spec_arg_size(self) -> int {
        match self.spec_argument() {
            Some(m) => m.spec_size(),
            None => 0,
        }
    }

    /// The operand, widened to the unrestricted mode set.
    pub fn argument(&self) -> (r: Option<AddressMode>)
        ensures
            r == self.spec_argument(),
    {
        match self {
            Opcode::ADC(m) => Some(m.to_address_mode()),
            Opcode::AND(m) => Some(m.to_address_mode()),
            Opcode::ASL(m) => Some(m.to_address_mode()),
            Opcode::BCC(m) => Some(m.to_address_mode()),
            Opcode::BCS(m) => Some(m.to_address_mode()),
            Opcode::BEQ(m) => Some(m.to_address_mode()),
            Opcode::BIT(m) => Some(m.to_address_mode()),
            Opcode::BMI(m) => Some(m.to_address_mode()),
            Opcode::BNE(m) => Some(m.to_address_mode()),
            Opcode::BPL(m) => Some(m.to_address_mode()),
            Opcode::BRK => None,
            Opcode::BVC(m) => Some(m.to_address_mode()),
            Opcode::BVS(m) => Some(m.to_address_mode()),
            Opcode::CLC => None,
            Opcode::CLD => None,
            Opcode::CLI => None,
            Opcode::CLV => None,
            Opcode::CMP(m) => Some(m.to_address_mode()),
            Opcode::CPX(m) => Some(m.to_address_mode()),
            Opcode::CPY(m) => Some(m.to_address_mode()),
            Opcode::DEC(m) => Some(m.to_address_mode()),
            Opcode::DEX => None,
            Opcode::DEY => None,
            Opcode::EOR(m) => Some(m.to_address_mode()),
            Opcode::INC(m) => Some(m.to_address_mode()),
            Opcode::INX => None,
            Opcode::INY => None,
            Opcode::JMP(m) => Some(m.to_address_mode()),
            Opcode::JSR(m) => Some(m.to_address_mode()),
            Opcode::LDA(m) => Some(m.to_address_mode()),
            Opcode::LDX(m) => Some(m.to_address_mode()),
            Opcode::LDY(m) => Some(m.to_address_mode()),
            Opcode::LSR(m) => Some(m.to_address_mode()),
            Opcode::NOP => None,
            Opcode::ORA(m) => Some(m.to_address_mode()),
            Opcode::PHA => None,
            Opcode::PHP => None,
            Opcode::PLA => None,
            Opcode::PLP => None,
            Opcode::ROL(m) => Some(m.to_address_mode()),
            Opcode::ROR(m) => Some(m.to_address_mode()),
            Opcode::RTI => None,
            Opcode::RTS => None,
            Opcode::SBC(m) => Some(m.to_address_mode()),
            Opcode::SEC => None,
            Opcode::SED => None,
            Opcode::SEI => None,
            Opcode::STA(m) => Some(m.to_address_mode()),
            Opcode::STX(m) => Some(m.to_address_mode()),
            Opcode::STY(m) => Some(m.to_address_mode()),
            Opcode::TAX => None,
            Opcode::TAY => None,
            Opcode::TSX => None,
            Opcode::TXA => None,
            Opcode::TXS => None,
            Opcode::TYA => None,
            Opcode::AHX(m) => Some(m.to_address_mode()),
            Opcode::ALR(m) => Some(m.to_address_mode()),
            Opcode::ANC(m) => Some(m.to_address_mode()),
            Opcode::ARR(m) => Some(m.to_address_mode()),
            Opcode::AXS(m) => Some(m.to_address_mode()),
            Opcode::DCP(m) => Some(m.to_address_mode()),
            Opcode::ISC(m) => Some(m.to_address_mode()),
            Opcode::LAS(m) => Some(m.to_address_mode()),
            Opcode::LAX(m) => Some(m.to_address_mode()),
            Opcode::LXA(m) => Some(m.to_address_mode()),
            Opcode::RLA(m) => Some(m.to_address_mode()),
            Opcode::RRA(m) => Some(m.to_address_mode()),
            Opcode::SAX(m) => Some(m.to_address_mode()),
            Opcode::SHX(m) => Some(m.to_address_mode()),
            Opcode::SHY(m) => Some(m.to_address_mode()),
            Opcode::SLO(m) => Some(m.to_address_mode()),
            Opcode::SRE(m) => Some(m.to_address_mode()),
            Opcode::TAS(m) => Some(m.to_address_mode()),
            Opcode::XAA(m) => Some(m.to_address_mode()),
            Opcode::STP => None,
        }
    }

    /// The text of the mnemonic, as it appears in the listing.
    pub open spec fn spec_name_text(self) -> Seq<char> {
        match self {
            Opcode::ADC(_) => "ADC"@,
            Opcode::AND(_) => "AND"@,
            Opcode::ASL(_) => "ASL"@,
            Opcode::BCC(_) => "BCC"@,
            Opcode::BCS(_) => "BCS"@,
            Opcode::BEQ(_) => "BEQ"@,
            Opcode::BIT(_) => "BIT"@,
            Opcode::BMI(_) => "BMI"@,
            Opcode::BNE(_) => "BNE"@,
            Opcode::BPL(_) => "BPL"@,
            Opcode::BRK => "BRK"@,
            Opcode::BVC(_) => "BVC"@,
            Opcode::BVS(_) => "BVS"@,
            Opcode::CLC => "CLC"@,
            Opcode::CLD => "CLD"@,
            Opcode::CLI => "CLI"@,
            Opcode::CLV => "CLV"@,
            Opcode::CMP(_) => "CMP"@,
            Opcode::CPX(_) => "CPX"@,
            Opcode::CPY(_) => "CPY"@,
            Opcode::DEC(_) => "DEC"@,
            Opcode::DEX => "DEX"@,
            Opcode::DEY => "DEY"@,
            Opcode::EOR(_) => "EOR"@,
            Opcode::INC(_) => "INC"@,
            Opcode::INX => "INX"@,
            Opcode::INY => "INY"@,
            Opcode::JMP(_) => "JMP"@,
            Opcode::JSR(_) => "JSR"@,
            Opcode::LDA(_) => "LDA"@,
            Opcode::LDX(_) => "LDX"@,
            Opcode::LDY(_) => "LDY"@,
            Opcode::LSR(_) => "LSR"@,
            Opcode::NOP => "NOP"@,
            Opcode::ORA(_) => "ORA"@,
            Opcode::PHA => "PHA"@,
            Opcode::PHP => "PHP"@,
            Opcode::PLA => "PLA"@,
            Opcode::PLP => "PLP"@,
            Opcode::ROL(_) => "ROL"@,
            Opcode::ROR(_) => "ROR"@,
            Opcode::RTI => "RTI"@,
            Opcode::RTS => "RTS"@,
            Opcode::SBC(_) => "SBC"@,
            Opcode::SEC => "SEC"@,
            Opcode::SED => "SED"@,
            Opcode::SEI => "SEI"@,
            Opcode::STA(_) => "STA"@,
            Opcode::STX(_) => "STX"@,
            Opcode::STY(_) => "STY"@,
            Opcode::TAX => "TAX"@,
            Opcode::TAY => "TAY"@,
            Opcode::TSX => "TSX"@,
            Opcode::TXA => "TXA"@,
            Opcode::TXS => "TXS"@,
            Opcode::TYA => "TYA"@,
            Opcode::AHX(_) => "AHX"@,
            Opcode::ALR(_) => "ALR"@,
            Opcode::ANC(_) => "ANC"@,
            Opcode::ARR(_) => "ARR"@,
            Opcode::AXS(_) => "AXS"@,
            Opcode::DCP(_) => "DCP"@,
            Opcode::ISC(_) => "ISC"@,
            Opcode::LAS(_) => "LAS"@,
            Opcode::LAX(_) => "LAX"@,
            Opcode::LXA(_) => "LXA"@,
            Opcode::RLA(_) => "RLA"@,
            Opcode::RRA(_) => "RRA"@,
            Opcode::SAX(_) => "SAX"@,
            Opcode::SHX(_) => "SHX"@,
            Opcode::SHY(_) => "SHY"@,
            Opcode::SLO(_) => "SLO"@,
            Opcode::SRE(_) => "SRE"@,
            Opcode::TAS(_) => "TAS"@,
            Opcode::XAA(_) => "XAA"@,
            Opcode::STP => "STP"@,
        }
    }

    /// The name of the mnemonic, as it appears in the listing.
    pub fn variant_name(&self) -> (s: &str)
        ensures
            s@ == self.spec_name_text(),
    {
        match self {
            Opcode::ADC(_) => "ADC",
            Opcode::AND(_) => "AND",
            Opcode::ASL(_) => "ASL",
            Opcode::BCC(_) => "BCC",
            Opcode::BCS(_) => "BCS",
            Opcode::BEQ(_) => "BEQ",
            Opcode::BIT(_) => "BIT",
            Opcode::BMI(_) => "BMI",
            Opcode::BNE(_) => "BNE",
            Opcode::BPL(_) => "BPL",
            Opcode::BRK => "BRK",
            Opcode::BVC(_) => "BVC",
            Opcode::BVS(_) => "BVS",
            Opcode::CLC => "CLC",
            Opcode::CLD => "CLD",
            Opcode::CLI => "CLI",
            Opcode::CLV => "CLV",
            Opcode::CMP(_) => "CMP",
            Opcode::CPX(_) => "CPX",
            Opcode::CPY(_) => "CPY",
            Opcode::DEC(_) => "DEC",
            Opcode::DEX => "DEX",
            Opcode::DEY => "DEY",
            Opcode::EOR(_) => "EOR",
            Opcode::INC(_) => "INC",
            Opcode::INX => "INX",
            Opcode::INY => "INY",
            Opcode::JMP(_) => "JMP",
            Opcode::JSR(_) => "JSR",
            Opcode::LDA(_) => "LDA",
            Opcode::LDX(_) => "LDX",
            Opcode::LDY(_) => "LDY",
            Opcode::LSR(_) => "LSR",
            Opcode::NOP => "NOP",
            Opcode::ORA(_) => "ORA",
            Opcode::PHA => "PHA",
            Opcode::PHP => "PHP",
            Opcode::PLA => "PLA",
            Opcode::PLP => "PLP",
            Opcode::ROL(_) => "ROL",
            Opcode::ROR(_) => "ROR",
            Opcode::RTI => "RTI",
            Opcode::RTS => "RTS",
            Opcode::SBC(_) => "SBC",
            Opcode::SEC => "SEC",
            Opcode::SED => "SED",
            Opcode::SEI => "SEI",
            Opcode::STA(_) => "STA",
            Opcode::STX(_) => "STX",
            Opcode::STY(_) => "STY",
            Opcode::TAX => "TAX",
            Opcode::TAY => "TAY",
            Opcode::TSX => "TSX",
            Opcode::TXA => "TXA",
            Opcode::TXS => "TXS",
            Opcode::TYA => "TYA",
            Opcode::AHX(_) => "AHX",
            Opcode::ALR(_) => "ALR",
            Opcode::ANC(_) => "ANC",
            Opcode::ARR(_) => "ARR",
            Opcode::AXS(_) => "AXS",
            Opcode::DCP(_) => "DCP",
            Opcode::ISC(_) => "ISC",
            Opcode::LAS(_) => "LAS",
            Opcode::LAX(_) => "LAX",
            Opcode::LXA(_) => "LXA",
            Opcode::RLA(_) => "RLA",
            Opcode::RRA(_) => "RRA",
            Opcode::SAX(_) => "SAX",
            Opcode::SHX(_) => "SHX",
            Opcode::SHY(_) => "SHY",
            Opcode::SLO(_) => "SLO",
            Opcode::SRE(_) => "SRE",
            Opcode::TAS(_) => "TAS",
            Opcode::XAA(_) => "XAA",
            Opcode::STP => "STP",
        }
    }

    /// The text of one listing line after its address: the mnemonic,
    /// and for an instruction with an operand three spaces and the
    /// operand's canonical text.
    pub open spec fn spec_source_text(self) -> Seq<char> {
        match self.spec_argument() {
            Some(m) => self.spec_name_text() + "   "@ + m.spec_source_text(),
            None => self.spec_name_text(),
        }
    }

    /// Renders the instruction as `MNEMONIC` or `MNEMONIC   OPERAND`.
    pub fn to_source_string(&self) -> (s: String)
        ensures
            s@ == self.spec_source_text(),
    {
        let mut s = String::from_str(self.variant_name());
        if let Some(m) = self.argument() {
            s.append("   ");
            let operand = m.to_source_string();
            s.append(operand.as_str());
        }
        proof {
            assert(s@ =~= self.spec_source_text());
        }
        s
    }

    /// One step of the instruction decoder: the opcode byte at `pos` is
    /// classified by the matrix, and the addressing-mode subset of its
    /// mnemonic reads the operand behind it. An instruction never
    /// straddles `limit`: a truncated operand is an error, and a byte
    /// whose mnemonic accepts none of the rules reports the defect
    /// rather than guessing a mode.
    pub open spec fn spec_read_at(data: Seq<u8>, limit: int, pos: int) -> Result<
        (Opcode, int),
        ProgramParseError,
    >
        recommends
            0 <= pos < limit <= data.len(),
    {
        match opcode_mnemonic(data[pos]) {
            Mnemonic::ADC => spec_wrap(
                AddrModeNoZeropageY::spec_read(data, limit, pos),
                (|m: AddrModeNoZeropageY| Opcode::ADC(m)),
            ),
            Mnemonic::AND => spec_wrap(
                AddrModeNoZeropageY::spec_read(data, limit, pos),
                (|m: AddrModeNoZeropageY| Opcode::AND(m)),
            ),
            Mnemonic::ASL => spec_wrap(
                AddrModeSimpleXAcc::spec_read(data, limit, pos),
                (|m: AddrModeSimpleXAcc| Opcode::ASL(m)),
            ),
            Mnemonic::BCC => spec_wrap(
                AddrModeRelative::spec_read(data, limit, pos),
                (|m: AddrModeRelative| Opcode::BCC(m)),
            ),
            Mnemonic::BCS => spec_wrap(
                AddrModeRelative::spec_read(data, limit, pos),
                (|m: AddrModeRelative| Opcode::BCS(m)),
            ),
            Mnemonic::BEQ => spec_wrap(
                AddrModeRelative::spec_read(data, limit, pos),
                (|m: AddrModeRelative| Opcode::BEQ(m)),
            ),
            Mnemonic::BIT => spec_wrap(
                AddrModeSimple::spec_read(data, limit, pos),
                (|m: AddrModeSimple| Opcode::BIT(m)),
            ),
            Mnemonic::BMI => spec_wrap(
                AddrModeRelative::spec_read(data, limit, pos),
                (|m: AddrModeRelative| Opcode::BMI(m)),
            ),
            Mnemonic::BNE => spec_wrap(
                AddrModeRelative::spec_read(data, limit, pos),
                (|m: AddrModeRelative| Opcode::BNE(m)),
            ),
            Mnemonic::BPL => spec_wrap(
                AddrModeRelative::spec_read(data, limit, pos),
                (|m: AddrModeRelative| Opcode::BPL(m)),
            ),
            Mnemonic::BRK => Ok((Opcode::BRK, pos + 1)),
            Mnemonic::BVC => spec_wrap(
                AddrModeRelative::spec_read(data, limit, pos),
                (|m: AddrModeRelative| Opcode::BVC(m)),
            ),
            Mnemonic::BVS => spec_wrap(
                AddrModeRelative::spec_read(data, limit, pos),
                (|m: AddrModeRelative| Opcode::BVS(m)),
            ),
            Mnemonic::CLC => Ok((Opcode::CLC, pos + 1)),
            Mnemonic::CLD => Ok((Opcode::CLD, pos + 1)),
            Mnemonic::CLI => Ok((Opcode::CLI, pos + 1)),
            Mnemonic::CLV => Ok((Opcode::CLV, pos + 1)),
            Mnemonic::CMP => spec_wrap(
                AddrModeNoZeropageY::spec_read(data, limit, pos),
                (|m: AddrModeNoZeropageY| Opcode::CMP(m)),
            ),
            Mnemonic::CPX => spec_wrap(
                AddrModeSimpleOrImm::spec_read(data, limit, pos),
                (|m: AddrModeSimpleOrImm| Opcode::CPX(m)),
            ),
            Mnemonic::CPY => spec_wrap(
                AddrModeSimpleOrImm::spec_read(data, limit, pos),
                (|m: AddrModeSimpleOrImm| Opcode::CPY(m)),
            ),
            Mnemonic::DEC => spec_wrap(
                AddrModeSimpleX::spec_read(data, limit, pos),
                (|m: AddrModeSimpleX| Opcode::DEC(m)),
            ),
            Mnemonic::DEX => Ok((Opcode::DEX, pos + 1)),
            Mnemonic::DEY => Ok((Opcode::DEY, pos + 1)),
            Mnemonic::EOR => spec_wrap(
                AddrModeNoZeropageY::spec_read(data, limit, pos),
                (|m: AddrModeNoZeropageY| Opcode::EOR(m)),
            ),
            Mnemonic::INC => spec_wrap(
                AddrModeSimpleX::spec_read(data, limit, pos),
                (|m: AddrModeSimpleX| Opcode::INC(m)),
            ),
            Mnemonic::INX => Ok((Opcode::INX, pos + 1)),
            Mnemonic::INY => Ok((Opcode::INY, pos + 1)),
            Mnemonic::JMP => spec_wrap(
                AddrModeAbsInd::spec_read(data, limit, pos),
                (|m: AddrModeAbsInd| Opcode::JMP(m)),
            ),
            Mnemonic::JSR => spec_wrap(
                AddrModeAbs::spec_read(data, limit, pos),
                (|m: AddrModeAbs| Opcode::JSR(m)),
            ),
            Mnemonic::LDA => spec_wrap(
                AddrModeNoZeropageY::spec_read(data, limit, pos),
                (|m: AddrModeNoZeropageY| Opcode::LDA(m)),
            ),
            Mnemonic::LDX => spec_wrap(
                AddrModeSimpleYImm::spec_read(data, limit, pos),
                (|m: AddrModeSimpleYImm| Opcode::LDX(m)),
            ),
            Mnemonic::LDY => spec_wrap(
                AddrModeSimpleXImm::spec_read(data, limit, pos),
                (|m: AddrModeSimpleXImm| Opcode::LDY(m)),
            ),
            Mnemonic::LSR => spec_wrap(
                AddrModeSimpleXAcc::spec_read(data, limit, pos),
                (|m: AddrModeSimpleXAcc| Opcode::LSR(m)),
            ),
            Mnemonic::NOP => Ok((Opcode::NOP, pos + 1)),
            Mnemonic::ORA => spec_wrap(
                AddrModeNoZeropageY::spec_read(data, limit, pos),
                (|m: AddrModeNoZeropageY| Opcode::ORA(m)),
            ),
            Mnemonic::PHA => Ok((Opcode::PHA, pos + 1)),
            Mnemonic::PHP => Ok((Opcode::PHP, pos + 1)),
            Mnemonic::PLA => Ok((Opcode::PLA, pos + 1)),
            Mnemonic::PLP => Ok((Opcode::PLP, pos + 1)),
            Mnemonic::ROL => spec_wrap(
                AddrModeSimpleXAcc::spec_read(data, limit, pos),
                (|m: AddrModeSimpleXAcc| Opcode::ROL(m)),
            ),
            Mnemonic::ROR => spec_wrap(
                AddrModeSimpleXAcc::spec_read(data, limit, pos),
                (|m: AddrModeSimpleXAcc| Opcode::ROR(m)),
            ),
            Mnemonic::RTI => Ok((Opcode::RTI, pos + 1)),
            Mnemonic::RTS => Ok((Opcode::RTS, pos + 1)),
            Mnemonic::SBC => spec_wrap(
                AddrModeNoZeropageY::spec_read(data, limit, pos),
                (|m: AddrModeNoZeropageY| Opcode::SBC(m)),
            ),
            Mnemonic::SEC => Ok((Opcode::SEC, pos + 1)),
            Mnemonic::SED => Ok((Opcode::SED, pos + 1)),
            Mnemonic::SEI => Ok((Opcode::SEI, pos + 1)),
            Mnemonic::STA => spec_wrap(
                AddrModeNoZeropageYNoImm::spec_read(data, limit, pos),
                (|m: AddrModeNoZeropageYNoImm| Opcode::STA(m)),
            ),
            Mnemonic::STX => spec_wrap(
                AddrModeSTX::spec_read(data, limit, pos),
                (|m: AddrModeSTX| Opcode::STX(m)),
            ),
            Mnemonic::STY => spec_wrap(
                AddrModeSTY::spec_read(data, limit, pos),
                (|m: AddrModeSTY| Opcode::STY(m)),
            ),
            Mnemonic::TAX => Ok((Opcode::TAX, pos + 1)),
            Mnemonic::TAY => Ok((Opcode::TAY, pos + 1)),
            Mnemonic::TSX => Ok((Opcode::TSX, pos + 1)),
            Mnemonic::TXA => Ok((Opcode::TXA, pos + 1)),
            Mnemonic::TXS => Ok((Opcode::TXS, pos + 1)),
            Mnemonic::TYA => Ok((Opcode::TYA, pos + 1)),
            Mnemonic::AHX => spec_wrap(
                AddrModeAHX::spec_read(data, limit, pos),
                (|m: AddrModeAHX| Opcode::AHX(m)),
            ),
            Mnemonic::ALR => spec_wrap(
                AddrModeImmediate::spec_read(data, limit, pos),
                (|m: AddrModeImmediate| Opcode::ALR(m)),
            ),
            Mnemonic::ANC => spec_wrap(
                AddrModeImmediate::spec_read(data, limit, pos),
                (|m: AddrModeImmediate| Opcode::ANC(m)),
            ),
            Mnemonic::ARR => spec_wrap(
                AddrModeImmediate::spec_read(data, limit, pos),
                (|m: AddrModeImmediate| Opcode::ARR(m)),
            ),
            Mnemonic::AXS => spec_wrap(
                AddrModeImmediate::spec_read(data, limit, pos),
                (|m: AddrModeImmediate| Opcode::AXS(m)),
            ),
            Mnemonic::DCP => spec_wrap(
                AddrModeNoZeropageYNoImm::spec_read(data, limit, pos),
                (|m: AddrModeNoZeropageYNoImm| Opcode::DCP(m)),
            ),
            Mnemonic::ISC => spec_wrap(
                AddrModeNoZeropageYNoImm::spec_read(data, limit, pos),
                (|m: AddrModeNoZeropageYNoImm| Opcode::ISC(m)),
            ),
            Mnemonic::LAS => spec_wrap(
                AddrModeAbsY::spec_read(data, limit, pos),
                (|m: AddrModeAbsY| Opcode::LAS(m)),
            ),
            Mnemonic::LAX => spec_wrap(
                AddrModeLAX::spec_read(data, limit, pos),
                (|m: AddrModeLAX| Opcode::LAX(m)),
            ),
            Mnemonic::LXA => spec_wrap(
                AddrModeImmediate::spec_read(data, limit, pos),
                (|m: AddrModeImmediate| Opcode::LXA(m)),
            ),
            Mnemonic::RLA => spec_wrap(
                AddrModeNoZeropageYNoImm::spec_read(data, limit, pos),
                (|m: AddrModeNoZeropageYNoImm| Opcode::RLA(m)),
            ),
            Mnemonic::RRA => spec_wrap(
                AddrModeNoZeropageYNoImm::spec_read(data, limit, pos),
                (|m: AddrModeNoZeropageYNoImm| Opcode::RRA(m)),
            ),
            Mnemonic::SAX => spec_wrap(
                AddrModeImmediate::spec_read(data, limit, pos),
                (|m: AddrModeImmediate| Opcode::SAX(m)),
            ),
            Mnemonic::SHX => spec_wrap(
                AddrModeAbsY::spec_read(data, limit, pos),
                (|m: AddrModeAbsY| Opcode::SHX(m)),
            ),
            Mnemonic::SHY => spec_wrap(
                AddrModeAbsX::spec_read(data, limit, pos),
                (|m: AddrModeAbsX| Opcode::SHY(m)),
            ),
            Mnemonic::SLO => spec_wrap(
                AddrModeNoZeropageYNoImm::spec_read(data, limit, pos),
                (|m: AddrModeNoZeropageYNoImm| Opcode::SLO(m)),
            ),
            Mnemonic::SRE => spec_wrap(
                AddrModeNoZeropageYNoImm::spec_read(data, limit, pos),
                (|m: AddrModeNoZeropageYNoImm| Opcode::SRE(m)),
            ),
            Mnemonic::TAS => spec_wrap(
                AddrModeAbsY::spec_read(data, limit, pos),
                (|m: AddrModeAbsY| Opcode::TAS(m)),
            ),
            Mnemonic::XAA => spec_wrap(
                AddrModeImmediate::spec_read(data, limit, pos),
                (|m: AddrModeImmediate| Opcode::XAA(m)),
            ),
            Mnemonic::STP => Ok((Opcode::STP, pos + 1)),
    }
    }

    /// Reads one whole instruction starting at `pos`.
    pub fn read_at(data: &Vec<u8>, limit: usize, pos: usize) -> (r: Result<
        (Opcode, usize),
        ProgramParseError,
    >)
        requires
            pos < limit,
            limit <= data@.len(),
        ensures
            with_int_pos(r) == Opcode::spec_read_at(data@, limit as int, pos as int),
    {
        let b = data[pos];
        match b {
            0x61 | 0x65 | 0x69 | 0x6d | 0x71 | 0x75 | 0x79 | 0x7d => match AddrModeNoZeropageY::read_at(data, limit, pos) {
                Ok((m, p)) => Ok((Opcode::ADC(m), p)),
                Err(e) => Err(e),
            },
            0x21 | 0x25 | 0x29 | 0x2d | 0x31 | 0x35 | 0x39 | 0x3d => match AddrModeNoZeropageY::read_at(data, limit, pos) {
                Ok((m, p)) => Ok((Opcode::AND(m), p)),
                Err(e) => Err(e),
            },
            0x06 | 0x0a | 0x0e | 0x16 | 0x1e => match AddrModeSimpleXAcc::read_at(data, limit, pos) {
                Ok((m, p)) => Ok((Opcode::ASL(m), p)),
                Err(e) => Err(e),
            },
            0x90 => match AddrModeRelative::read_at(data, limit, pos) {
                Ok((m, p)) => Ok((Opcode::BCC(m), p)),
                Err(e) => Err(e),
            },
            0xb0 => match AddrModeRelative::read_at(data, limit, pos) {
                Ok((m, p)) => Ok((Opcode::BCS(m), p)),
                Err(e) => Err(e),
            },
            0xf0 => match AddrModeRelative::read_at(data, limit, pos) {
                Ok((m, p)) => Ok((Opcode::BEQ(m), p)),
                Err(e) => Err(e),
            },
            0x24 | 0x2c => match AddrModeSimple::read_at(data, limit, pos) {
                Ok((m, p)) => Ok((Opcode::BIT(m), p)),
                Err(e) => Err(e),
            },
            0x30 => match AddrModeRelative::read_at(data, limit, pos) {
                Ok((m, p)) => Ok((Opcode::BMI(m), p)),
                Err(e) => Err(e),
            },
            0xd0 => match AddrModeRelative::read_at(data, limit, pos) {
                Ok((m, p)) => Ok((Opcode::BNE(m), p)),
                Err(e) => Err(e),
            },
            0x10 => match AddrModeRelative::read_at(data, limit, pos) {
                Ok((m, p)) => Ok((Opcode::BPL(m), p)),
                Err(e) => Err(e),
            },
            0x00 => Ok((Opcode::BRK, pos + 1)),
            0x50 => match AddrModeRelative::read_at(data, limit, pos) {
                Ok((m, p)) => Ok((Opcode::BVC(m), p)),
                Err(e) => Err(e),
            },
            0x70 => match AddrModeRelative::read_at(data, limit, pos) {
                Ok((m, p)) => Ok((Opcode::BVS(m), p)),
                Err(e) => Err(e),
            },
            0x18 => Ok((Opcode::CLC, pos + 1)),
            0xd8 => Ok((Opcode::CLD, pos + 1)),
            0x58 => Ok((Opcode::CLI, pos + 1)),
            0xb8 => Ok((Opcode::CLV, pos + 1)),
            0xc1 | 0xc5 | 0xc9 | 0xcd | 0xd1 | 0xd5 | 0xd9 | 0xdd => match AddrModeNoZeropageY::read_at(data, limit, pos) {
                Ok((m, p)) => Ok((Opcode::CMP(m), p)),
                Err(e) => Err(e),
            },
            0xe0 | 0xe4 | 0xec => match AddrModeSimpleOrImm::read_at(data, limit, pos) {
                Ok((m, p)) => Ok((Opcode::CPX(m), p)),
                Err(e) => Err(e),
            },
            0xc0 | 0xc4 | 0xcc => match AddrModeSimpleOrImm::read_at(data, limit, pos) {
                Ok((m, p)) => Ok((Opcode::CPY(m), p)),
                Err(e) => Err(e),
            },
            0xc6 | 0xce | 0xd6 | 0xde => match AddrModeSimpleX::read_at(data, limit, pos) {
                Ok((m, p)) => Ok((Opcode::DEC(m), p)),
                Err(e) => Err(e),
            },
            0xca => Ok((Opcode::DEX, pos + 1)),
            0x88 => Ok((Opcode::DEY, pos + 1)),
            0x41 | 0x45 | 0x49 | 0x4d | 0x51 | 0x55 | 0x59 | 0x5d => match AddrModeNoZeropageY::read_at(data, limit, pos) {
                Ok((m, p)) => Ok((Opcode::EOR(m), p)),
                Err(e) => Err(e),
            },
            0xe6 | 0xee | 0xf6 | 0xfe => match AddrModeSimpleX::read_at(data, limit, pos) {
                Ok((m, p)) => Ok((Opcode::INC(m), p)),
                Err(e) => Err(e),
            },
            0xe8 => Ok((Opcode::INX, pos + 1)),
            0xc8 => Ok((Opcode::INY, pos + 1)),
            0x4c | 0x6c => match AddrModeAbsInd::read_at(data, limit, pos) {
                Ok((m, p)) => Ok((Opcode::JMP(m), p)),
                Err(e) => Err(e),
            },
            0x20 => match AddrModeAbs::read_at(data, limit, pos) {
                Ok((m, p)) => Ok((Opcode::JSR(m), p)),
                Err(e) => Err(e),
            },
            0xa1 | 0xa5 | 0xa9 | 0xad | 0xb1 | 0xb5 | 0xb9 | 0xbd => match AddrModeNoZeropageY::read_at(data, limit, pos) {
                Ok((m, p)) => Ok((Opcode::LDA(m), p)),
                Err(e) => Err(e),
            },
            0xa2 | 0xa6 | 0xae | 0xb6 | 0xbe => match AddrModeSimpleYImm::read_at(data, limit, pos) {
                Ok((m, p)) => Ok((Opcode::LDX(m), p)),
                Err(e) => Err(e),
            },
            0xa0 | 0xa4 | 0xac | 0xb4 | 0xbc => match AddrModeSimpleXImm::read_at(data, limit, pos) {
                Ok((m, p)) => Ok((Opcode::LDY(m), p)),
                Err(e) => Err(e),
            },
            0x46 | 0x4a | 0x4e | 0x56 | 0x5e => match AddrModeSimpleXAcc::read_at(data, limit, pos) {
                Ok((m, p)) => Ok((Opcode::LSR(m), p)),
                Err(e) => Err(e),
            },
            0x04 | 0x0c | 0x14 | 0x1a | 0x1c | 0x34 | 0x3a | 0x3c | 0x44 | 0x54 | 0x5a | 0x5c | 0x64 | 0x74 | 0x7a | 0x7c | 0x80 | 0x82 | 0x89 | 0xc2 | 0xd4 | 0xda | 0xdc | 0xe2 | 0xea | 0xf4 | 0xfa | 0xfc => Ok((Opcode::NOP, pos + 1)),
            0x01 | 0x05 | 0x09 | 0x0d | 0x11 | 0x15 | 0x19 | 0x1d => match AddrModeNoZeropageY::read_at(data, limit, pos) {
                Ok((m, p)) => Ok((Opcode::ORA(m), p)),
                Err(e) => Err(e),
            },
            0x48 => Ok((Opcode::PHA, pos + 1)),
            0x08 => Ok((Opcode::PHP, pos + 1)),
            0x68 => Ok((Opcode::PLA, pos + 1)),
            0x28 => Ok((Opcode::PLP, pos + 1)),
            0x26 | 0x2a | 0x2e | 0x36 | 0x3e => match AddrModeSimpleXAcc::read_at(data, limit, pos) {
                Ok((m, p)) => Ok((Opcode::ROL(m), p)),
                Err(e) => Err(e),
            },
            0x66 | 0x6a | 0x6e | 0x76 | 0x7e => match AddrModeSimpleXAcc::read_at(data, limit, pos) {
                Ok((m, p)) => Ok((Opcode::ROR(m), p)),
                Err(e) => Err(e),
            },
            0x40 => Ok((Opcode::RTI, pos + 1)),
            0x60 => Ok((Opcode::RTS, pos + 1)),
            0xe1 | 0xe5 | 0xe9 | 0xeb | 0xed | 0xf1 | 0xf5 | 0xf9 | 0xfd => match AddrModeNoZeropageY::read_at(data, limit, pos) {
                Ok((m, p)) => Ok((Opcode::SBC(m), p)),
                Err(e) => Err(e),
            },
            0x38 => Ok((Opcode::SEC, pos + 1)),
            0xf8 => Ok((Opcode::SED, pos + 1)),
            0x78 => Ok((Opcode::SEI, pos + 1)),
            0x81 | 0x85 | 0x8d | 0x91 | 0x95 | 0x99 | 0x9d => match AddrModeNoZeropageYNoImm::read_at(data, limit, pos) {
                Ok((m, p)) => Ok((Opcode::STA(m), p)),
                Err(e) => Err(e),
            },
            0x86 | 0x8e | 0x96 => match AddrModeSTX::read_at(data, limit, pos) {
                Ok((m, p)) => Ok((Opcode::STX(m), p)),
                Err(e) => Err(e),
            },
            0x84 | 0x8c | 0x94 => match AddrModeSTY::read_at(data, limit, pos) {
                Ok((m, p)) => Ok((Opcode::STY(m), p)),
                Err(e) => Err(e),
            },
            0xaa => Ok((Opcode::TAX, pos + 1)),
            0xa8 => Ok((Opcode::TAY, pos + 1)),
            0xba => Ok((Opcode::TSX, pos + 1)),
            0x8a => Ok((Opcode::TXA, pos + 1)),
            0x9a => Ok((Opcode::TXS, pos + 1)),
            0x98 => Ok((Opcode::TYA, pos + 1)),
            0x93 | 0x9f => match AddrModeAHX::read_at(data, limit, pos) {
                Ok((m, p)) => Ok((Opcode::AHX(m), p)),
                Err(e) => Err(e),
            },
            0x4b => match AddrModeImmediate::read_at(data, limit, pos) {
                Ok((m, p)) => Ok((Opcode::ALR(m), p)),
                Err(e) => Err(e),
            },
            0x0b | 0x2b => match AddrModeImmediate::read_at(data, limit, pos) {
                Ok((m, p)) => Ok((Opcode::ANC(m), p)),
                Err(e) => Err(e),
            },
            0x6b => match AddrModeImmediate::read_at(data, limit, pos) {
                Ok((m, p)) => Ok((Opcode::ARR(m), p)),
                Err(e) => Err(e),
            },
            0xcb => match AddrModeImmediate::read_at(data, limit, pos) {
                Ok((m, p)) => Ok((Opcode::AXS(m), p)),
                Err(e) => Err(e),
            },
            0xc3 | 0xc7 | 0xcf | 0xd3 | 0xd7 | 0xdb | 0xdf => match AddrModeNoZeropageYNoImm::read_at(data, limit, pos) {
                Ok((m, p)) => Ok((Opcode::DCP(m), p)),
                Err(e) => Err(e),
            },
            0xe3 | 0xe7 | 0xef | 0xf3 | 0xf7 | 0xfb | 0xff => match AddrModeNoZeropageYNoImm::read_at(data, limit, pos) {
                Ok((m, p)) => Ok((Opcode::ISC(m), p)),
                Err(e) => Err(e),
            },
            0xbb => match AddrModeAbsY::read_at(data, limit, pos) {
                Ok((m, p)) => Ok((Opcode::LAS(m), p)),
                Err(e) => Err(e),
            },
            0xa3 | 0xa7 | 0xaf | 0xb3 | 0xb7 | 0xbf => match AddrModeLAX::read_at(data, limit, pos) {
                Ok((m, p)) => Ok((Opcode::LAX(m), p)),
                Err(e) => Err(e),
            },
            0xab => match AddrModeImmediate::read_at(data, limit, pos) {
                Ok((m, p)) => Ok((Opcode::LXA(m), p)),
                Err(e) => Err(e),
            },
            0x23 | 0x27 | 0x2f | 0x33 | 0x37 | 0x3b | 0x3f => match AddrModeNoZeropageYNoImm::read_at(data, limit, pos) {
                Ok((m, p)) => Ok((Opcode::RLA(m), p)),
                Err(e) => Err(e),
            },
            0x63 | 0x67 | 0x6f | 0x73 | 0x77 | 0x7b | 0x7f => match AddrModeNoZeropageYNoImm::read_at(data, limit, pos) {
                Ok((m, p)) => Ok((Opcode::RRA(m), p)),
                Err(e) => Err(e),
            },
            0x83 | 0x87 | 0x8f | 0x97 => match AddrModeImmediate::read_at(data, limit, pos) {
                Ok((m, p)) => Ok((Opcode::SAX(m), p)),
                Err(e) => Err(e),
            },
            0x9e => match AddrModeAbsY::read_at(data, limit, pos) {
                Ok((m, p)) => Ok((Opcode::SHX(m), p)),
                Err(e) => Err(e),
            },
            0x9c => match AddrModeAbsX::read_at(data, limit, pos) {
                Ok((m, p)) => Ok((Opcode::SHY(m), p)),
                Err(e) => Err(e),
            },
            0x03 | 0x07 | 0x0f | 0x13 | 0x17 | 0x1b | 0x1f => match AddrModeNoZeropageYNoImm::read_at(data, limit, pos) {
                Ok((m, p)) => Ok((Opcode::SLO(m), p)),
                Err(e) => Err(e),
            },
            0x43 | 0x47 | 0x4f | 0x53 | 0x57 | 0x5b | 0x5f => match AddrModeNoZeropageYNoImm::read_at(data, limit, pos) {
                Ok((m, p)) => Ok((Opcode::SRE(m), p)),
                Err(e) => Err(e),
            },
            0x9b => match AddrModeAbsY::read_at(data, limit, pos) {
                Ok((m, p)) => Ok((Opcode::TAS(m), p)),
                Err(e) => Err(e),
            },
            0x8b => match AddrModeImmediate::read_at(data, limit, pos) {
                Ok((m, p)) => Ok((Opcode::XAA(m), p)),
                Err(e) => Err(e),
            },
            0x02 | 0x12 | 0x22 | 0x32 | 0x42 | 0x52 | 0x62 | 0x72 | 0x92 | 0xb2 | 0xd2 | 0xf2 => Ok((Opcode::STP, pos + 1)),
        }
    }
}


/// The encoded size of an instruction is one, two or three bytes.
pub proof fn lemma_byte_cost_bounds(b: u8)
    ensures
        spec_byte_cost(b) matches Some(n) ==> 1 <= n <= 3,
{
}

/// Size consistency and completeness of the single-instruction decoder:
/// a byte whose mnemonic admits a mode of size `n - 1` decodes exactly
/// when its `n` bytes lie within the limit, it consumes exactly `n`
/// bytes (one plus the operand size of the decoded mode), it carries the
/// mnemonic the matrix assigns, and each failure reports the documented
/// error value.
#[verifier::rlimit(100)]
pub proof fn lemma_read_at_characterized(data: Seq<u8>, limit: int, pos: int)
    requires
        pos < limit,
    ensures
        (match spec_byte_cost(data[pos]) {
            Some(n) => {
                let r = Opcode::spec_read_at(data, limit, pos);
                if pos + n <= limit {
                    &&& r is Ok
                    &&& r->Ok_0.1 == pos + n
                    &&& n == 1 + r->Ok_0.0.spec_arg_size()
                    &&& r->Ok_0.0.spec_mnemonic() == opcode_mnemonic(data[pos])
                } else {
                    r == Err::<(Opcode, int), ProgramParseError>(
                        ProgramParseError::UnexpectedEndOfStream {
                            position: pos as usize,
                            bytes_needed: (pos + n - limit) as usize,
                        },
                    )
                }
            },
            None => Opcode::spec_read_at(data, limit, pos) == Err::<
                (Opcode, int),
                ProgramParseError,
            >(ProgramParseError::InvalidEncoding { byte: data[pos], position: pos as usize }),
        }),
{
}

/// Exhaustiveness of the opcode table: every byte value begins an
/// instruction of a definite size, except the four SAX slots, whose
/// mode subset the table mismatches (see `Opcode::SAX`).
pub proof fn lemma_opcode_table_total(b: u8)
    requires
        b != 0x83 && b != 0x87 && b != 0x8f && b != 0x97,
    ensures
        spec_byte_cost(b) is Some,
{
}

/// A buffer holding one opcode byte and enough padding decodes, for
/// every byte but the four SAX slots, to the instruction the matrix
/// assigns.
pub proof fn lemma_single_instruction_decodes(b: u8)
    requires
        b != 0x83 && b != 0x87 && b != 0x8f && b != 0x97,
    ensures
        ({
            let r = Opcode::spec_read_at(seq![b, 0, 0], 3, 0);
            &&& r is Ok
            &&& r->Ok_0.0.spec_mnemonic() == opcode_mnemonic(b)
        }),
{
    lemma_opcode_table_total(b);
    lemma_byte_cost_bounds(b);
    lemma_read_at_characterized(seq![b, 0, 0], 3, 0);
    assert(seq![b, 0, 0][0] == b);
}

/// The exclusion in `lemma_opcode_table_total` is tight: each of the
/// four SAX slots really does fail to match a mode rule.
pub proof fn lemma_sax_slots_refused(b: u8)
    requires
        b == 0x83 || b == 0x87 || b == 0x8f || b == 0x97,
    ensures
        spec_byte_cost(b) is None,
{
}

} // verus!
