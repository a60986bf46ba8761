//! The iNES cartridge container: the fixed 16-byte header, the optional
//! trainer, and the PRG-ROM and CHR-ROM sections, read from a byte
//! buffer already loaded into memory. Opening the file and reporting
//! I/O failures are the caller's business; only the byte layout is
//! decoded here.

use vstd::prelude::*;
use vstd::slice::{slice_subrange, slice_to_vec};
use crate::parser::{NesProgram, ProgramParseError, spec_parse_program};
use crate::parser::opcodes::Opcode;

verus! {

/// The number of bytes of PRG-ROM that one header unit stands for.
pub open spec fn spec_prgrom_unit() -> int {
    0x4000
}

/// The number of bytes of CHR-ROM that one header unit stands for.
pub open spec fn spec_chrrom_unit() -> int {
    0x2000
}

/// Which revision of the container format the header declares.
#[derive(Debug, Clone, Copy, PartialEq, Eq, Structural)]
pub enum NesFormatVersion {
    ArchaicINes,
    INES,
    NES2_0,
    Unknown,
}

/// How the cartridge wires its nametable memory.
#[derive(Debug, Clone, Copy, PartialEq, Eq, Structural)]
pub enum NametableArrangement {
    Vertical,
    Horizontal,
}

/// The television standard the cartridge targets.
#[derive(Debug, Clone, Copy, PartialEq, Eq, Structural)]
pub enum TVSystem {
    NTSC,
    PAL,
}

/// Header byte 6, bit by bit from the least significant: nametable
/// arrangement, persistent memory, trainer presence, alternative
/// nametable layout, and the low nibble of the mapper number.
#[derive(Debug, Clone, Copy, PartialEq, Eq, Structural)]
pub struct INesHeaderFlags6 {
    pub nametable_arrangement: NametableArrangement,
    pub persistent_memory: bool,
    pub has_trainer: bool,
    pub alt_nametable_layout: bool,
    pub mapper_lower: u8,
}

/// Header byte 7: VS UniSystem and PlayChoice-10 markers, the two-bit
/// format indicator, and the high nibble of the mapper number.
#[derive(Debug, Clone, Copy, PartialEq, Eq, Structural)]
pub struct INesHeaderFlags7 {
    pub vs_unisystem: bool,
    pub playchoice_10: bool,
    pub nes2_indicator: u8,
    pub mapper_upper: u8,
}

/// Header byte 9: the television standard; the other bits are reserved.
#[derive(Debug, Clone, Copy, PartialEq, Eq, Structural)]
pub struct INesHeaderFlags9 {
    pub tv_system: TVSystem,
}

/// The fixed 16-byte header, with the section sizes already scaled from
/// header units to bytes.
#[derive(Debug, Clone, Copy, PartialEq, Eq, Structural)]
pub struct NesHeader {
    pub prgrom_size: usize,
    pub chrrom_size: usize,
    pub flags6: INesHeaderFlags6,
    pub flags7: INesHeaderFlags7,
    pub prgram_size: usize,
    pub flags9: INesHeaderFlags9,
    pub version: NesFormatVersion,
}

/// Why a cartridge image could not be read. I/O failures belong to the
/// caller that loads the file; only layout faults are reported here.
#[derive(Debug, Clone, Copy, PartialEq, Eq, Structural)]
pub enum ParserError {
    /// The buffer does not begin with the `NES` magic and its terminator.
    BadMagic,
    /// The section starting at `position` needs `bytes_needed` more bytes
    /// than the buffer holds.
    UnexpectedEndOfFile { position: usize, bytes_needed: usize },
}

/// Whether bit `k` of `b` is set.
pub open spec fn spec_bit(b: u8, k: int) -> bool
    recommends
        0 <= k < 8,
{
    (b as int / pow2_small(k)) % 2 == 1
}

/// Two to a small power.
pub open spec fn pow2_small(k: int) -> int
    decreases k,
{
    if k <= 0 {
        1
    } else {
        2 * pow2_small(k - 1)
    }
}

/// Header byte 6, field by field.
pub open spec fn spec_flags6(b: u8) -> INesHeaderFlags6 {
    INesHeaderFlags6 {
        nametable_arrangement: if spec_bit(b, 0) {
            NametableArrangement::Horizontal
        } else {
            NametableArrangement::Vertical
        },
        persistent_memory: spec_bit(b, 1),
        has_trainer: spec_bit(b, 2),
        alt_nametable_layout: spec_bit(b, 3),
        mapper_lower: b / 16,
    }
}

/// Header byte 7, field by field.
pub open spec fn spec_flags7(b: u8) -> INesHeaderFlags7 {
    INesHeaderFlags7 {
        vs_unisystem: spec_bit(b, 0),
        playchoice_10: spec_bit(b, 1),
        nes2_indicator: (b / 4) % 4,
        mapper_upper: b / 16,
    }
}

/// Header byte 9, field by field.
pub open spec fn spec_flags9(b: u8) -> INesHeaderFlags9 {
    INesHeaderFlags9 {
        tv_system: if spec_bit(b, 0) {
            TVSystem::PAL
        } else {
            TVSystem::NTSC
        },
    }
}

/// The format revision that the two-bit indicator of header byte 7
/// declares.
pub open spec fn spec_version(flags7: INesHeaderFlags7) -> NesFormatVersion {
    if flags7.nes2_indicator == 1 {
        NesFormatVersion::ArchaicINes
    } else if flags7.nes2_indicator == 0 {
        NesFormatVersion::INES
    } else if flags7.nes2_indicator == 2 {
        NesFormatVersion::NES2_0
    } else {
        NesFormatVersion::Unknown
    }
}

/// Whether the buffer begins with `NES` and the `0x1a` terminator.
pub open spec fn spec_magic_ok(data: Seq<u8>) -> bool {
    data.len() >= 4 && data[0] == 0x4e && data[1] == 0x45 && data[2] == 0x53 && data[3] == 0x1a
}

/// The header decoded from the first 16 bytes of the buffer.
pub open spec fn spec_parse_header(data: Seq<u8>) -> Result<NesHeader, ParserError> {
    if data.len() < 16 {
        Err(ParserError::UnexpectedEndOfFile {
            position: 0,
            bytes_needed: (16 - data.len()) as usize,
        })
    } else if !spec_magic_ok(data) {
        Err(ParserError::BadMagic)
    } else {
        Ok(NesHeader {
            prgrom_size: (data[4] as int * spec_prgrom_unit()) as usize,
            chrrom_size: (data[5] as int * spec_chrrom_unit()) as usize,
            flags6: spec_flags6(data[6]),
            flags7: spec_flags7(data[7]),
            prgram_size: (data[8] as int * spec_chrrom_unit()) as usize,
            flags9: spec_flags9(data[9]),
            version: spec_version(spec_flags7(data[7])),
        })
    }
}

/// How many trainer bytes the header declares.
pub open spec fn spec_trainer_len(header: NesHeader) -> int {
    if header.flags6.has_trainer {
        512
    } else {
        0
    }
}

/// The offset of the PRG-ROM section.
pub open spec fn spec_prgrom_offset(header: NesHeader) -> int {
    16 + spec_trainer_len(header)
}

/// The offset of the CHR-ROM section.
pub open spec fn spec_chrrom_offset(header: NesHeader) -> int {
    spec_prgrom_offset(header) + header.prgrom_size
}

/// The whole declared size of the cartridge image.
pub open spec fn spec_file_end(header: NesHeader) -> int {
    spec_chrrom_offset(header) + header.chrrom_size
}

/// The error that reading the buffer as a cartridge image reports, or
/// `None` where the buffer parses: a bad magic, or the first declared
/// section that the buffer is too short for.
pub open spec fn spec_parse_file_error(data: Seq<u8>) -> Option<ParserError> {
    match spec_parse_header(data) {
        Err(e) => Some(e),
        Ok(header) => {
            if data.len() < 16 + spec_trainer_len(header) {
                Some(ParserError::UnexpectedEndOfFile {
                    position: 16,
                    bytes_needed: (16 + spec_trainer_len(header) - data.len()) as usize,
                })
            } else if data.len() < spec_chrrom_offset(header) {
                Some(ParserError::UnexpectedEndOfFile {
                    position: spec_prgrom_offset(header) as usize,
                    bytes_needed: (spec_chrrom_offset(header) - data.len()) as usize,
                })
            } else if data.len() < spec_file_end(header) {
                Some(ParserError::UnexpectedEndOfFile {
                    position: spec_chrrom_offset(header) as usize,
                    bytes_needed: (spec_file_end(header) - data.len()) as usize,
                })
            } else {
                None
            }
        },
    }
}

/// A cartridge image, split into its sections.
#[derive(Debug, Clone, PartialEq, Eq)]
pub struct NesFile {
    pub header: NesHeader,
    pub trainer: Option<Vec<u8>>,
    pub prgrom_data: Vec<u8>,
    pub chrrom_data: Vec<u8>,
}

impl NesFile {
    /// The sections hold exactly the byte ranges of `data` that the
    /// header declares for them.
    pub open spec fn matches_buffer(self, data: Seq<u8>) -> bool {
        &&& spec_parse_header(data) == Ok::<NesHeader, ParserError>(self.header)
        &&& self.header.flags6.has_trainer ==> (self.trainer matches Some(t) && t@ == data.subrange(
            16int,
            16int + 512,
        ))
        &&& !self.header.flags6.has_trainer ==> self.trainer is None
        &&& self.prgrom_data@ == data.subrange(
            spec_prgrom_offset(self.header),
            spec_chrrom_offset(self.header),
        )
        &&& self.chrrom_data@ == data.subrange(
            spec_chrrom_offset(self.header),
            spec_file_end(self.header),
        )
    }
}

/// Reads header byte 6.
fn parse_flags6(b: u8) -> (f: INesHeaderFlags6)
    ensures
        f == spec_flags6(b),
{
    INesHeaderFlags6 {
        nametable_arrangement: if b % 2 == 1 {
            NametableArrangement::Horizontal
        } else {
            NametableArrangement::Vertical
        },
        persistent_memory: (b / 2) % 2 == 1,
        has_trainer: (b / 4) % 2 == 1,
        alt_nametable_layout: (b / 8) % 2 == 1,
        mapper_lower: b / 16,
    }
}

/// Reads header byte 7.
fn parse_flags7(b: u8) -> (f: INesHeaderFlags7)
    ensures
        f == spec_flags7(b),
{
    INesHeaderFlags7 {
        vs_unisystem: b % 2 == 1,
        playchoice_10: (b / 2) % 2 == 1,
        nes2_indicator: (b / 4) % 4,
        mapper_upper: b / 16,
    }
}

/// Reads header byte 9.
fn parse_flags9(b: u8) -> (f: INesHeaderFlags9)
    ensures
        f == spec_flags9(b),
{
    INesHeaderFlags9 {
        tv_system: if b % 2 == 1 {
            TVSystem::PAL
        } else {
            TVSystem::NTSC
        },
    }
}

/// Reads the fixed 16-byte header from the front of the buffer.
pub fn parse_header(data: &Vec<u8>) -> (r: Result<NesHeader, ParserError>)
    ensures
        r == spec_parse_header(data@),
{
    if data.len() < 16 {
        return Err(ParserError::UnexpectedEndOfFile {
            position: 0,
            bytes_needed: 16 - data.len(),
        });
    }
    if !(data[0] == 0x4e && data[1] == 0x45 && data[2] == 0x53 && data[3] == 0x1a) {
        return Err(ParserError::BadMagic);
    }
    let flags7 = parse_flags7(data[7]);
    let version = if flags7.nes2_indicator == 1 {
        NesFormatVersion::ArchaicINes
    } else if flags7.nes2_indicator == 0 {
        NesFormatVersion::INES
    } else if flags7.nes2_indicator == 2 {
        NesFormatVersion::NES2_0
    } else {
        NesFormatVersion::Unknown
    };
    Ok(NesHeader {
        prgrom_size: (data[4] as usize) * 0x4000,
        chrrom_size: (data[5] as usize) * 0x2000,
        flags6: parse_flags6(data[6]),
        flags7,
        prgram_size: (data[8] as usize) * 0x2000,
        flags9: parse_flags9(data[9]),
        version,
    })
}

/// Splits the buffer into the sections its header declares. Every
/// declared section must be present in full: a buffer that ends inside
/// one is refused.
pub fn parse_file(data: &Vec<u8>) -> (r: Result<NesFile, ParserError>)
    ensures
        (match r {
            Ok(file) => spec_parse_file_error(data@) is None && file.matches_buffer(data@),
            Err(e) => spec_parse_file_error(data@) == Some(e),
        }),
{
    let header = match parse_header(data) {
        Ok(h) => h,
        Err(e) => {
            return Err(e);
        },
    };
    let trainer_len: usize = if header.flags6.has_trainer {
        512
    } else {
        0
    };
    if data.len() < 16 + trainer_len {
        return Err(ParserError::UnexpectedEndOfFile {
            position: 16,
            bytes_needed: 16 + trainer_len - data.len(),
        });
    }
    let prgrom_offset: usize = 16 + trainer_len;
    if data.len() - prgrom_offset < header.prgrom_size {
        return Err(ParserError::UnexpectedEndOfFile {
            position: prgrom_offset,
            bytes_needed: header.prgrom_size - (data.len() - prgrom_offset),
        });
    }
    let chrrom_offset: usize = prgrom_offset + header.prgrom_size;
    if data.len() - chrrom_offset < header.chrrom_size {
        return Err(ParserError::UnexpectedEndOfFile {
            position: chrrom_offset,
            bytes_needed: header.chrrom_size - (data.len() - chrrom_offset),
        });
    }
    let trainer: Option<Vec<u8>> = if header.flags6.has_trainer {
        Some(slice_to_vec(slice_subrange(data.as_slice(), 16, 16 + 512)))
    } else {
        None
    };
    let prgrom_data = slice_to_vec(
        slice_subrange(data.as_slice(), prgrom_offset, chrrom_offset),
    );
    let chrrom_data = slice_to_vec(
        slice_subrange(data.as_slice(), chrrom_offset, chrrom_offset + header.chrrom_size),
    );
    Ok(NesFile { header, trainer, prgrom_data, chrrom_data })
}

impl NesProgram {
    /// Decodes the PRG-ROM section of a cartridge image whose sections
    /// were split from one buffer.
    pub fn try_from_file(file: &NesFile) -> (r: Result<NesProgram, ProgramParseError>)
        requires
            file.header.prgrom_size <= file.prgrom_data@.len(),
        ensures
            (match r {
                Ok(program) => spec_parse_program(
                    file.prgrom_data@,
                    file.header.prgrom_size as int,
                ) == Ok::<Seq<Opcode>, ProgramParseError>(program@),
                Err(e) => spec_parse_program(file.prgrom_data@, file.header.prgrom_size as int)
                    == Err::<Seq<Opcode>, ProgramParseError>(e),
            }),
    {
        NesProgram::parse(&file.prgrom_data, file.header.prgrom_size)
    }
}

} // verus!
