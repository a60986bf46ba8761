//! The 6502 addressing modes: the operand-encoding shapes, the grid rules
//! that pick a mode from an opcode byte, and the restricted subsets of
//! modes that each mnemonic family may take.
//!
//! An opcode byte's low five bits select a column of the classic 6502
//! opcode grid, and the column largely fixes the addressing mode. The
//! rules below are that grid written out, with its documented anomalies:
//! `0x20` (JSR) is absolute although its column is otherwise implied,
//! `0x6c` (JMP) is the single indirect slot, and a handful of slots in
//! the `X`-indexed columns are carved out for `Y`-indexed modes.

use vstd::prelude::*;
use vstd::string::StringExecFns;
use crate::parser::{
    ProgramParseError, spec_take_u8, spec_take_u16, take_u8, take_u16, with_int_pos,
};
use crate::text::{spec_hex2, spec_hex4, push_hex2, push_hex4};

verus! {

/// The accumulator slots: the shift and rotate instructions on `A`.
pub open spec fn accumulator_byte(b: u8) -> bool {
    b == 0x0a || b == 0x2a || b == 0x4a || b == 0x6a
}

/// The absolute columns, plus the `0x20` (JSR) anomaly, minus the one
/// indirect slot at `0x6c`.
pub open spec fn absolute_byte(b: u8) -> bool {
    b == 0x20 || (0x0c <= b % 32 && b % 32 <= 0x0f && b != 0x6c)
}

/// The absolute-X columns, minus the `0x7c` slot and the four slots that
/// the absolute-Y rule claims.
pub open spec fn absolute_x_byte(b: u8) -> bool {
    0x1c <= b % 32 && b % 32 <= 0x1f && b != 0x7c && !(b == 0x9e || b == 0x9f || b == 0xbe
        || b == 0xbf)
}

/// The absolute-Y columns, plus the four high slots carved out of the
/// absolute-X columns.
pub open spec fn absolute_y_byte(b: u8) -> bool {
    b % 32 == 0x19 || b % 32 == 0x1b || b == 0x9e || b == 0x9f || b == 0xbe || b == 0xbf
}

/// The immediate columns: one pair of columns over the whole grid, and
/// the first two columns of its upper half.
pub open spec fn immediate_byte(b: u8) -> bool {
    b % 32 == 0x09 || b % 32 == 0x0b || (b >= 0x80 && (b % 32 == 0x00 || b % 32 == 0x02))
}

/// The implied columns: the single-byte instructions, without the `0x20`
/// (JSR) anomaly.
pub open spec fn implied_byte(b: u8) -> bool {
    b % 32 == 0x08 || b % 32 == 0x0a || b % 32 == 0x12 || b % 32 == 0x18 || (b < 0x80 && b % 32
        == 0x02) || (b < 0x80 && b % 32 == 0x00 && b != 0x20)
}

/// The single indirect slot: `0x6c` (JMP).
pub open spec fn indirect_byte(b: u8) -> bool {
    b == 0x6c
}

/// The indexed-indirect (`($nn,X)`) columns.
pub open spec fn indirect_x_byte(b: u8) -> bool {
    b % 32 == 0x01 || b % 32 == 0x03
}

/// The indirect-indexed (`($nn),Y`) columns.
pub open spec fn indirect_y_byte(b: u8) -> bool {
    b % 32 == 0x11 || b % 32 == 0x13
}

/// The relative column: the branch instructions.
pub open spec fn relative_byte(b: u8) -> bool {
    b % 32 == 0x10
}

/// The zero-page columns.
pub open spec fn zero_page_byte(b: u8) -> bool {
    0x04 <= b % 32 && b % 32 <= 0x07
}

/// The zero-page-X columns, minus the four slots carved out for
/// zero-page-Y.
pub open spec fn zero_page_x_byte(b: u8) -> bool {
    0x14 <= b % 32 && b % 32 <= 0x17 && !(b == 0x96 || b == 0x97 || b == 0xb6 || b == 0xb7)
}

/// The four zero-page-Y slots: STX and LDX indexed by `Y`.
pub open spec fn zero_page_y_byte(b: u8) -> bool {
    b == 0x96 || b == 0x97 || b == 0xb6 || b == 0xb7
}

pub fn is_accumulator_byte(b: u8) -> (r: bool)
    ensures
        r == accumulator_byte(b),
{
    b == 0x0a || b == 0x2a || b == 0x4a || b == 0x6a
}

pub fn is_absolute_byte(b: u8) -> (r: bool)
    ensures
        r == absolute_byte(b),
{
    b == 0x20 || (0x0c <= b % 32 && b % 32 <= 0x0f && b != 0x6c)
}

pub fn is_absolute_x_byte(b: u8) -> (r: bool)
    ensures
        r == absolute_x_byte(b),
{
    0x1c <= b % 32 && b % 32 <= 0x1f && b != 0x7c && !(b == 0x9e || b == 0x9f || b == 0xbe
        || b == 0xbf)
}

pub fn is_absolute_y_byte(b: u8) -> (r: bool)
    ensures
        r == absolute_y_byte(b),
{
    b % 32 == 0x19 || b % 32 == 0x1b || b == 0x9e || b == 0x9f || b == 0xbe || b == 0xbf
}

pub fn is_immediate_byte(b: u8) -> (r: bool)
    ensures
        r == immediate_byte(b),
{
    b % 32 == 0x09 || b % 32 == 0x0b || (b >= 0x80 && (b % 32 == 0x00 || b % 32 == 0x02))
}

pub fn is_implied_byte(b: u8) -> (r: bool)
    ensures
        r == implied_byte(b),
{
    b % 32 == 0x08 || b % 32 == 0x0a || b % 32 == 0x12 || b % 32 == 0x18 || (b < 0x80 && b % 32
        == 0x02) || (b < 0x80 && b % 32 == 0x00 && b != 0x20)
}

pub fn is_indirect_byte(b: u8) -> (r: bool)
    ensures
        r == indirect_byte(b),
{
    b == 0x6c
}

pub fn is_indirect_x_byte(b: u8) -> (r: bool)
    ensures
        r == indirect_x_byte(b),
{
    b % 32 == 0x01 || b % 32 == 0x03
}

pub fn is_indirect_y_byte(b: u8) -> (r: bool)
    ensures
        r == indirect_y_byte(b),
{
    b % 32 == 0x11 || b % 32 == 0x13
}

pub fn is_relative_byte(b: u8) -> (r: bool)
    ensures
        r == relative_byte(b),
{
    b % 32 == 0x10
}

pub fn is_zero_page_byte(b: u8) -> (r: bool)
    ensures
        r == zero_page_byte(b),
{
    0x04 <= b % 32 && b % 32 <= 0x07
}

pub fn is_zero_page_x_byte(b: u8) -> (r: bool)
    ensures
        r == zero_page_x_byte(b),
{
    0x14 <= b % 32 && b % 32 <= 0x17 && !(b == 0x96 || b == 0x97 || b == 0xb6 || b == 0xb7)
}

pub fn is_zero_page_y_byte(b: u8) -> (r: bool)
    ensures
        r == zero_page_y_byte(b),
{
    b == 0x96 || b == 0x97 || b == 0xb6 || b == 0xb7
}

/// An operand-encoding shape, with its payload. The 16-bit payloads are
/// stored little-endian in the instruction stream.
#[derive(Debug, Clone, Copy, PartialEq, Eq, Structural)]
pub enum AddressMode {
    /// Operand is the implied accumulator register.
    Accumulator,
    /// Absolute (16-bit) address.
    Absolute(u16),
    /// Absolute (16-bit) address, incremented by X with carry.
    AbsoluteX(u16),
    /// Absolute (16-bit) address, incremented by Y with carry.
    AbsoluteY(u16),
    /// Immediate (8-bit) value.
    Immediate(u8),
    /// Implied (empty) value.
    Implied,
    /// Absolute address of the location holding the target address.
    Indirect(u16),
    /// Zero-page address, incremented by X without carry, of the location
    /// holding the target address.
    IndirectX(u8),
    /// Zero-page address of the location whose value, incremented by Y
    /// with carry, is the target address.
    IndirectY(u8),
    /// Branch target is PC plus this signed offset byte.
    Relative(u8),
    /// Zero-page (8-bit) address.
    ZeroPage(u8),
    /// Zero-page (8-bit) address, incremented by X without carry.
    ZeroPageX(u8),
    /// Zero-page (8-bit) address, incremented by Y without carry.
    ZeroPageY(u8),
}

impl AddressMode {
    /// How many operand bytes the mode occupies after the opcode byte:
    /// a function of the variant alone, never of the payload.
    pub open spec fn spec_size(self) -> int {
        match self {
            AddressMode::Accumulator | AddressMode::Implied => 0,
            AddressMode::Immediate(_) | AddressMode::IndirectX(_) | AddressMode::IndirectY(_)
                | AddressMode::Relative(_) | AddressMode::ZeroPage(_) | AddressMode::ZeroPageX(_)
                | AddressMode::ZeroPageY(_) => 1,
            AddressMode::Absolute(_) | AddressMode::AbsoluteX(_) | AddressMode::AbsoluteY(_)
                | AddressMode::Indirect(_) => 2,
        }
    }

    /// The number of operand bytes encoded after the opcode byte.
    pub fn size(&self) -> (n: usize)
        ensures
            n == self.spec_size(),
    {
        match self {
            AddressMode::Accumulator | AddressMode::Implied => 0,
            AddressMode::Immediate(_) | AddressMode::IndirectX(_) | AddressMode::IndirectY(_)
                | AddressMode::Relative(_) | AddressMode::ZeroPage(_) | AddressMode::ZeroPageX(_)
                | AddressMode::ZeroPageY(_) => 1,
            AddressMode::Absolute(_) | AddressMode::AbsoluteX(_) | AddressMode::AbsoluteY(_)
                | AddressMode::Indirect(_) => 2,
        }
    }

    /// The canonical assembly text of the operand: `#$12` for an
    /// immediate, `$1234` for an absolute address, `($12),Y` for
    /// indirect-indexed, and so on; empty for an implied operand.
    pub open spec fn spec_source_text(self) -> Seq<char> {
        match self {
            AddressMode::Accumulator => "A"@,
            AddressMode::Absolute(a) => "$"@ + spec_hex4(a),
            AddressMode::AbsoluteX(a) => "$"@ + spec_hex4(a) + ",X"@,
            AddressMode::AbsoluteY(a) => "$"@ + spec_hex4(a) + ",Y"@,
            AddressMode::Immediate(v) => "#$"@ + spec_hex2(v),
            AddressMode::Implied => Seq::empty(),
            AddressMode::Indirect(a) => "($"@ + spec_hex4(a) + ")"@,
            AddressMode::IndirectX(v) => "($"@ + spec_hex2(v) + ",X)"@,
            AddressMode::IndirectY(v) => "($"@ + spec_hex2(v) + "),Y"@,
            AddressMode::Relative(v) => "$"@ + spec_hex2(v),
            AddressMode::ZeroPage(v) => "$"@ + spec_hex2(v),
            AddressMode::ZeroPageX(v) => "$"@ + spec_hex2(v) + ",X"@,
            AddressMode::ZeroPageY(v) => "$"@ + spec_hex2(v) + ",Y"@,
        }
    }

    /// Renders the operand in its canonical assembly form.
    pub fn to_source_string(&self) -> (s: String)
        ensures
            s@ == self.spec_source_text(),
    {
        let mut s = String::new();
        match self {
            AddressMode::Accumulator => {
                s.append("A");
            },
            AddressMode::Absolute(a) => {
                s.append("$");
                push_hex4(&mut s, *a);
            },
            AddressMode::AbsoluteX(a) => {
                s.append("$");
                push_hex4(&mut s, *a);
                s.append(",X");
            },
            AddressMode::AbsoluteY(a) => {
                s.append("$");
                push_hex4(&mut s, *a);
                s.append(",Y");
            },
            AddressMode::Immediate(v) => {
                s.append("#$");
                push_hex2(&mut s, *v);
            },
            AddressMode::Implied => {},
            AddressMode::Indirect(a) => {
                s.append("($");
                push_hex4(&mut s, *a);
                s.append(")");
            },
            AddressMode::IndirectX(v) => {
                s.append("($");
                push_hex2(&mut s, *v);
                s.append(",X)");
            },
            AddressMode::IndirectY(v) => {
                s.append("($");
                push_hex2(&mut s, *v);
                s.append("),Y");
            },
            AddressMode::Relative(v) => {
                s.append("$");
                push_hex2(&mut s, *v);
            },
            AddressMode::ZeroPage(v) => {
                s.append("$");
                push_hex2(&mut s, *v);
            },
            AddressMode::ZeroPageX(v) => {
                s.append("$");
                push_hex2(&mut s, *v);
                s.append(",X");
            },
            AddressMode::ZeroPageY(v) => {
                s.append("$");
                push_hex2(&mut s, *v);
                s.append(",Y");
            },
        }
        proof {
            assert(s@ =~= self.spec_source_text());
        }
        s
    }

    /// Which mode the opcode byte at `pos` selects when every mode is
    /// allowed, with its operand read from the bytes behind it; the rules
    /// are tried in the fixed order of the variants.
    pub open spec fn spec_read(data: Seq<u8>, limit: int, pos: int) -> Result<
        (AddressMode, int),
        ProgramParseError,
    >
        recommends
            0 <= pos < limit <= data.len(),
    {
        let b = data[pos];
        if accumulator_byte(b) {
            Ok((AddressMode::Accumulator, pos + 1))
        } else if absolute_byte(b) {
            match spec_take_u16(data, limit, pos) {
                Ok(v) => Ok((AddressMode::Absolute(v), pos + 3)),
                Err(e) => Err(e),
            }
        } else if absolute_x_byte(b) {
            match spec_take_u16(data, limit, pos) {
                Ok(v) => Ok((AddressMode::AbsoluteX(v), pos + 3)),
                Err(e) => Err(e),
            }
        } else if absolute_y_byte(b) {
            match spec_take_u16(data, limit, pos) {
                Ok(v) => Ok((AddressMode::AbsoluteY(v), pos + 3)),
                Err(e) => Err(e),
            }
        } else if immediate_byte(b) {
            match spec_take_u8(data, limit, pos) {
                Ok(v) => Ok((AddressMode::Immediate(v), pos + 2)),
                Err(e) => Err(e),
            }
        } else if implied_byte(b) {
            Ok((AddressMode::Implied, pos + 1))
        } else if indirect_byte(b) {
            match spec_take_u16(data, limit, pos) {
                Ok(v) => Ok((AddressMode::Indirect(v), pos + 3)),
                Err(e) => Err(e),
            }
        } else if indirect_x_byte(b) {
            match spec_take_u8(data, limit, pos) {
                Ok(v) => Ok((AddressMode::IndirectX(v), pos + 2)),
                Err(e) => Err(e),
            }
        } else if indirect_y_byte(b) {
            match spec_take_u8(data, limit, pos) {
                Ok(v) => Ok((AddressMode::IndirectY(v), pos + 2)),
                Err(e) => Err(e),
            }
        } else if relative_byte(b) {
            match spec_take_u8(data, limit, pos) {
                Ok(v) => Ok((AddressMode::Relative(v), pos + 2)),
                Err(e) => Err(e),
            }
        } else if zero_page_byte(b) {
            match spec_take_u8(data, limit, pos) {
                Ok(v) => Ok((AddressMode::ZeroPage(v), pos + 2)),
                Err(e) => Err(e),
            }
        } else if zero_page_x_byte(b) {
            match spec_take_u8(data, limit, pos) {
                Ok(v) => Ok((AddressMode::ZeroPageX(v), pos + 2)),
                Err(e) => Err(e),
            }
        } else if zero_page_y_byte(b) {
            match spec_take_u8(data, limit, pos) {
                Ok(v) => Ok((AddressMode::ZeroPageY(v), pos + 2)),
                Err(e) => Err(e),
            }
        } else {
            Err(ProgramParseError::InvalidEncoding { byte: b, position: pos as usize })
        }
    }

    /// Reads one operand, any mode allowed, for the opcode byte at `pos`.
    pub fn read_at(data: &Vec<u8>, limit: usize, pos: usize) -> (r: Result<
        (AddressMode, usize),
        ProgramParseError,
    >)
        requires
            pos < limit,
            limit <= data@.len(),
        ensures
            with_int_pos(r) == AddressMode::spec_read(data@, limit as int, pos as int),
    {
        let b = data[pos];
        if is_accumulator_byte(b) {
            Ok((AddressMode::Accumulator, pos + 1))
        } else if is_absolute_byte(b) {
            match take_u16(data, limit, pos) {
                Ok(v) => Ok((AddressMode::Absolute(v), pos + 3)),
                Err(e) => Err(e),
            }
        } else if is_absolute_x_byte(b) {
            match take_u16(data, limit, pos) {
                Ok(v) => Ok((AddressMode::AbsoluteX(v), pos + 3)),
                Err(e) => Err(e),
            }
        } else if is_absolute_y_byte(b) {
            match take_u16(data, limit, pos) {
                Ok(v) => Ok((AddressMode::AbsoluteY(v), pos + 3)),
                Err(e) => Err(e),
            }
        } else if is_immediate_byte(b) {
            match take_u8(data, limit, pos) {
                Ok(v) => Ok((AddressMode::Immediate(v), pos + 2)),
                Err(e) => Err(e),
            }
        } else if is_implied_byte(b) {
            Ok((AddressMode::Implied, pos + 1))
        } else if is_indirect_byte(b) {
            match take_u16(data, limit, pos) {
                Ok(v) => Ok((AddressMode::Indirect(v), pos + 3)),
                Err(e) => Err(e),
            }
        } else if is_indirect_x_byte(b) {
            match take_u8(data, limit, pos) {
                Ok(v) => Ok((AddressMode::IndirectX(v), pos + 2)),
                Err(e) => Err(e),
            }
        } else if is_indirect_y_byte(b) {
            match take_u8(data, limit, pos) {
                Ok(v) => Ok((AddressMode::IndirectY(v), pos + 2)),
                Err(e) => Err(e),
            }
        } else if is_relative_byte(b) {
            match take_u8(data, limit, pos) {
                Ok(v) => Ok((AddressMode::Relative(v), pos + 2)),
                Err(e) => Err(e),
            }
        } else if is_zero_page_byte(b) {
            match take_u8(data, limit, pos) {
                Ok(v) => Ok((AddressMode::ZeroPage(v), pos + 2)),
                Err(e) => Err(e),
            }
        } else if is_zero_page_x_byte(b) {
            match take_u8(data, limit, pos) {
                Ok(v) => Ok((AddressMode::ZeroPageX(v), pos + 2)),
                Err(e) => Err(e),
            }
        } else if is_zero_page_y_byte(b) {
            match take_u8(data, limit, pos) {
                Ok(v) => Ok((AddressMode::ZeroPageY(v), pos + 2)),
                Err(e) => Err(e),
            }
        } else {
            Err(ProgramParseError::InvalidEncoding { byte: b, position: pos })
        }
    }
}

/// The addressing-mode subset that AHX may take.
#[derive(Debug, Clone, Copy, PartialEq, Eq, Structural)]
pub enum AddrModeAHX {
    AbsoluteY(u16),
    IndirectY(u8),
}

impl AddrModeAHX {
    /// The same mode in the unrestricted `AddressMode` set.
    pub open spec fn spec_to_address_mode(self) -> AddressMode {
        match self {
            AddrModeAHX::AbsoluteY(v) => AddressMode::AbsoluteY(v),
            AddrModeAHX::IndirectY(v) => AddressMode::IndirectY(v),
        }
    }

    pub fn to_address_mode(self) -> (m: AddressMode)
        ensures
            m == self.spec_to_address_mode(),
    {
        match self {
            AddrModeAHX::AbsoluteY(v) => AddressMode::AbsoluteY(v),
            AddrModeAHX::IndirectY(v) => AddressMode::IndirectY(v),
        }
    }

    /// How many operand bytes follow the opcode byte.
    pub open spec fn spec_size(self) -> int {
        self.spec_to_address_mode().spec_size()
    }

    /// Restricts a mode to this subset; modes outside it are refused.
    pub fn try_from_address_mode(m: AddressMode) -> (r: Result<AddrModeAHX, AddrModeAHXConvertError>)
        ensures
            (match r {
                Ok(sub) => sub.spec_to_address_mode() == m,
                Err(_) => forall|sub: AddrModeAHX| sub.spec_to_address_mode() != m,
            }),
    {
        match m {
            AddressMode::AbsoluteY(v) => Ok(AddrModeAHX::AbsoluteY(v)),
            AddressMode::IndirectY(v) => Ok(AddrModeAHX::IndirectY(v)),
            _ => Err(AddrModeAHXConvertError),
        }
    }

    /// The operand bytes this subset reads for the opcode byte `b`, or
    /// `None` if no rule of the subset matches.
    pub open spec fn spec_needed(b: u8) -> Option<int> {
        if absolute_y_byte(b) {
            Some(2)
        } else if indirect_y_byte(b) {
            Some(1)
        } else {
            None
        }
    }

    /// Which mode of this subset the opcode byte at `pos` selects, with its
    /// operand read from the bytes behind it; the rules are tried in the
    /// fixed order of the `AddressMode` variants.
    pub open spec fn spec_read(data: Seq<u8>, limit: int, pos: int) -> Result<(AddrModeAHX, int), ProgramParseError>
        recommends
            0 <= pos < limit <= data.len(),
    {
        let b = data[pos];
        if absolute_y_byte(b) {
            match spec_take_u16(data, limit, pos) {
                Ok(v) => Ok((AddrModeAHX::AbsoluteY(v), pos + 3)),
                Err(e) => Err(e),
            }
        } else if indirect_y_byte(b) {
            match spec_take_u8(data, limit, pos) {
                Ok(v) => Ok((AddrModeAHX::IndirectY(v), pos + 2)),
                Err(e) => Err(e),
            }
        } else {
            Err(ProgramParseError::InvalidEncoding { byte: b, position: pos as usize })
        }
    }

    /// Reads one operand of this subset for the opcode byte at `pos`.
    pub fn read_at(data: &Vec<u8>, limit: usize, pos: usize) -> (r: Result<(AddrModeAHX, usize), ProgramParseError>)
        requires
            pos < limit,
            limit <= data@.len(),
        ensures
            with_int_pos(r) == AddrModeAHX::spec_read(data@, limit as int, pos as int),
    {
        let b = data[pos];
        if is_absolute_y_byte(b) {
            match take_u16(data, limit, pos) {
                Ok(v) => Ok((AddrModeAHX::AbsoluteY(v), pos + 3)),
                Err(e) => Err(e),
            }
        } else if is_indirect_y_byte(b) {
            match take_u8(data, limit, pos) {
                Ok(v) => Ok((AddrModeAHX::IndirectY(v), pos + 2)),
                Err(e) => Err(e),
            }
        } else {
            Err(ProgramParseError::InvalidEncoding { byte: b, position: pos })
        }
    }
}

/// The error of restricting an `AddressMode` to the `AddrModeAHX` subset.
#[derive(Debug, Clone, Copy, PartialEq, Eq, Structural)]
pub struct AddrModeAHXConvertError;

/// The addressing-mode subset that JSR may take.
#[derive(Debug, Clone, Copy, PartialEq, Eq, Structural)]
pub enum AddrModeAbs {
    Absolute(u16),
}

impl AddrModeAbs {
    /// The same mode in the unrestricted `AddressMode` set.
    pub open spec fn spec_to_address_mode(self) -> AddressMode {
        match self {
            AddrModeAbs::Absolute(v) => AddressMode::Absolute(v),
        }
    }

    pub fn to_address_mode(self) -> (m: AddressMode)
        ensures
            m == self.spec_to_address_mode(),
    {
        match self {
            AddrModeAbs::Absolute(v) => AddressMode::Absolute(v),
        }
    }

    /// How many operand bytes follow the opcode byte.
    pub open spec fn spec_size(self) -> int {
        self.spec_to_address_mode().spec_size()
    }

    /// Restricts a mode to this subset; modes outside it are refused.
    pub fn try_from_address_mode(m: AddressMode) -> (r: Result<AddrModeAbs, AddrModeAbsConvertError>)
        ensures
            (match r {
                Ok(sub) => sub.spec_to_address_mode() == m,
                Err(_) => forall|sub: AddrModeAbs| sub.spec_to_address_mode() != m,
            }),
    {
        match m {
            AddressMode::Absolute(v) => Ok(AddrModeAbs::Absolute(v)),
            _ => Err(AddrModeAbsConvertError),
        }
    }

    /// The operand bytes this subset reads for the opcode byte `b`, or
    /// `None` if no rule of the subset matches.
    pub open spec fn spec_needed(b: u8) -> Option<int> {
        if absolute_byte(b) {
            Some(2)
        } else {
            None
        }
    }

    /// Which mode of this subset the opcode byte at `pos` selects, with its
    /// operand read from the bytes behind it; the rules are tried in the
    /// fixed order of the `AddressMode` variants.
    pub open spec fn spec_read(data: Seq<u8>, limit: int, pos: int) -> Result<(AddrModeAbs, int), ProgramParseError>
        recommends
            0 <= pos < limit <= data.len(),
    {
        let b = data[pos];
        if absolute_byte(b) {
            match spec_take_u16(data, limit, pos) {
                Ok(v) => Ok((AddrModeAbs::Absolute(v), pos + 3)),
                Err(e) => Err(e),
            }
        } else {
            Err(ProgramParseError::InvalidEncoding { byte: b, position: pos as usize })
        }
    }

    /// Reads one operand of this subset for the opcode byte at `pos`.
    pub fn read_at(data: &Vec<u8>, limit: usize, pos: usize) -> (r: Result<(AddrModeAbs, usize), ProgramParseError>)
        requires
            pos < limit,
            limit <= data@.len(),
        ensures
            with_int_pos(r) == AddrModeAbs::spec_read(data@, limit as int, pos as int),
    {
        let b = data[pos];
        if is_absolute_byte(b) {
            match take_u16(data, limit, pos) {
                Ok(v) => Ok((AddrModeAbs::Absolute(v), pos + 3)),
                Err(e) => Err(e),
            }
        } else {
            Err(ProgramParseError::InvalidEncoding { byte: b, position: pos })
        }
    }
}

/// The error of restricting an `AddressMode` to the `AddrModeAbs` subset.
#[derive(Debug, Clone, Copy, PartialEq, Eq, Structural)]
pub struct AddrModeAbsConvertError;

/// The addressing-mode subset that JMP may take.
#[derive(Debug, Clone, Copy, PartialEq, Eq, Structural)]
pub enum AddrModeAbsInd {
    Absolute(u16),
    Indirect(u16),
}

impl AddrModeAbsInd {
    /// The same mode in the unrestricted `AddressMode` set.
    pub open spec fn spec_to_address_mode(self) -> AddressMode {
        match self {
            AddrModeAbsInd::Absolute(v) => AddressMode::Absolute(v),
            AddrModeAbsInd::Indirect(v) => AddressMode::Indirect(v),
        }
    }

    pub fn to_address_mode(self) -> (m: AddressMode)
        ensures
            m == self.spec_to_address_mode(),
    {
        match self {
            AddrModeAbsInd::Absolute(v) => AddressMode::Absolute(v),
            AddrModeAbsInd::Indirect(v) => AddressMode::Indirect(v),
        }
    }

    /// How many operand bytes follow the opcode byte.
    pub open spec fn spec_size(self) -> int {
        self.spec_to_address_mode().spec_size()
    }

    /// Restricts a mode to this subset; modes outside it are refused.
    pub fn try_from_address_mode(m: AddressMode) -> (r: Result<AddrModeAbsInd, AddrModeAbsIndConvertError>)
        ensures
            (match r {
                Ok(sub) => sub.spec_to_address_mode() == m,
                Err(_) => forall|sub: AddrModeAbsInd| sub.spec_to_address_mode() != m,
            }),
    {
        match m {
            AddressMode::Absolute(v) => Ok(AddrModeAbsInd::Absolute(v)),
            AddressMode::Indirect(v) => Ok(AddrModeAbsInd::Indirect(v)),
            _ => Err(AddrModeAbsIndConvertError),
        }
    }

    /// The operand bytes this subset reads for the opcode byte `b`, or
    /// `None` if no rule of the subset matches.
    pub open spec fn spec_needed(b: u8) -> Option<int> {
        if absolute_byte(b) {
            Some(2)
        } else if indirect_byte(b) {
            Some(2)
        } else {
            None
        }
    }

    /// Which mode of this subset the opcode byte at `pos` selects, with its
    /// operand read from the bytes behind it; the rules are tried in the
    /// fixed order of the `AddressMode` variants.
    pub open spec fn spec_read(data: Seq<u8>, limit: int, pos: int) -> Result<(AddrModeAbsInd, int), ProgramParseError>
        recommends
            0 <= pos < limit <= data.len(),
    {
        let b = data[pos];
        if absolute_byte(b) {
            match spec_take_u16(data, limit, pos) {
                Ok(v) => Ok((AddrModeAbsInd::Absolute(v), pos + 3)),
                Err(e) => Err(e),
            }
        } else if indirect_byte(b) {
            match spec_take_u16(data, limit, pos) {
                Ok(v) => Ok((AddrModeAbsInd::Indirect(v), pos + 3)),
                Err(e) => Err(e),
            }
        } else {
            Err(ProgramParseError::InvalidEncoding { byte: b, position: pos as usize })
        }
    }

    /// Reads one operand of this subset for the opcode byte at `pos`.
    pub fn read_at(data: &Vec<u8>, limit: usize, pos: usize) -> (r: Result<(AddrModeAbsInd, usize), ProgramParseError>)
        requires
            pos < limit,
            limit <= data@.len(),
        ensures
            with_int_pos(r) == AddrModeAbsInd::spec_read(data@, limit as int, pos as int),
    {
        let b = data[pos];
        if is_absolute_byte(b) {
            match take_u16(data, limit, pos) {
                Ok(v) => Ok((AddrModeAbsInd::Absolute(v), pos + 3)),
                Err(e) => Err(e),
            }
        } else if is_indirect_byte(b) {
            match take_u16(data, limit, pos) {
                Ok(v) => Ok((AddrModeAbsInd::Indirect(v), pos + 3)),
                Err(e) => Err(e),
            }
        } else {
            Err(ProgramParseError::InvalidEncoding { byte: b, position: pos })
        }
    }
}

/// The error of restricting an `AddressMode` to the `AddrModeAbsInd` subset.
#[derive(Debug, Clone, Copy, PartialEq, Eq, Structural)]
pub struct AddrModeAbsIndConvertError;

/// The addressing-mode subset that SHY may take.
#[derive(Debug, Clone, Copy, PartialEq, Eq, Structural)]
pub enum AddrModeAbsX {
    AbsoluteX(u16),
}

impl AddrModeAbsX {
    /// The same mode in the unrestricted `AddressMode` set.
    pub open spec fn spec_to_address_mode(self) -> AddressMode {
        match self {
            AddrModeAbsX::AbsoluteX(v) => AddressMode::AbsoluteX(v),
        }
    }

    pub fn to_address_mode(self) -> (m: AddressMode)
        ensures
            m == self.spec_to_address_mode(),
    {
        match self {
            AddrModeAbsX::AbsoluteX(v) => AddressMode::AbsoluteX(v),
        }
    }

    /// How many operand bytes follow the opcode byte.
    pub open spec fn spec_size(self) -> int {
        self.spec_to_address_mode().spec_size()
    }

    /// Restricts a mode to this subset; modes outside it are refused.
    pub fn try_from_address_mode(m: AddressMode) -> (r: Result<AddrModeAbsX, AddrModeAbsXConvertError>)
        ensures
            (match r {
                Ok(sub) => sub.spec_to_address_mode() == m,
                Err(_) => forall|sub: AddrModeAbsX| sub.spec_to_address_mode() != m,
            }),
    {
        match m {
            AddressMode::AbsoluteX(v) => Ok(AddrModeAbsX::AbsoluteX(v)),
            _ => Err(AddrModeAbsXConvertError),
        }
    }

    /// The operand bytes this subset reads for the opcode byte `b`, or
    /// `None` if no rule of the subset matches.
    pub open spec fn spec_needed(b: u8) -> Option<int> {
        if absolute_x_byte(b) {
            Some(2)
        } else {
            None
        }
    }

    /// Which mode of this subset the opcode byte at `pos` selects, with its
    /// operand read from the bytes behind it; the rules are tried in the
    /// fixed order of the `AddressMode` variants.
    pub open spec fn spec_read(data: Seq<u8>, limit: int, pos: int) -> Result<(AddrModeAbsX, int), ProgramParseError>
        recommends
            0 <= pos < limit <= data.len(),
    {
        let b = data[pos];
        if absolute_x_byte(b) {
            match spec_take_u16(data, limit, pos) {
                Ok(v) => Ok((AddrModeAbsX::AbsoluteX(v), pos + 3)),
                Err(e) => Err(e),
            }
        } else {
            Err(ProgramParseError::InvalidEncoding { byte: b, position: pos as usize })
        }
    }

    /// Reads one operand of this subset for the opcode byte at `pos`.
    pub fn read_at(data: &Vec<u8>, limit: usize, pos: usize) -> (r: Result<(AddrModeAbsX, usize), ProgramParseError>)
        requires
            pos < limit,
            limit <= data@.len(),
        ensures
            with_int_pos(r) == AddrModeAbsX::spec_read(data@, limit as int, pos as int),
    {
        let b = data[pos];
        if is_absolute_x_byte(b) {
            match take_u16(data, limit, pos) {
                Ok(v) => Ok((AddrModeAbsX::AbsoluteX(v), pos + 3)),
                Err(e) => Err(e),
            }
        } else {
            Err(ProgramParseError::InvalidEncoding { byte: b, position: pos })
        }
    }
}

/// The error of restricting an `AddressMode` to the `AddrModeAbsX` subset.
#[derive(Debug, Clone, Copy, PartialEq, Eq, Structural)]
pub struct AddrModeAbsXConvertError;

/// The addressing-mode subset that LAS, SHX and TAS may take.
#[derive(Debug, Clone, Copy, PartialEq, Eq, Structural)]
pub enum AddrModeAbsY {
    AbsoluteY(u16),
}

impl AddrModeAbsY {
    /// The same mode in the unrestricted `AddressMode` set.
    pub open spec fn spec_to_address_mode(self) -> AddressMode {
        match self {
            AddrModeAbsY::AbsoluteY(v) => AddressMode::AbsoluteY(v),
        }
    }

    pub fn to_address_mode(self) -> (m: AddressMode)
        ensures
            m == self.spec_to_address_mode(),
    {
        match self {
            AddrModeAbsY::AbsoluteY(v) => AddressMode::AbsoluteY(v),
        }
    }

    /// How many operand bytes follow the opcode byte.
    pub open spec fn spec_size(self) -> int {
        self.spec_to_address_mode().spec_size()
    }

    /// Restricts a mode to this subset; modes outside it are refused.
    pub fn try_from_address_mode(m: AddressMode) -> (r: Result<AddrModeAbsY, AddrModeAbsYConvertError>)
        ensures
            (match r {
                Ok(sub) => sub.spec_to_address_mode() == m,
                Err(_) => forall|sub: AddrModeAbsY| sub.spec_to_address_mode() != m,
            }),
    {
        match m {
            AddressMode::AbsoluteY(v) => Ok(AddrModeAbsY::AbsoluteY(v)),
            _ => Err(AddrModeAbsYConvertError),
        }
    }

    /// The operand bytes this subset reads for the opcode byte `b`, or
    /// `None` if no rule of the subset matches.
    pub open spec fn spec_needed(b: u8) -> Option<int> {
        if absolute_y_byte(b) {
            Some(2)
        } else {
            None
        }
    }

    /// Which mode of this subset the opcode byte at `pos` selects, with its
    /// operand read from the bytes behind it; the rules are tried in the
    /// fixed order of the `AddressMode` variants.
    pub open spec fn spec_read(data: Seq<u8>, limit: int, pos: int) -> Result<(AddrModeAbsY, int), ProgramParseError>
        recommends
            0 <= pos < limit <= data.len(),
    {
        let b = data[pos];
        if absolute_y_byte(b) {
            match spec_take_u16(data, limit, pos) {
                Ok(v) => Ok((AddrModeAbsY::AbsoluteY(v), pos + 3)),
                Err(e) => Err(e),
            }
        } else {
            Err(ProgramParseError::InvalidEncoding { byte: b, position: pos as usize })
        }
    }

    /// Reads one operand of this subset for the opcode byte at `pos`.
    pub fn read_at(data: &Vec<u8>, limit: usize, pos: usize) -> (r: Result<(AddrModeAbsY, usize), ProgramParseError>)
        requires
            pos < limit,
            limit <= data@.len(),
        ensures
            with_int_pos(r) == AddrModeAbsY::spec_read(data@, limit as int, pos as int),
    {
        let b = data[pos];
        if is_absolute_y_byte(b) {
            match take_u16(data, limit, pos) {
                Ok(v) => Ok((AddrModeAbsY::AbsoluteY(v), pos + 3)),
                Err(e) => Err(e),
            }
        } else {
            Err(ProgramParseError::InvalidEncoding { byte: b, position: pos })
        }
    }
}

/// The error of restricting an `AddressMode` to the `AddrModeAbsY` subset.
#[derive(Debug, Clone, Copy, PartialEq, Eq, Structural)]
pub struct AddrModeAbsYConvertError;

/// The addressing-mode subset that ALR, ANC, ARR, AXS, LXA, SAX and XAA may take.
#[derive(Debug, Clone, Copy, PartialEq, Eq, Structural)]
pub enum AddrModeImmediate {
    Immediate(u8),
}

impl AddrModeImmediate {
    /// The same mode in the unrestricted `AddressMode` set.
    pub open spec fn spec_to_address_mode(self) -> AddressMode {
        match self {
            AddrModeImmediate::Immediate(v) => AddressMode::Immediate(v),
        }
    }

    pub fn to_address_mode(self) -> (m: AddressMode)
        ensures
            m == self.spec_to_address_mode(),
    {
        match self {
            AddrModeImmediate::Immediate(v) => AddressMode::Immediate(v),
        }
    }

    /// How many operand bytes follow the opcode byte.
    pub open spec fn spec_size(self) -> int {
        self.spec_to_address_mode().spec_size()
    }

    /// Restricts a mode to this subset; modes outside it are refused.
    pub fn try_from_address_mode(m: AddressMode) -> (r: Result<AddrModeImmediate, AddrModeImmediateConvertError>)
        ensures
            (match r {
                Ok(sub) => sub.spec_to_address_mode() == m,
                Err(_) => forall|sub: AddrModeImmediate| sub.spec_to_address_mode() != m,
            }),
    {
        match m {
            AddressMode::Immediate(v) => Ok(AddrModeImmediate::Immediate(v)),
            _ => Err(AddrModeImmediateConvertError),
        }
    }

    /// The operand bytes this subset reads for the opcode byte `b`, or
    /// `None` if no rule of the subset matches.
    pub open spec fn spec_needed(b: u8) -> Option<int> {
        if immediate_byte(b) {
            Some(1)
        } else {
            None
        }
    }

    /// Which mode of this subset the opcode byte at `pos` selects, with its
    /// operand read from the bytes behind it; the rules are tried in the
    /// fixed order of the `AddressMode` variants.
    pub open spec fn spec_read(data: Seq<u8>, limit: int, pos: int) -> Result<(AddrModeImmediate, int), ProgramParseError>
        recommends
            0 <= pos < limit <= data.len(),
    {
        let b = data[pos];
        if immediate_byte(b) {
            match spec_take_u8(data, limit, pos) {
                Ok(v) => Ok((AddrModeImmediate::Immediate(v), pos + 2)),
                Err(e) => Err(e),
            }
        } else {
            Err(ProgramParseError::InvalidEncoding { byte: b, position: pos as usize })
        }
    }

    /// Reads one operand of this subset for the opcode byte at `pos`.
    pub fn read_at(data: &Vec<u8>, limit: usize, pos: usize) -> (r: Result<(AddrModeImmediate, usize), ProgramParseError>)
        requires
            pos < limit,
            limit <= data@.len(),
        ensures
            with_int_pos(r) == AddrModeImmediate::spec_read(data@, limit as int, pos as int),
    {
        let b = data[pos];
        if is_immediate_byte(b) {
            match take_u8(data, limit, pos) {
                Ok(v) => Ok((AddrModeImmediate::Immediate(v), pos + 2)),
                Err(e) => Err(e),
            }
        } else {
            Err(ProgramParseError::InvalidEncoding { byte: b, position: pos })
        }
    }
}

/// The error of restricting an `AddressMode` to the `AddrModeImmediate` subset.
#[derive(Debug, Clone, Copy, PartialEq, Eq, Structural)]
pub struct AddrModeImmediateConvertError;

/// The addressing-mode subset that LAX may take.
#[derive(Debug, Clone, Copy, PartialEq, Eq, Structural)]
pub enum AddrModeLAX {
    Absolute(u16),
    AbsoluteY(u16),
    IndirectX(u8),
    IndirectY(u8),
    ZeroPage(u8),
    ZeroPageY(u8),
}

impl AddrModeLAX {
    /// The same mode in the unrestricted `AddressMode` set.
    pub open spec fn spec_to_address_mode(self) -> AddressMode {
        match self {
            AddrModeLAX::Absolute(v) => AddressMode::Absolute(v),
            AddrModeLAX::AbsoluteY(v) => AddressMode::AbsoluteY(v),
            AddrModeLAX::IndirectX(v) => AddressMode::IndirectX(v),
            AddrModeLAX::IndirectY(v) => AddressMode::IndirectY(v),
            AddrModeLAX::ZeroPage(v) => AddressMode::ZeroPage(v),
            AddrModeLAX::ZeroPageY(v) => AddressMode::ZeroPageY(v),
        }
    }

    pub fn to_address_mode(self) -> (m: AddressMode)
        ensures
            m == self.spec_to_address_mode(),
    {
        match self {
            AddrModeLAX::Absolute(v) => AddressMode::Absolute(v),
            AddrModeLAX::AbsoluteY(v) => AddressMode::AbsoluteY(v),
            AddrModeLAX::IndirectX(v) => AddressMode::IndirectX(v),
            AddrModeLAX::IndirectY(v) => AddressMode::IndirectY(v),
            AddrModeLAX::ZeroPage(v) => AddressMode::ZeroPage(v),
            AddrModeLAX::ZeroPageY(v) => AddressMode::ZeroPageY(v),
        }
    }

    /// How many operand bytes follow the opcode byte.
    pub open spec fn spec_size(self) -> int {
        self.spec_to_address_mode().spec_size()
    }

    /// Restricts a mode to this subset; modes outside it are refused.
    pub fn try_from_address_mode(m: AddressMode) -> (r: Result<AddrModeLAX, AddrModeLAXConvertError>)
        ensures
            (match r {
                Ok(sub) => sub.spec_to_address_mode() == m,
                Err(_) => forall|sub: AddrModeLAX| sub.spec_to_address_mode() != m,
            }),
    {
        match m {
            AddressMode::Absolute(v) => Ok(AddrModeLAX::Absolute(v)),
            AddressMode::AbsoluteY(v) => Ok(AddrModeLAX::AbsoluteY(v)),
            AddressMode::IndirectX(v) => Ok(AddrModeLAX::IndirectX(v)),
            AddressMode::IndirectY(v) => Ok(AddrModeLAX::IndirectY(v)),
            AddressMode::ZeroPage(v) => Ok(AddrModeLAX::ZeroPage(v)),
            AddressMode::ZeroPageY(v) => Ok(AddrModeLAX::ZeroPageY(v)),
            _ => Err(AddrModeLAXConvertError),
        }
    }

    /// The operand bytes this subset reads for the opcode byte `b`, or
    /// `None` if no rule of the subset matches.
    pub open spec fn spec_needed(b: u8) -> Option<int> {
        if absolute_byte(b) {
            Some(2)
        } else if absolute_y_byte(b) {
            Some(2)
        } else if indirect_x_byte(b) {
            Some(1)
        } else if indirect_y_byte(b) {
            Some(1)
        } else if zero_page_byte(b) {
            Some(1)
        } else if zero_page_y_byte(b) {
            Some(1)
        } else {
            None
        }
    }

    /// Which mode of this subset the opcode byte at `pos` selects, with its
    /// operand read from the bytes behind it; the rules are tried in the
    /// fixed order of the `AddressMode` variants.
    pub open spec fn spec_read(data: Seq<u8>, limit: int, pos: int) -> Result<(AddrModeLAX, int), ProgramParseError>
        recommends
            0 <= pos < limit <= data.len(),
    {
        let b = data[pos];
        if absolute_byte(b) {
            match spec_take_u16(data, limit, pos) {
                Ok(v) => Ok((AddrModeLAX::Absolute(v), pos + 3)),
                Err(e) => Err(e),
            }
        } else if absolute_y_byte(b) {
            match spec_take_u16(data, limit, pos) {
                Ok(v) => Ok((AddrModeLAX::AbsoluteY(v), pos + 3)),
                Err(e) => Err(e),
            }
        } else if indirect_x_byte(b) {
            match spec_take_u8(data, limit, pos) {
                Ok(v) => Ok((AddrModeLAX::IndirectX(v), pos + 2)),
                Err(e) => Err(e),
            }
        } else if indirect_y_byte(b) {
            match spec_take_u8(data, limit, pos) {
                Ok(v) => Ok((AddrModeLAX::IndirectY(v), pos + 2)),
                Err(e) => Err(e),
            }
        } else if zero_page_byte(b) {
            match spec_take_u8(data, limit, pos) {
                Ok(v) => Ok((AddrModeLAX::ZeroPage(v), pos + 2)),
                Err(e) => Err(e),
            }
        } else if zero_page_y_byte(b) {
            match spec_take_u8(data, limit, pos) {
                Ok(v) => Ok((AddrModeLAX::ZeroPageY(v), pos + 2)),
                Err(e) => Err(e),
            }
        } else {
            Err(ProgramParseError::InvalidEncoding { byte: b, position: pos as usize })
        }
    }

    /// Reads one operand of this subset for the opcode byte at `pos`.
    pub fn read_at(data: &Vec<u8>, limit: usize, pos: usize) -> (r: Result<(AddrModeLAX, usize), ProgramParseError>)
        requires
            pos < limit,
            limit <= data@.len(),
        ensures
            with_int_pos(r) == AddrModeLAX::spec_read(data@, limit as int, pos as int),
    {
        let b = data[pos];
        if is_absolute_byte(b) {
            match take_u16(data, limit, pos) {
                Ok(v) => Ok((AddrModeLAX::Absolute(v), pos + 3)),
                Err(e) => Err(e),
            }
        } else if is_absolute_y_byte(b) {
            match take_u16(data, limit, pos) {
                Ok(v) => Ok((AddrModeLAX::AbsoluteY(v), pos + 3)),
                Err(e) => Err(e),
            }
        } else if is_indirect_x_byte(b) {
            match take_u8(data, limit, pos) {
                Ok(v) => Ok((AddrModeLAX::IndirectX(v), pos + 2)),
                Err(e) => Err(e),
            }
        } else if is_indirect_y_byte(b) {
            match take_u8(data, limit, pos) {
                Ok(v) => Ok((AddrModeLAX::IndirectY(v), pos + 2)),
                Err(e) => Err(e),
            }
        } else if is_zero_page_byte(b) {
            match take_u8(data, limit, pos) {
                Ok(v) => Ok((AddrModeLAX::ZeroPage(v), pos + 2)),
                Err(e) => Err(e),
            }
        } else if is_zero_page_y_byte(b) {
            match take_u8(data, limit, pos) {
                Ok(v) => Ok((AddrModeLAX::ZeroPageY(v), pos + 2)),
                Err(e) => Err(e),
            }
        } else {
            Err(ProgramParseError::InvalidEncoding { byte: b, position: pos })
        }
    }
}

/// The error of restricting an `AddressMode` to the `AddrModeLAX` subset.
#[derive(Debug, Clone, Copy, PartialEq, Eq, Structural)]
pub struct AddrModeLAXConvertError;

/// The addressing-mode subset that ADC, AND, CMP, EOR, LDA, ORA and SBC may take.
#[derive(Debug, Clone, Copy, PartialEq, Eq, Structural)]
pub enum AddrModeNoZeropageY {
    Absolute(u16),
    AbsoluteX(u16),
    AbsoluteY(u16),
    Immediate(u8),
    IndirectX(u8),
    IndirectY(u8),
    ZeroPage(u8),
    ZeroPageX(u8),
}

impl AddrModeNoZeropageY {
    /// The same mode in the unrestricted `AddressMode` set.
    pub open spec fn spec_to_address_mode(self) -> AddressMode {
        match self {
            AddrModeNoZeropageY::Absolute(v) => AddressMode::Absolute(v),
            AddrModeNoZeropageY::AbsoluteX(v) => AddressMode::AbsoluteX(v),
            AddrModeNoZeropageY::AbsoluteY(v) => AddressMode::AbsoluteY(v),
            AddrModeNoZeropageY::Immediate(v) => AddressMode::Immediate(v),
            AddrModeNoZeropageY::IndirectX(v) => AddressMode::IndirectX(v),
            AddrModeNoZeropageY::IndirectY(v) => AddressMode::IndirectY(v),
            AddrModeNoZeropageY::ZeroPage(v) => AddressMode::ZeroPage(v),
            AddrModeNoZeropageY::ZeroPageX(v) => AddressMode::ZeroPageX(v),
        }
    }

    pub fn to_address_mode(self) -> (m: AddressMode)
        ensures
            m == self.spec_to_address_mode(),
    {
        match self {
            AddrModeNoZeropageY::Absolute(v) => AddressMode::Absolute(v),
            AddrModeNoZeropageY::AbsoluteX(v) => AddressMode::AbsoluteX(v),
            AddrModeNoZeropageY::AbsoluteY(v) => AddressMode::AbsoluteY(v),
            AddrModeNoZeropageY::Immediate(v) => AddressMode::Immediate(v),
            AddrModeNoZeropageY::IndirectX(v) => AddressMode::IndirectX(v),
            AddrModeNoZeropageY::IndirectY(v) => AddressMode::IndirectY(v),
            AddrModeNoZeropageY::ZeroPage(v) => AddressMode::ZeroPage(v),
            AddrModeNoZeropageY::ZeroPageX(v) => AddressMode::ZeroPageX(v),
        }
    }

    /// How many operand bytes follow the opcode byte.
    pub open spec fn spec_size(self) -> int {
        self.spec_to_address_mode().spec_size()
    }

    /// Restricts a mode to this subset; modes outside it are refused.
    pub fn try_from_address_mode(m: AddressMode) -> (r: Result<AddrModeNoZeropageY, AddrModeNoZeropageYConvertError>)
        ensures
            (match r {
                Ok(sub) => sub.spec_to_address_mode() == m,
                Err(_) => forall|sub: AddrModeNoZeropageY| sub.spec_to_address_mode() != m,
            }),
    {
        match m {
            AddressMode::Absolute(v) => Ok(AddrModeNoZeropageY::Absolute(v)),
            AddressMode::AbsoluteX(v) => Ok(AddrModeNoZeropageY::AbsoluteX(v)),
            AddressMode::AbsoluteY(v) => Ok(AddrModeNoZeropageY::AbsoluteY(v)),
            AddressMode::Immediate(v) => Ok(AddrModeNoZeropageY::Immediate(v)),
            AddressMode::IndirectX(v) => Ok(AddrModeNoZeropageY::IndirectX(v)),
            AddressMode::IndirectY(v) => Ok(AddrModeNoZeropageY::IndirectY(v)),
            AddressMode::ZeroPage(v) => Ok(AddrModeNoZeropageY::ZeroPage(v)),
            AddressMode::ZeroPageX(v) => Ok(AddrModeNoZeropageY::ZeroPageX(v)),
            _ => Err(AddrModeNoZeropageYConvertError),
        }
    }

    /// The operand bytes this subset reads for the opcode byte `b`, or
    /// `None` if no rule of the subset matches.
    pub open spec fn spec_needed(b: u8) -> Option<int> {
        if absolute_byte(b) {
            Some(2)
        } else if absolute_x_byte(b) {
            Some(2)
        } else if absolute_y_byte(b) {
            Some(2)
        } else if immediate_byte(b) {
            Some(1)
        } else if indirect_x_byte(b) {
            Some(1)
        } else if indirect_y_byte(b) {
            Some(1)
        } else if zero_page_byte(b) {
            Some(1)
        } else if zero_page_x_byte(b) {
            Some(1)
        } else {
            None
        }
    }

    /// Which mode of this subset the opcode byte at `pos` selects, with its
    /// operand read from the bytes behind it; the rules are tried in the
    /// fixed order of the `AddressMode` variants.
    pub open spec fn spec_read(data: Seq<u8>, limit: int, pos: int) -> Result<(AddrModeNoZeropageY, int), ProgramParseError>
        recommends
            0 <= pos < limit <= data.len(),
    {
        let b = data[pos];
        if absolute_byte(b) {
            match spec_take_u16(data, limit, pos) {
                Ok(v) => Ok((AddrModeNoZeropageY::Absolute(v), pos + 3)),
                Err(e) => Err(e),
            }
        } else if absolute_x_byte(b) {
            match spec_take_u16(data, limit, pos) {
                Ok(v) => Ok((AddrModeNoZeropageY::AbsoluteX(v), pos + 3)),
                Err(e) => Err(e),
            }
        } else if absolute_y_byte(b) {
            match spec_take_u16(data, limit, pos) {
                Ok(v) => Ok((AddrModeNoZeropageY::AbsoluteY(v), pos + 3)),
                Err(e) => Err(e),
            }
        } else if immediate_byte(b) {
            match spec_take_u8(data, limit, pos) {
                Ok(v) => Ok((AddrModeNoZeropageY::Immediate(v), pos + 2)),
                Err(e) => Err(e),
            }
        } else if indirect_x_byte(b) {
            match spec_take_u8(data, limit, pos) {
                Ok(v) => Ok((AddrModeNoZeropageY::IndirectX(v), pos + 2)),
                Err(e) => Err(e),
            }
        } else if indirect_y_byte(b) {
            match spec_take_u8(data, limit, pos) {
                Ok(v) => Ok((AddrModeNoZeropageY::IndirectY(v), pos + 2)),
                Err(e) => Err(e),
            }
        } else if zero_page_byte(b) {
            match spec_take_u8(data, limit, pos) {
                Ok(v) => Ok((AddrModeNoZeropageY::ZeroPage(v), pos + 2)),
                Err(e) => Err(e),
            }
        } else if zero_page_x_byte(b) {
            match spec_take_u8(data, limit, pos) {
                Ok(v) => Ok((AddrModeNoZeropageY::ZeroPageX(v), pos + 2)),
                Err(e) => Err(e),
            }
        } else {
            Err(ProgramParseError::InvalidEncoding { byte: b, position: pos as usize })
        }
    }

    /// Reads one operand of this subset for the opcode byte at `pos`.
    pub fn read_at(data: &Vec<u8>, limit: usize, pos: usize) -> (r: Result<(AddrModeNoZeropageY, usize), ProgramParseError>)
        requires
            pos < limit,
            limit <= data@.len(),
        ensures
            with_int_pos(r) == AddrModeNoZeropageY::spec_read(data@, limit as int, pos as int),
    {
        let b = data[pos];
        if is_absolute_byte(b) {
            match take_u16(data, limit, pos) {
                Ok(v) => Ok((AddrModeNoZeropageY::Absolute(v), pos + 3)),
                Err(e) => Err(e),
            }
        } else if is_absolute_x_byte(b) {
            match take_u16(data, limit, pos) {
                Ok(v) => Ok((AddrModeNoZeropageY::AbsoluteX(v), pos + 3)),
                Err(e) => Err(e),
            }
        } else if is_absolute_y_byte(b) {
            match take_u16(data, limit, pos) {
                Ok(v) => Ok((AddrModeNoZeropageY::AbsoluteY(v), pos + 3)),
                Err(e) => Err(e),
            }
        } else if is_immediate_byte(b) {
            match take_u8(data, limit, pos) {
                Ok(v) => Ok((AddrModeNoZeropageY::Immediate(v), pos + 2)),
                Err(e) => Err(e),
            }
        } else if is_indirect_x_byte(b) {
            match take_u8(data, limit, pos) {
                Ok(v) => Ok((AddrModeNoZeropageY::IndirectX(v), pos + 2)),
                Err(e) => Err(e),
            }
        } else if is_indirect_y_byte(b) {
            match take_u8(data, limit, pos) {
                Ok(v) => Ok((AddrModeNoZeropageY::IndirectY(v), pos + 2)),
                Err(e) => Err(e),
            }
        } else if is_zero_page_byte(b) {
            match take_u8(data, limit, pos) {
                Ok(v) => Ok((AddrModeNoZeropageY::ZeroPage(v), pos + 2)),
                Err(e) => Err(e),
            }
        } else if is_zero_page_x_byte(b) {
            match take_u8(data, limit, pos) {
                Ok(v) => Ok((AddrModeNoZeropageY::ZeroPageX(v), pos + 2)),
                Err(e) => Err(e),
            }
        } else {
            Err(ProgramParseError::InvalidEncoding { byte: b, position: pos })
        }
    }
}

/// The error of restricting an `AddressMode` to the `AddrModeNoZeropageY` subset.
#[derive(Debug, Clone, Copy, PartialEq, Eq, Structural)]
pub struct AddrModeNoZeropageYConvertError;

/// The addressing-mode subset that STA, DCP, ISC, RLA, RRA, SLO and SRE may take.
#[derive(Debug, Clone, Copy, PartialEq, Eq, Structural)]
pub enum AddrModeNoZeropageYNoImm {
    Absolute(u16),
    AbsoluteX(u16),
    AbsoluteY(u16),
    IndirectX(u8),
    IndirectY(u8),
    ZeroPage(u8),
    ZeroPageX(u8),
}

impl AddrModeNoZeropageYNoImm {
    /// The same mode in the unrestricted `AddressMode` set.
    pub open spec fn spec_to_address_mode(self) -> AddressMode {
        match self {
            AddrModeNoZeropageYNoImm::Absolute(v) => AddressMode::Absolute(v),
            AddrModeNoZeropageYNoImm::AbsoluteX(v) => AddressMode::AbsoluteX(v),
            AddrModeNoZeropageYNoImm::AbsoluteY(v) => AddressMode::AbsoluteY(v),
            AddrModeNoZeropageYNoImm::IndirectX(v) => AddressMode::IndirectX(v),
            AddrModeNoZeropageYNoImm::IndirectY(v) => AddressMode::IndirectY(v),
            AddrModeNoZeropageYNoImm::ZeroPage(v) => AddressMode::ZeroPage(v),
            AddrModeNoZeropageYNoImm::ZeroPageX(v) => AddressMode::ZeroPageX(v),
        }
    }

    pub fn to_address_mode(self) -> (m: AddressMode)
        ensures
            m == self.spec_to_address_mode(),
    {
        match self {
            AddrModeNoZeropageYNoImm::Absolute(v) => AddressMode::Absolute(v),
            AddrModeNoZeropageYNoImm::AbsoluteX(v) => AddressMode::AbsoluteX(v),
            AddrModeNoZeropageYNoImm::AbsoluteY(v) => AddressMode::AbsoluteY(v),
            AddrModeNoZeropageYNoImm::IndirectX(v) => AddressMode::IndirectX(v),
            AddrModeNoZeropageYNoImm::IndirectY(v) => AddressMode::IndirectY(v),
            AddrModeNoZeropageYNoImm::ZeroPage(v) => AddressMode::ZeroPage(v),
            AddrModeNoZeropageYNoImm::ZeroPageX(v) => AddressMode::ZeroPageX(v),
        }
    }

    /// How many operand bytes follow the opcode byte.
    pub open spec fn spec_size(self) -> int {
        self.spec_to_address_mode().spec_size()
    }

    /// Restricts a mode to this subset; modes outside it are refused.
    pub fn try_from_address_mode(m: AddressMode) -> (r: Result<AddrModeNoZeropageYNoImm, AddrModeNoZeropageYNoImmConvertError>)
        ensures
            (match r {
                Ok(sub) => sub.spec_to_address_mode() == m,
                Err(_) => forall|sub: AddrModeNoZeropageYNoImm| sub.spec_to_address_mode() != m,
            }),
    {
        match m {
            AddressMode::Absolute(v) => Ok(AddrModeNoZeropageYNoImm::Absolute(v)),
            AddressMode::AbsoluteX(v) => Ok(AddrModeNoZeropageYNoImm::AbsoluteX(v)),
            AddressMode::AbsoluteY(v) => Ok(AddrModeNoZeropageYNoImm::AbsoluteY(v)),
            AddressMode::IndirectX(v) => Ok(AddrModeNoZeropageYNoImm::IndirectX(v)),
            AddressMode::IndirectY(v) => Ok(AddrModeNoZeropageYNoImm::IndirectY(v)),
            AddressMode::ZeroPage(v) => Ok(AddrModeNoZeropageYNoImm::ZeroPage(v)),
            AddressMode::ZeroPageX(v) => Ok(AddrModeNoZeropageYNoImm::ZeroPageX(v)),
            _ => Err(AddrModeNoZeropageYNoImmConvertError),
        }
    }

    /// The operand bytes this subset reads for the opcode byte `b`, or
    /// `None` if no rule of the subset matches.
    pub open spec fn spec_needed(b: u8) -> Option<int> {
        if absolute_byte(b) {
            Some(2)
        } else if absolute_x_byte(b) {
            Some(2)
        } else if absolute_y_byte(b) {
            Some(2)
        } else if indirect_x_byte(b) {
            Some(1)
        } else if indirect_y_byte(b) {
            Some(1)
        } else if zero_page_byte(b) {
            Some(1)
        } else if zero_page_x_byte(b) {
            Some(1)
        } else {
            None
        }
    }

    /// Which mode of this subset the opcode byte at `pos` selects, with its
    /// operand read from the bytes behind it; the rules are tried in the
    /// fixed order of the `AddressMode` variants.
    pub open spec fn spec_read(data: Seq<u8>, limit: int, pos: int) -> Result<(AddrModeNoZeropageYNoImm, int), ProgramParseError>
        recommends
            0 <= pos < limit <= data.len(),
    {
        let b = data[pos];
        if absolute_byte(b) {
            match spec_take_u16(data, limit, pos) {
                Ok(v) => Ok((AddrModeNoZeropageYNoImm::Absolute(v), pos + 3)),
                Err(e) => Err(e),
            }
        } else if absolute_x_byte(b) {
            match spec_take_u16(data, limit, pos) {
                Ok(v) => Ok((AddrModeNoZeropageYNoImm::AbsoluteX(v), pos + 3)),
                Err(e) => Err(e),
            }
        } else if absolute_y_byte(b) {
            match spec_take_u16(data, limit, pos) {
                Ok(v) => Ok((AddrModeNoZeropageYNoImm::AbsoluteY(v), pos + 3)),
                Err(e) => Err(e),
            }
        } else if indirect_x_byte(b) {
            match spec_take_u8(data, limit, pos) {
                Ok(v) => Ok((AddrModeNoZeropageYNoImm::IndirectX(v), pos + 2)),
                Err(e) => Err(e),
            }
        } else if indirect_y_byte(b) {
            match spec_take_u8(data, limit, pos) {
                Ok(v) => Ok((AddrModeNoZeropageYNoImm::IndirectY(v), pos + 2)),
                Err(e) => Err(e),
            }
        } else if zero_page_byte(b) {
            match spec_take_u8(data, limit, pos) {
                Ok(v) => Ok((AddrModeNoZeropageYNoImm::ZeroPage(v), pos + 2)),
                Err(e) => Err(e),
            }
        } else if zero_page_x_byte(b) {
            match spec_take_u8(data, limit, pos) {
                Ok(v) => Ok((AddrModeNoZeropageYNoImm::ZeroPageX(v), pos + 2)),
                Err(e) => Err(e),
            }
        } else {
            Err(ProgramParseError::InvalidEncoding { byte: b, position: pos as usize })
        }
    }

    /// Reads one operand of this subset for the opcode byte at `pos`.
    pub fn read_at(data: &Vec<u8>, limit: usize, pos: usize) -> (r: Result<(AddrModeNoZeropageYNoImm, usize), ProgramParseError>)
        requires
            pos < limit,
            limit <= data@.len(),
        ensures
            with_int_pos(r) == AddrModeNoZeropageYNoImm::spec_read(data@, limit as int, pos as int),
    {
        let b = data[pos];
        if is_absolute_byte(b) {
            match take_u16(data, limit, pos) {
                Ok(v) => Ok((AddrModeNoZeropageYNoImm::Absolute(v), pos + 3)),
                Err(e) => Err(e),
            }
        } else if is_absolute_x_byte(b) {
            match take_u16(data, limit, pos) {
                Ok(v) => Ok((AddrModeNoZeropageYNoImm::AbsoluteX(v), pos + 3)),
                Err(e) => Err(e),
            }
        } else if is_absolute_y_byte(b) {
            match take_u16(data, limit, pos) {
                Ok(v) => Ok((AddrModeNoZeropageYNoImm::AbsoluteY(v), pos + 3)),
                Err(e) => Err(e),
            }
        } else if is_indirect_x_byte(b) {
            match take_u8(data, limit, pos) {
                Ok(v) => Ok((AddrModeNoZeropageYNoImm::IndirectX(v), pos + 2)),
                Err(e) => Err(e),
            }
        } else if is_indirect_y_byte(b) {
            match take_u8(data, limit, pos) {
                Ok(v) => Ok((AddrModeNoZeropageYNoImm::IndirectY(v), pos + 2)),
                Err(e) => Err(e),
            }
        } else if is_zero_page_byte(b) {
            match take_u8(data, limit, pos) {
                Ok(v) => Ok((AddrModeNoZeropageYNoImm::ZeroPage(v), pos + 2)),
                Err(e) => Err(e),
            }
        } else if is_zero_page_x_byte(b) {
            match take_u8(data, limit, pos) {
                Ok(v) => Ok((AddrModeNoZeropageYNoImm::ZeroPageX(v), pos + 2)),
                Err(e) => Err(e),
            }
        } else {
            Err(ProgramParseError::InvalidEncoding { byte: b, position: pos })
        }
    }
}

/// The error of restricting an `AddressMode` to the `AddrModeNoZeropageYNoImm` subset.
#[derive(Debug, Clone, Copy, PartialEq, Eq, Structural)]
pub struct AddrModeNoZeropageYNoImmConvertError;

/// The addressing-mode subset that the branch instructions may take.
#[derive(Debug, Clone, Copy, PartialEq, Eq, Structural)]
pub enum AddrModeRelative {
    Relative(u8),
}

impl AddrModeRelative {
    /// The same mode in the unrestricted `AddressMode` set.
    pub open spec fn spec_to_address_mode(self) -> AddressMode {
        match self {
            AddrModeRelative::Relative(v) => AddressMode::Relative(v),
        }
    }

    pub fn to_address_mode(self) -> (m: AddressMode)
        ensures
            m == self.spec_to_address_mode(),
    {
        match self {
            AddrModeRelative::Relative(v) => AddressMode::Relative(v),
        }
    }

    /// How many operand bytes follow the opcode byte.
    pub open spec fn spec_size(self) -> int {
        self.spec_to_address_mode().spec_size()
    }

    /// Restricts a mode to this subset; modes outside it are refused.
    pub fn try_from_address_mode(m: AddressMode) -> (r: Result<AddrModeRelative, AddrModeRelativeConvertError>)
        ensures
            (match r {
                Ok(sub) => sub.spec_to_address_mode() == m,
                Err(_) => forall|sub: AddrModeRelative| sub.spec_to_address_mode() != m,
            }),
    {
        match m {
            AddressMode::Relative(v) => Ok(AddrModeRelative::Relative(v)),
            _ => Err(AddrModeRelativeConvertError),
        }
    }

    /// The operand bytes this subset reads for the opcode byte `b`, or
    /// `None` if no rule of the subset matches.
    pub open spec fn spec_needed(b: u8) -> Option<int> {
        if relative_byte(b) {
            Some(1)
        } else {
            None
        }
    }

    /// Which mode of this subset the opcode byte at `pos` selects, with its
    /// operand read from the bytes behind it; the rules are tried in the
    /// fixed order of the `AddressMode` variants.
    pub open spec fn spec_read(data: Seq<u8>, limit: int, pos: int) -> Result<(AddrModeRelative, int), ProgramParseError>
        recommends
            0 <= pos < limit <= data.len(),
    {
        let b = data[pos];
        if relative_byte(b) {
            match spec_take_u8(data, limit, pos) {
                Ok(v) => Ok((AddrModeRelative::Relative(v), pos + 2)),
                Err(e) => Err(e),
            }
        } else {
            Err(ProgramParseError::InvalidEncoding { byte: b, position: pos as usize })
        }
    }

    /// Reads one operand of this subset for the opcode byte at `pos`.
    pub fn read_at(data: &Vec<u8>, limit: usize, pos: usize) -> (r: Result<(AddrModeRelative, usize), ProgramParseError>)
        requires
            pos < limit,
            limit <= data@.len(),
        ensures
            with_int_pos(r) == AddrModeRelative::spec_read(data@, limit as int, pos as int),
    {
        let b = data[pos];
        if is_relative_byte(b) {
            match take_u8(data, limit, pos) {
                Ok(v) => Ok((AddrModeRelative::Relative(v), pos + 2)),
                Err(e) => Err(e),
            }
        } else {
            Err(ProgramParseError::InvalidEncoding { byte: b, position: pos })
        }
    }
}

/// The error of restricting an `AddressMode` to the `AddrModeRelative` subset.
#[derive(Debug, Clone, Copy, PartialEq, Eq, Structural)]
pub struct AddrModeRelativeConvertError;

/// The addressing-mode subset that STX may take.
#[derive(Debug, Clone, Copy, PartialEq, Eq, Structural)]
pub enum AddrModeSTX {
    Absolute(u16),
    ZeroPage(u8),
    ZeroPageY(u8),
}

impl AddrModeSTX {
    /// The same mode in the unrestricted `AddressMode` set.
    pub open spec fn spec_to_address_mode(self) -> AddressMode {
        match self {
            AddrModeSTX::Absolute(v) => AddressMode::Absolute(v),
            AddrModeSTX::ZeroPage(v) => AddressMode::ZeroPage(v),
            AddrModeSTX::ZeroPageY(v) => AddressMode::ZeroPageY(v),
        }
    }

    pub fn to_address_mode(self) -> (m: AddressMode)
        ensures
            m == self.spec_to_address_mode(),
    {
        match self {
            AddrModeSTX::Absolute(v) => AddressMode::Absolute(v),
            AddrModeSTX::ZeroPage(v) => AddressMode::ZeroPage(v),
            AddrModeSTX::ZeroPageY(v) => AddressMode::ZeroPageY(v),
        }
    }

    /// How many operand bytes follow the opcode byte.
    pub open spec fn spec_size(self) -> int {
        self.spec_to_address_mode().spec_size()
    }

    /// Restricts a mode to this subset; modes outside it are refused.
    pub fn try_from_address_mode(m: AddressMode) -> (r: Result<AddrModeSTX, AddrModeSTXConvertError>)
        ensures
            (match r {
                Ok(sub) => sub.spec_to_address_mode() == m,
                Err(_) => forall|sub: AddrModeSTX| sub.spec_to_address_mode() != m,
            }),
    {
        match m {
            AddressMode::Absolute(v) => Ok(AddrModeSTX::Absolute(v)),
            AddressMode::ZeroPage(v) => Ok(AddrModeSTX::ZeroPage(v)),
            AddressMode::ZeroPageY(v) => Ok(AddrModeSTX::ZeroPageY(v)),
            _ => Err(AddrModeSTXConvertError),
        }
    }

    /// The operand bytes this subset reads for the opcode byte `b`, or
    /// `None` if no rule of the subset matches.
    pub open spec fn spec_needed(b: u8) -> Option<int> {
        if absolute_byte(b) {
            Some(2)
        } else if zero_page_byte(b) {
            Some(1)
        } else if zero_page_y_byte(b) {
            Some(1)
        } else {
            None
        }
    }

    /// Which mode of this subset the opcode byte at `pos` selects, with its
    /// operand read from the bytes behind it; the rules are tried in the
    /// fixed order of the `AddressMode` variants.
    pub open spec fn spec_read(data: Seq<u8>, limit: int, pos: int) -> Result<(AddrModeSTX, int), ProgramParseError>
        recommends
            0 <= pos < limit <= data.len(),
    {
        let b = data[pos];
        if absolute_byte(b) {
            match spec_take_u16(data, limit, pos) {
                Ok(v) => Ok((AddrModeSTX::Absolute(v), pos + 3)),
                Err(e) => Err(e),
            }
        } else if zero_page_byte(b) {
            match spec_take_u8(data, limit, pos) {
                Ok(v) => Ok((AddrModeSTX::ZeroPage(v), pos + 2)),
                Err(e) => Err(e),
            }
        } else if zero_page_y_byte(b) {
            match spec_take_u8(data, limit, pos) {
                Ok(v) => Ok((AddrModeSTX::ZeroPageY(v), pos + 2)),
                Err(e) => Err(e),
            }
        } else {
            Err(ProgramParseError::InvalidEncoding { byte: b, position: pos as usize })
        }
    }

    /// Reads one operand of this subset for the opcode byte at `pos`.
    pub fn read_at(data: &Vec<u8>, limit: usize, pos: usize) -> (r: Result<(AddrModeSTX, usize), ProgramParseError>)
        requires
            pos < limit,
            limit <= data@.len(),
        ensures
            with_int_pos(r) == AddrModeSTX::spec_read(data@, limit as int, pos as int),
    {
        let b = data[pos];
        if is_absolute_byte(b) {
            match take_u16(data, limit, pos) {
                Ok(v) => Ok((AddrModeSTX::Absolute(v), pos + 3)),
                Err(e) => Err(e),
            }
        } else if is_zero_page_byte(b) {
            match take_u8(data, limit, pos) {
                Ok(v) => Ok((AddrModeSTX::ZeroPage(v), pos + 2)),
                Err(e) => Err(e),
            }
        } else if is_zero_page_y_byte(b) {
            match take_u8(data, limit, pos) {
                Ok(v) => Ok((AddrModeSTX::ZeroPageY(v), pos + 2)),
                Err(e) => Err(e),
            }
        } else {
            Err(ProgramParseError::InvalidEncoding { byte: b, position: pos })
        }
    }
}

/// The error of restricting an `AddressMode` to the `AddrModeSTX` subset.
#[derive(Debug, Clone, Copy, PartialEq, Eq, Structural)]
pub struct AddrModeSTXConvertError;

/// The addressing-mode subset that STY may take.
#[derive(Debug, Clone, Copy, PartialEq, Eq, Structural)]
pub enum AddrModeSTY {
    Absolute(u16),
    ZeroPage(u8),
    ZeroPageX(u8),
}

impl AddrModeSTY {
    /// The same mode in the unrestricted `AddressMode` set.
    pub open spec fn spec_to_address_mode(self) -> AddressMode {
        match self {
            AddrModeSTY::Absolute(v) => AddressMode::Absolute(v),
            AddrModeSTY::ZeroPage(v) => AddressMode::ZeroPage(v),
            AddrModeSTY::ZeroPageX(v) => AddressMode::ZeroPageX(v),
        }
    }

    pub fn to_address_mode(self) -> (m: AddressMode)
        ensures
            m == self.spec_to_address_mode(),
    {
        match self {
            AddrModeSTY::Absolute(v) => AddressMode::Absolute(v),
            AddrModeSTY::ZeroPage(v) => AddressMode::ZeroPage(v),
            AddrModeSTY::ZeroPageX(v) => AddressMode::ZeroPageX(v),
        }
    }

    /// How many operand bytes follow the opcode byte.
    pub open spec fn spec_size(self) -> int {
        self.spec_to_address_mode().spec_size()
    }

    /// Restricts a mode to this subset; modes outside it are refused.
    pub fn try_from_address_mode(m: AddressMode) -> (r: Result<AddrModeSTY, AddrModeSTYConvertError>)
        ensures
            (match r {
                Ok(sub) => sub.spec_to_address_mode() == m,
                Err(_) => forall|sub: AddrModeSTY| sub.spec_to_address_mode() != m,
            }),
    {
        match m {
            AddressMode::Absolute(v) => Ok(AddrModeSTY::Absolute(v)),
            AddressMode::ZeroPage(v) => Ok(AddrModeSTY::ZeroPage(v)),
            AddressMode::ZeroPageX(v) => Ok(AddrModeSTY::ZeroPageX(v)),
            _ => Err(AddrModeSTYConvertError),
        }
    }

    /// The operand bytes this subset reads for the opcode byte `b`, or
    /// `None` if no rule of the subset matches.
    pub open spec fn spec_needed(b: u8) -> Option<int> {
        if absolute_byte(b) {
            Some(2)
        } else if zero_page_byte(b) {
            Some(1)
        } else if zero_page_x_byte(b) {
            Some(1)
        } else {
            None
        }
    }

    /// Which mode of this subset the opcode byte at `pos` selects, with its
    /// operand read from the bytes behind it; the rules are tried in the
    /// fixed order of the `AddressMode` variants.
    pub open spec fn spec_read(data: Seq<u8>, limit: int, pos: int) -> Result<(AddrModeSTY, int), ProgramParseError>
        recommends
            0 <= pos < limit <= data.len(),
    {
        let b = data[pos];
        if absolute_byte(b) {
            match spec_take_u16(data, limit, pos) {
                Ok(v) => Ok((AddrModeSTY::Absolute(v), pos + 3)),
                Err(e) => Err(e),
            }
        } else if zero_page_byte(b) {
            match spec_take_u8(data, limit, pos) {
                Ok(v) => Ok((AddrModeSTY::ZeroPage(v), pos + 2)),
                Err(e) => Err(e),
            }
        } else if zero_page_x_byte(b) {
            match spec_take_u8(data, limit, pos) {
                Ok(v) => Ok((AddrModeSTY::ZeroPageX(v), pos + 2)),
                Err(e) => Err(e),
            }
        } else {
            Err(ProgramParseError::InvalidEncoding { byte: b, position: pos as usize })
        }
    }

    /// Reads one operand of this subset for the opcode byte at `pos`.
    pub fn read_at(data: &Vec<u8>, limit: usize, pos: usize) -> (r: Result<(AddrModeSTY, usize), ProgramParseError>)
        requires
            pos < limit,
            limit <= data@.len(),
        ensures
            with_int_pos(r) == AddrModeSTY::spec_read(data@, limit as int, pos as int),
    {
        let b = data[pos];
        if is_absolute_byte(b) {
            match take_u16(data, limit, pos) {
                Ok(v) => Ok((AddrModeSTY::Absolute(v), pos + 3)),
                Err(e) => Err(e),
            }
        } else if is_zero_page_byte(b) {
            match take_u8(data, limit, pos) {
                Ok(v) => Ok((AddrModeSTY::ZeroPage(v), pos + 2)),
                Err(e) => Err(e),
            }
        } else if is_zero_page_x_byte(b) {
            match take_u8(data, limit, pos) {
                Ok(v) => Ok((AddrModeSTY::ZeroPageX(v), pos + 2)),
                Err(e) => Err(e),
            }
        } else {
            Err(ProgramParseError::InvalidEncoding { byte: b, position: pos })
        }
    }
}

/// The error of restricting an `AddressMode` to the `AddrModeSTY` subset.
#[derive(Debug, Clone, Copy, PartialEq, Eq, Structural)]
pub struct AddrModeSTYConvertError;

/// The addressing-mode subset that BIT may take.
#[derive(Debug, Clone, Copy, PartialEq, Eq, Structural)]
pub enum AddrModeSimple {
    Absolute(u16),
    ZeroPage(u8),
}

impl AddrModeSimple {
    /// The same mode in the unrestricted `AddressMode` set.
    pub open spec fn spec_to_address_mode(self) -> AddressMode {
        match self {
            AddrModeSimple::Absolute(v) => AddressMode::Absolute(v),
            AddrModeSimple::ZeroPage(v) => AddressMode::ZeroPage(v),
        }
    }

    pub fn to_address_mode(self) -> (m: AddressMode)
        ensures
            m == self.spec_to_address_mode(),
    {
        match self {
            AddrModeSimple::Absolute(v) => AddressMode::Absolute(v),
            AddrModeSimple::ZeroPage(v) => AddressMode::ZeroPage(v),
        }
    }

    /// How many operand bytes follow the opcode byte.
    pub open spec fn spec_size(self) -> int {
        self.spec_to_address_mode().spec_size()
    }

    /// Restricts a mode to this subset; modes outside it are refused.
    pub fn try_from_address_mode(m: AddressMode) -> (r: Result<AddrModeSimple, AddrModeSimpleConvertError>)
        ensures
            (match r {
                Ok(sub) => sub.spec_to_address_mode() == m,
                Err(_) => forall|sub: AddrModeSimple| sub.spec_to_address_mode() != m,
            }),
    {
        match m {
            AddressMode::Absolute(v) => Ok(AddrModeSimple::Absolute(v)),
            AddressMode::ZeroPage(v) => Ok(AddrModeSimple::ZeroPage(v)),
            _ => Err(AddrModeSimpleConvertError),
        }
    }

    /// The operand bytes this subset reads for the opcode byte `b`, or
    /// `None` if no rule of the subset matches.
    pub open spec fn spec_needed(b: u8) -> Option<int> {
        if absolute_byte(b) {
            Some(2)
        } else if zero_page_byte(b) {
            Some(1)
        } else {
            None
        }
    }

    /// Which mode of this subset the opcode byte at `pos` selects, with its
    /// operand read from the bytes behind it; the rules are tried in the
    /// fixed order of the `AddressMode` variants.
    pub open spec fn spec_read(data: Seq<u8>, limit: int, pos: int) -> Result<(AddrModeSimple, int), ProgramParseError>
        recommends
            0 <= pos < limit <= data.len(),
    {
        let b = data[pos];
        if absolute_byte(b) {
            match spec_take_u16(data, limit, pos) {
                Ok(v) => Ok((AddrModeSimple::Absolute(v), pos + 3)),
                Err(e) => Err(e),
            }
        } else if zero_page_byte(b) {
            match spec_take_u8(data, limit, pos) {
                Ok(v) => Ok((AddrModeSimple::ZeroPage(v), pos + 2)),
                Err(e) => Err(e),
            }
        } else {
            Err(ProgramParseError::InvalidEncoding { byte: b, position: pos as usize })
        }
    }

    /// Reads one operand of this subset for the opcode byte at `pos`.
    pub fn read_at(data: &Vec<u8>, limit: usize, pos: usize) -> (r: Result<(AddrModeSimple, usize), ProgramParseError>)
        requires
            pos < limit,
            limit <= data@.len(),
        ensures
            with_int_pos(r) == AddrModeSimple::spec_read(data@, limit as int, pos as int),
    {
        let b = data[pos];
        if is_absolute_byte(b) {
            match take_u16(data, limit, pos) {
                Ok(v) => Ok((AddrModeSimple::Absolute(v), pos + 3)),
                Err(e) => Err(e),
            }
        } else if is_zero_page_byte(b) {
            match take_u8(data, limit, pos) {
                Ok(v) => Ok((AddrModeSimple::ZeroPage(v), pos + 2)),
                Err(e) => Err(e),
            }
        } else {
            Err(ProgramParseError::InvalidEncoding { byte: b, position: pos })
        }
    }
}

/// The error of restricting an `AddressMode` to the `AddrModeSimple` subset.
#[derive(Debug, Clone, Copy, PartialEq, Eq, Structural)]
pub struct AddrModeSimpleConvertError;

/// The addressing-mode subset that CPX and CPY may take.
#[derive(Debug, Clone, Copy, PartialEq, Eq, Structural)]
pub enum AddrModeSimpleOrImm {
    Absolute(u16),
    Immediate(u8),
    ZeroPage(u8),
}

impl AddrModeSimpleOrImm {
    /// The same mode in the unrestricted `AddressMode` set.
    pub open spec fn spec_to_address_mode(self) -> AddressMode {
        match self {
            AddrModeSimpleOrImm::Absolute(v) => AddressMode::Absolute(v),
            AddrModeSimpleOrImm::Immediate(v) => AddressMode::Immediate(v),
            AddrModeSimpleOrImm::ZeroPage(v) => AddressMode::ZeroPage(v),
        }
    }

    pub fn to_address_mode(self) -> (m: AddressMode)
        ensures
            m == self.spec_to_address_mode(),
    {
        match self {
            AddrModeSimpleOrImm::Absolute(v) => AddressMode::Absolute(v),
            AddrModeSimpleOrImm::Immediate(v) => AddressMode::Immediate(v),
            AddrModeSimpleOrImm::ZeroPage(v) => AddressMode::ZeroPage(v),
        }
    }

    /// How many operand bytes follow the opcode byte.
    pub open spec fn spec_size(self) -> int {
        self.spec_to_address_mode().spec_size()
    }

    /// Restricts a mode to this subset; modes outside it are refused.
    pub fn try_from_address_mode(m: AddressMode) -> (r: Result<AddrModeSimpleOrImm, AddrModeSimpleOrImmConvertError>)
        ensures
            (match r {
                Ok(sub) => sub.spec_to_address_mode() == m,
                Err(_) => forall|sub: AddrModeSimpleOrImm| sub.spec_to_address_mode() != m,
            }),
    {
        match m {
            AddressMode::Absolute(v) => Ok(AddrModeSimpleOrImm::Absolute(v)),
            AddressMode::Immediate(v) => Ok(AddrModeSimpleOrImm::Immediate(v)),
            AddressMode::ZeroPage(v) => Ok(AddrModeSimpleOrImm::ZeroPage(v)),
            _ => Err(AddrModeSimpleOrImmConvertError),
        }
    }

    /// The operand bytes this subset reads for the opcode byte `b`, or
    /// `None` if no rule of the subset matches.
    pub open spec fn spec_needed(b: u8) -> Option<int> {
        if absolute_byte(b) {
            Some(2)
        } else if immediate_byte(b) {
            Some(1)
        } else if zero_page_byte(b) {
            Some(1)
        } else {
            None
        }
    }

    /// Which mode of this subset the opcode byte at `pos` selects, with its
    /// operand read from the bytes behind it; the rules are tried in the
    /// fixed order of the `AddressMode` variants.
    pub open spec fn spec_read(data: Seq<u8>, limit: int, pos: int) -> Result<(AddrModeSimpleOrImm, int), ProgramParseError>
        recommends
            0 <= pos < limit <= data.len(),
    {
        let b = data[pos];
        if absolute_byte(b) {
            match spec_take_u16(data, limit, pos) {
                Ok(v) => Ok((AddrModeSimpleOrImm::Absolute(v), pos + 3)),
                Err(e) => Err(e),
            }
        } else if immediate_byte(b) {
            match spec_take_u8(data, limit, pos) {
                Ok(v) => Ok((AddrModeSimpleOrImm::Immediate(v), pos + 2)),
                Err(e) => Err(e),
            }
        } else if zero_page_byte(b) {
            match spec_take_u8(data, limit, pos) {
                Ok(v) => Ok((AddrModeSimpleOrImm::ZeroPage(v), pos + 2)),
                Err(e) => Err(e),
            }
        } else {
            Err(ProgramParseError::InvalidEncoding { byte: b, position: pos as usize })
        }
    }

    /// Reads one operand of this subset for the opcode byte at `pos`.
    pub fn read_at(data: &Vec<u8>, limit: usize, pos: usize) -> (r: Result<(AddrModeSimpleOrImm, usize), ProgramParseError>)
        requires
            pos < limit,
            limit <= data@.len(),
        ensures
            with_int_pos(r) == AddrModeSimpleOrImm::spec_read(data@, limit as int, pos as int),
    {
        let b = data[pos];
        if is_absolute_byte(b) {
            match take_u16(data, limit, pos) {
                Ok(v) => Ok((AddrModeSimpleOrImm::Absolute(v), pos + 3)),
                Err(e) => Err(e),
            }
        } else if is_immediate_byte(b) {
            match take_u8(data, limit, pos) {
                Ok(v) => Ok((AddrModeSimpleOrImm::Immediate(v), pos + 2)),
                Err(e) => Err(e),
            }
        } else if is_zero_page_byte(b) {
            match take_u8(data, limit, pos) {
                Ok(v) => Ok((AddrModeSimpleOrImm::ZeroPage(v), pos + 2)),
                Err(e) => Err(e),
            }
        } else {
            Err(ProgramParseError::InvalidEncoding { byte: b, position: pos })
        }
    }
}

/// The error of restricting an `AddressMode` to the `AddrModeSimpleOrImm` subset.
#[derive(Debug, Clone, Copy, PartialEq, Eq, Structural)]
pub struct AddrModeSimpleOrImmConvertError;

/// The addressing-mode subset that DEC and INC may take.
#[derive(Debug, Clone, Copy, PartialEq, Eq, Structural)]
pub enum AddrModeSimpleX {
    Absolute(u16),
    AbsoluteX(u16),
    ZeroPage(u8),
    ZeroPageX(u8),
}

impl AddrModeSimpleX {
    /// The same mode in the unrestricted `AddressMode` set.
    pub open spec fn spec_to_address_mode(self) -> AddressMode {
        match self {
            AddrModeSimpleX::Absolute(v) => AddressMode::Absolute(v),
            AddrModeSimpleX::AbsoluteX(v) => AddressMode::AbsoluteX(v),
            AddrModeSimpleX::ZeroPage(v) => AddressMode::ZeroPage(v),
            AddrModeSimpleX::ZeroPageX(v) => AddressMode::ZeroPageX(v),
        }
    }

    pub fn to_address_mode(self) -> (m: AddressMode)
        ensures
            m == self.spec_to_address_mode(),
    {
        match self {
            AddrModeSimpleX::Absolute(v) => AddressMode::Absolute(v),
            AddrModeSimpleX::AbsoluteX(v) => AddressMode::AbsoluteX(v),
            AddrModeSimpleX::ZeroPage(v) => AddressMode::ZeroPage(v),
            AddrModeSimpleX::ZeroPageX(v) => AddressMode::ZeroPageX(v),
        }
    }

    /// How many operand bytes follow the opcode byte.
    pub open spec fn spec_size(self) -> int {
        self.spec_to_address_mode().spec_size()
    }

    /// Restricts a mode to this subset; modes outside it are refused.
    pub fn try_from_address_mode(m: AddressMode) -> (r: Result<AddrModeSimpleX, AddrModeSimpleXConvertError>)
        ensures
            (match r {
                Ok(sub) => sub.spec_to_address_mode() == m,
                Err(_) => forall|sub: AddrModeSimpleX| sub.spec_to_address_mode() != m,
            }),
    {
        match m {
            AddressMode::Absolute(v) => Ok(AddrModeSimpleX::Absolute(v)),
            AddressMode::AbsoluteX(v) => Ok(AddrModeSimpleX::AbsoluteX(v)),
            AddressMode::ZeroPage(v) => Ok(AddrModeSimpleX::ZeroPage(v)),
            AddressMode::ZeroPageX(v) => Ok(AddrModeSimpleX::ZeroPageX(v)),
            _ => Err(AddrModeSimpleXConvertError),
        }
    }

    /// The operand bytes this subset reads for the opcode byte `b`, or
    /// `None` if no rule of the subset matches.
    pub open spec fn spec_needed(b: u8) -> Option<int> {
        if absolute_byte(b) {
            Some(2)
        } else if absolute_x_byte(b) {
            Some(2)
        } else if zero_page_byte(b) {
            Some(1)
        } else if zero_page_x_byte(b) {
            Some(1)
        } else {
            None
        }
    }

    /// Which mode of this subset the opcode byte at `pos` selects, with its
    /// operand read from the bytes behind it; the rules are tried in the
    /// fixed order of the `AddressMode` variants.
    pub open spec fn spec_read(data: Seq<u8>, limit: int, pos: int) -> Result<(AddrModeSimpleX, int), ProgramParseError>
        recommends
            0 <= pos < limit <= data.len(),
    {
        let b = data[pos];
        if absolute_byte(b) {
            match spec_take_u16(data, limit, pos) {
                Ok(v) => Ok((AddrModeSimpleX::Absolute(v), pos + 3)),
                Err(e) => Err(e),
            }
        } else if absolute_x_byte(b) {
            match spec_take_u16(data, limit, pos) {
                Ok(v) => Ok((AddrModeSimpleX::AbsoluteX(v), pos + 3)),
                Err(e) => Err(e),
            }
        } else if zero_page_byte(b) {
            match spec_take_u8(data, limit, pos) {
                Ok(v) => Ok((AddrModeSimpleX::ZeroPage(v), pos + 2)),
                Err(e) => Err(e),
            }
        } else if zero_page_x_byte(b) {
            match spec_take_u8(data, limit, pos) {
                Ok(v) => Ok((AddrModeSimpleX::ZeroPageX(v), pos + 2)),
                Err(e) => Err(e),
            }
        } else {
            Err(ProgramParseError::InvalidEncoding { byte: b, position: pos as usize })
        }
    }

    /// Reads one operand of this subset for the opcode byte at `pos`.
    pub fn read_at(data: &Vec<u8>, limit: usize, pos: usize) -> (r: Result<(AddrModeSimpleX, usize), ProgramParseError>)
        requires
            pos < limit,
            limit <= data@.len(),
        ensures
            with_int_pos(r) == AddrModeSimpleX::spec_read(data@, limit as int, pos as int),
    {
        let b = data[pos];
        if is_absolute_byte(b) {
            match take_u16(data, limit, pos) {
                Ok(v) => Ok((AddrModeSimpleX::Absolute(v), pos + 3)),
                Err(e) => Err(e),
            }
        } else if is_absolute_x_byte(b) {
            match take_u16(data, limit, pos) {
                Ok(v) => Ok((AddrModeSimpleX::AbsoluteX(v), pos + 3)),
                Err(e) => Err(e),
            }
        } else if is_zero_page_byte(b) {
            match take_u8(data, limit, pos) {
                Ok(v) => Ok((AddrModeSimpleX::ZeroPage(v), pos + 2)),
                Err(e) => Err(e),
            }
        } else if is_zero_page_x_byte(b) {
            match take_u8(data, limit, pos) {
                Ok(v) => Ok((AddrModeSimpleX::ZeroPageX(v), pos + 2)),
                Err(e) => Err(e),
            }
        } else {
            Err(ProgramParseError::InvalidEncoding { byte: b, position: pos })
        }
    }
}

/// The error of restricting an `AddressMode` to the `AddrModeSimpleX` subset.
#[derive(Debug, Clone, Copy, PartialEq, Eq, Structural)]
pub struct AddrModeSimpleXConvertError;

/// The addressing-mode subset that ASL, LSR, ROL and ROR may take.
#[derive(Debug, Clone, Copy, PartialEq, Eq, Structural)]
pub enum AddrModeSimpleXAcc {
    Accumulator,
    Absolute(u16),
    AbsoluteX(u16),
    ZeroPage(u8),
    ZeroPageX(u8),
}

impl AddrModeSimpleXAcc {
    /// The same mode in the unrestricted `AddressMode` set.
    pub open spec fn spec_to_address_mode(self) -> AddressMode {
        match self {
            AddrModeSimpleXAcc::Accumulator => AddressMode::Accumulator,
            AddrModeSimpleXAcc::Absolute(v) => AddressMode::Absolute(v),
            AddrModeSimpleXAcc::AbsoluteX(v) => AddressMode::AbsoluteX(v),
            AddrModeSimpleXAcc::ZeroPage(v) => AddressMode::ZeroPage(v),
            AddrModeSimpleXAcc::ZeroPageX(v) => AddressMode::ZeroPageX(v),
        }
    }

    pub fn to_address_mode(self) -> (m: AddressMode)
        ensures
            m == self.spec_to_address_mode(),
    {
        match self {
            AddrModeSimpleXAcc::Accumulator => AddressMode::Accumulator,
            AddrModeSimpleXAcc::Absolute(v) => AddressMode::Absolute(v),
            AddrModeSimpleXAcc::AbsoluteX(v) => AddressMode::AbsoluteX(v),
            AddrModeSimpleXAcc::ZeroPage(v) => AddressMode::ZeroPage(v),
            AddrModeSimpleXAcc::ZeroPageX(v) => AddressMode::ZeroPageX(v),
        }
    }

    /// How many operand bytes follow the opcode byte.
    pub open spec fn spec_size(self) -> int {
        self.spec_to_address_mode().spec_size()
    }

    /// Restricts a mode to this subset; modes outside it are refused.
    pub fn try_from_address_mode(m: AddressMode) -> (r: Result<AddrModeSimpleXAcc, AddrModeSimpleXAccConvertError>)
        ensures
            (match r {
                Ok(sub) => sub.spec_to_address_mode() == m,
                Err(_) => forall|sub: AddrModeSimpleXAcc| sub.spec_to_address_mode() != m,
            }),
    {
        match m {
            AddressMode::Accumulator => Ok(AddrModeSimpleXAcc::Accumulator),
            AddressMode::Absolute(v) => Ok(AddrModeSimpleXAcc::Absolute(v)),
            AddressMode::AbsoluteX(v) => Ok(AddrModeSimpleXAcc::AbsoluteX(v)),
            AddressMode::ZeroPage(v) => Ok(AddrModeSimpleXAcc::ZeroPage(v)),
            AddressMode::ZeroPageX(v) => Ok(AddrModeSimpleXAcc::ZeroPageX(v)),
            _ => Err(AddrModeSimpleXAccConvertError),
        }
    }

    /// The operand bytes this subset reads for the opcode byte `b`, or
    /// `None` if no rule of the subset matches.
    pub open spec fn spec_needed(b: u8) -> Option<int> {
        if accumulator_byte(b) {
            Some(0)
        } else if absolute_byte(b) {
            Some(2)
        } else if absolute_x_byte(b) {
            Some(2)
        } else if zero_page_byte(b) {
            Some(1)
        } else if zero_page_x_byte(b) {
            Some(1)
        } else {
            None
        }
    }

    /// Which mode of this subset the opcode byte at `pos` selects, with its
    /// operand read from the bytes behind it; the rules are tried in the
    /// fixed order of the `AddressMode` variants.
    pub open spec fn spec_read(data: Seq<u8>, limit: int, pos: int) -> Result<(AddrModeSimpleXAcc, int), ProgramParseError>
        recommends
            0 <= pos < limit <= data.len(),
    {
        let b = data[pos];
        if accumulator_byte(b) {
            Ok((AddrModeSimpleXAcc::Accumulator, pos + 1))
        } else if absolute_byte(b) {
            match spec_take_u16(data, limit, pos) {
                Ok(v) => Ok((AddrModeSimpleXAcc::Absolute(v), pos + 3)),
                Err(e) => Err(e),
            }
        } else if absolute_x_byte(b) {
            match spec_take_u16(data, limit, pos) {
                Ok(v) => Ok((AddrModeSimpleXAcc::AbsoluteX(v), pos + 3)),
                Err(e) => Err(e),
            }
        } else if zero_page_byte(b) {
            match spec_take_u8(data, limit, pos) {
                Ok(v) => Ok((AddrModeSimpleXAcc::ZeroPage(v), pos + 2)),
                Err(e) => Err(e),
            }
        } else if zero_page_x_byte(b) {
            match spec_take_u8(data, limit, pos) {
                Ok(v) => Ok((AddrModeSimpleXAcc::ZeroPageX(v), pos + 2)),
                Err(e) => Err(e),
            }
        } else {
            Err(ProgramParseError::InvalidEncoding { byte: b, position: pos as usize })
        }
    }

    /// Reads one operand of this subset for the opcode byte at `pos`.
    pub fn read_at(data: &Vec<u8>, limit: usize, pos: usize) -> (r: Result<(AddrModeSimpleXAcc, usize), ProgramParseError>)
        requires
            pos < limit,
            limit <= data@.len(),
        ensures
            with_int_pos(r) == AddrModeSimpleXAcc::spec_read(data@, limit as int, pos as int),
    {
        let b = data[pos];
        if is_accumulator_byte(b) {
            Ok((AddrModeSimpleXAcc::Accumulator, pos + 1))
        } else if is_absolute_byte(b) {
            match take_u16(data, limit, pos) {
                Ok(v) => Ok((AddrModeSimpleXAcc::Absolute(v), pos + 3)),
                Err(e) => Err(e),
            }
        } else if is_absolute_x_byte(b) {
            match take_u16(data, limit, pos) {
                Ok(v) => Ok((AddrModeSimpleXAcc::AbsoluteX(v), pos + 3)),
                Err(e) => Err(e),
            }
        } else if is_zero_page_byte(b) {
            match take_u8(data, limit, pos) {
                Ok(v) => Ok((AddrModeSimpleXAcc::ZeroPage(v), pos + 2)),
                Err(e) => Err(e),
            }
        } else if is_zero_page_x_byte(b) {
            match take_u8(data, limit, pos) {
                Ok(v) => Ok((AddrModeSimpleXAcc::ZeroPageX(v), pos + 2)),
                Err(e) => Err(e),
            }
        } else {
            Err(ProgramParseError::InvalidEncoding { byte: b, position: pos })
        }
    }
}

/// The error of restricting an `AddressMode` to the `AddrModeSimpleXAcc` subset.
#[derive(Debug, Clone, Copy, PartialEq, Eq, Structural)]
pub struct AddrModeSimpleXAccConvertError;

/// The addressing-mode subset that LDY may take.
#[derive(Debug, Clone, Copy, PartialEq, Eq, Structural)]
pub enum AddrModeSimpleXImm {
    Absolute(u16),
    AbsoluteX(u16),
    Immediate(u8),
    ZeroPage(u8),
    ZeroPageX(u8),
}

impl AddrModeSimpleXImm {
    /// The same mode in the unrestricted `AddressMode` set.
    pub open spec fn spec_to_address_mode(self) -> AddressMode {
        match self {
            AddrModeSimpleXImm::Absolute(v) => AddressMode::Absolute(v),
            AddrModeSimpleXImm::AbsoluteX(v) => AddressMode::AbsoluteX(v),
            AddrModeSimpleXImm::Immediate(v) => AddressMode::Immediate(v),
            AddrModeSimpleXImm::ZeroPage(v) => AddressMode::ZeroPage(v),
            AddrModeSimpleXImm::ZeroPageX(v) => AddressMode::ZeroPageX(v),
        }
    }

    pub fn to_address_mode(self) -> (m: AddressMode)
        ensures
            m == self.spec_to_address_mode(),
    {
        match self {
            AddrModeSimpleXImm::Absolute(v) => AddressMode::Absolute(v),
            AddrModeSimpleXImm::AbsoluteX(v) => AddressMode::AbsoluteX(v),
            AddrModeSimpleXImm::Immediate(v) => AddressMode::Immediate(v),
            AddrModeSimpleXImm::ZeroPage(v) => AddressMode::ZeroPage(v),
            AddrModeSimpleXImm::ZeroPageX(v) => AddressMode::ZeroPageX(v),
        }
    }

    /// How many operand bytes follow the opcode byte.
    pub open spec fn spec_size(self) -> int {
        self.spec_to_address_mode().spec_size()
    }

    /// Restricts a mode to this subset; modes outside it are refused.
    pub fn try_from_address_mode(m: AddressMode) -> (r: Result<AddrModeSimpleXImm, AddrModeSimpleXImmConvertError>)
        ensures
            (match r {
                Ok(sub) => sub.spec_to_address_mode() == m,
                Err(_) => forall|sub: AddrModeSimpleXImm| sub.spec_to_address_mode() != m,
            }),
    {
        match m {
            AddressMode::Absolute(v) => Ok(AddrModeSimpleXImm::Absolute(v)),
            AddressMode::AbsoluteX(v) => Ok(AddrModeSimpleXImm::AbsoluteX(v)),
            AddressMode::Immediate(v) => Ok(AddrModeSimpleXImm::Immediate(v)),
            AddressMode::ZeroPage(v) => Ok(AddrModeSimpleXImm::ZeroPage(v)),
            AddressMode::ZeroPageX(v) => Ok(AddrModeSimpleXImm::ZeroPageX(v)),
            _ => Err(AddrModeSimpleXImmConvertError),
        }
    }

    /// The operand bytes this subset reads for the opcode byte `b`, or
    /// `None` if no rule of the subset matches.
    pub open spec fn spec_needed(b: u8) -> Option<int> {
        if absolute_byte(b) {
            Some(2)
        } else if absolute_x_byte(b) {
            Some(2)
        } else if immediate_byte(b) {
            Some(1)
        } else if zero_page_byte(b) {
            Some(1)
        } else if zero_page_x_byte(b) {
            Some(1)
        } else {
            None
        }
    }

    /// Which mode of this subset the opcode byte at `pos` selects, with its
    /// operand read from the bytes behind it; the rules are tried in the
    /// fixed order of the `AddressMode` variants.
    pub open spec fn spec_read(data: Seq<u8>, limit: int, pos: int) -> Result<(AddrModeSimpleXImm, int), ProgramParseError>
        recommends
            0 <= pos < limit <= data.len(),
    {
        let b = data[pos];
        if absolute_byte(b) {
            match spec_take_u16(data, limit, pos) {
                Ok(v) => Ok((AddrModeSimpleXImm::Absolute(v), pos + 3)),
                Err(e) => Err(e),
            }
        } else if absolute_x_byte(b) {
            match spec_take_u16(data, limit, pos) {
                Ok(v) => Ok((AddrModeSimpleXImm::AbsoluteX(v), pos + 3)),
                Err(e) => Err(e),
            }
        } else if immediate_byte(b) {
            match spec_take_u8(data, limit, pos) {
                Ok(v) => Ok((AddrModeSimpleXImm::Immediate(v), pos + 2)),
                Err(e) => Err(e),
            }
        } else if zero_page_byte(b) {
            match spec_take_u8(data, limit, pos) {
                Ok(v) => Ok((AddrModeSimpleXImm::ZeroPage(v), pos + 2)),
                Err(e) => Err(e),
            }
        } else if zero_page_x_byte(b) {
            match spec_take_u8(data, limit, pos) {
                Ok(v) => Ok((AddrModeSimpleXImm::ZeroPageX(v), pos + 2)),
                Err(e) => Err(e),
            }
        } else {
            Err(ProgramParseError::InvalidEncoding { byte: b, position: pos as usize })
        }
    }

    /// Reads one operand of this subset for the opcode byte at `pos`.
    pub fn read_at(data: &Vec<u8>, limit: usize, pos: usize) -> (r: Result<(AddrModeSimpleXImm, usize), ProgramParseError>)
        requires
            pos < limit,
            limit <= data@.len(),
        ensures
            with_int_pos(r) == AddrModeSimpleXImm::spec_read(data@, limit as int, pos as int),
    {
        let b = data[pos];
        if is_absolute_byte(b) {
            match take_u16(data, limit, pos) {
                Ok(v) => Ok((AddrModeSimpleXImm::Absolute(v), pos + 3)),
                Err(e) => Err(e),
            }
        } else if is_absolute_x_byte(b) {
            match take_u16(data, limit, pos) {
                Ok(v) => Ok((AddrModeSimpleXImm::AbsoluteX(v), pos + 3)),
                Err(e) => Err(e),
            }
        } else if is_immediate_byte(b) {
            match take_u8(data, limit, pos) {
                Ok(v) => Ok((AddrModeSimpleXImm::Immediate(v), pos + 2)),
                Err(e) => Err(e),
            }
        } else if is_zero_page_byte(b) {
            match take_u8(data, limit, pos) {
                Ok(v) => Ok((AddrModeSimpleXImm::ZeroPage(v), pos + 2)),
                Err(e) => Err(e),
            }
        } else if is_zero_page_x_byte(b) {
            match take_u8(data, limit, pos) {
                Ok(v) => Ok((AddrModeSimpleXImm::ZeroPageX(v), pos + 2)),
                Err(e) => Err(e),
            }
        } else {
            Err(ProgramParseError::InvalidEncoding { byte: b, position: pos })
        }
    }
}

/// The error of restricting an `AddressMode` to the `AddrModeSimpleXImm` subset.
#[derive(Debug, Clone, Copy, PartialEq, Eq, Structural)]
pub struct AddrModeSimpleXImmConvertError;

/// The addressing-mode subset that LDX may take.
#[derive(Debug, Clone, Copy, PartialEq, Eq, Structural)]
pub enum AddrModeSimpleYImm {
    Absolute(u16),
    AbsoluteY(u16),
    Immediate(u8),
    ZeroPage(u8),
    ZeroPageY(u8),
}

impl AddrModeSimpleYImm {
    /// The same mode in the unrestricted `AddressMode` set.
    pub open spec fn spec_to_address_mode(self) -> AddressMode {
        match self {
            AddrModeSimpleYImm::Absolute(v) => AddressMode::Absolute(v),
            AddrModeSimpleYImm::AbsoluteY(v) => AddressMode::AbsoluteY(v),
            AddrModeSimpleYImm::Immediate(v) => AddressMode::Immediate(v),
            AddrModeSimpleYImm::ZeroPage(v) => AddressMode::ZeroPage(v),
            AddrModeSimpleYImm::ZeroPageY(v) => AddressMode::ZeroPageY(v),
        }
    }

    pub fn to_address_mode(self) -> (m: AddressMode)
        ensures
            m == self.spec_to_address_mode(),
    {
        match self {
            AddrModeSimpleYImm::Absolute(v) => AddressMode::Absolute(v),
            AddrModeSimpleYImm::AbsoluteY(v) => AddressMode::AbsoluteY(v),
            AddrModeSimpleYImm::Immediate(v) => AddressMode::Immediate(v),
            AddrModeSimpleYImm::ZeroPage(v) => AddressMode::ZeroPage(v),
            AddrModeSimpleYImm::ZeroPageY(v) => AddressMode::ZeroPageY(v),
        }
    }

    /// How many operand bytes follow the opcode byte.
    pub open spec fn spec_size(self) -> int {
        self.spec_to_address_mode().spec_size()
    }

    /// Restricts a mode to this subset; modes outside it are refused.
    pub fn try_from_address_mode(m: AddressMode) -> (r: Result<AddrModeSimpleYImm, AddrModeSimpleYImmConvertError>)
        ensures
            (match r {
                Ok(sub) => sub.spec_to_address_mode() == m,
                Err(_) => forall|sub: AddrModeSimpleYImm| sub.spec_to_address_mode() != m,
            }),
    {
        match m {
            AddressMode::Absolute(v) => Ok(AddrModeSimpleYImm::Absolute(v)),
            AddressMode::AbsoluteY(v) => Ok(AddrModeSimpleYImm::AbsoluteY(v)),
            AddressMode::Immediate(v) => Ok(AddrModeSimpleYImm::Immediate(v)),
            AddressMode::ZeroPage(v) => Ok(AddrModeSimpleYImm::ZeroPage(v)),
            AddressMode::ZeroPageY(v) => Ok(AddrModeSimpleYImm::ZeroPageY(v)),
            _ => Err(AddrModeSimpleYImmConvertError),
        }
    }

    /// The operand bytes this subset reads for the opcode byte `b`, or
    /// `None` if no rule of the subset matches.
    pub open spec fn spec_needed(b: u8) -> Option<int> {
        if absolute_byte(b) {
            Some(2)
        } else if absolute_y_byte(b) {
            Some(2)
        } else if immediate_byte(b) {
            Some(1)
        } else if zero_page_byte(b) {
            Some(1)
        } else if zero_page_y_byte(b) {
            Some(1)
        } else {
            None
        }
    }

    /// Which mode of this subset the opcode byte at `pos` selects, with its
    /// operand read from the bytes behind it; the rules are tried in the
    /// fixed order of the `AddressMode` variants.
    pub open spec fn spec_read(data: Seq<u8>, limit: int, pos: int) -> Result<(AddrModeSimpleYImm, int), ProgramParseError>
        recommends
            0 <= pos < limit <= data.len(),
    {
        let b = data[pos];
        if absolute_byte(b) {
            match spec_take_u16(data, limit, pos) {
                Ok(v) => Ok((AddrModeSimpleYImm::Absolute(v), pos + 3)),
                Err(e) => Err(e),
            }
        } else if absolute_y_byte(b) {
            match spec_take_u16(data, limit, pos) {
                Ok(v) => Ok((AddrModeSimpleYImm::AbsoluteY(v), pos + 3)),
                Err(e) => Err(e),
            }
        } else if immediate_byte(b) {
            match spec_take_u8(data, limit, pos) {
                Ok(v) => Ok((AddrModeSimpleYImm::Immediate(v), pos + 2)),
                Err(e) => Err(e),
            }
        } else if zero_page_byte(b) {
            match spec_take_u8(data, limit, pos) {
                Ok(v) => Ok((AddrModeSimpleYImm::ZeroPage(v), pos + 2)),
                Err(e) => Err(e),
            }
        } else if zero_page_y_byte(b) {
            match spec_take_u8(data, limit, pos) {
                Ok(v) => Ok((AddrModeSimpleYImm::ZeroPageY(v), pos + 2)),
                Err(e) => Err(e),
            }
        } else {
            Err(ProgramParseError::InvalidEncoding { byte: b, position: pos as usize })
        }
    }

    /// Reads one operand of this subset for the opcode byte at `pos`.
    pub fn read_at(data: &Vec<u8>, limit: usize, pos: usize) -> (r: Result<(AddrModeSimpleYImm, usize), ProgramParseError>)
        requires
            pos < limit,
            limit <= data@.len(),
        ensures
            with_int_pos(r) == AddrModeSimpleYImm::spec_read(data@, limit as int, pos as int),
    {
        let b = data[pos];
        if is_absolute_byte(b) {
            match take_u16(data, limit, pos) {
                Ok(v) => Ok((AddrModeSimpleYImm::Absolute(v), pos + 3)),
                Err(e) => Err(e),
            }
        } else if is_absolute_y_byte(b) {
            match take_u16(data, limit, pos) {
                Ok(v) => Ok((AddrModeSimpleYImm::AbsoluteY(v), pos + 3)),
                Err(e) => Err(e),
            }
        } else if is_immediate_byte(b) {
            match take_u8(data, limit, pos) {
                Ok(v) => Ok((AddrModeSimpleYImm::Immediate(v), pos + 2)),
                Err(e) => Err(e),
            }
        } else if is_zero_page_byte(b) {
            match take_u8(data, limit, pos) {
                Ok(v) => Ok((AddrModeSimpleYImm::ZeroPage(v), pos + 2)),
                Err(e) => Err(e),
            }
        } else if is_zero_page_y_byte(b) {
            match take_u8(data, limit, pos) {
                Ok(v) => Ok((AddrModeSimpleYImm::ZeroPageY(v), pos + 2)),
                Err(e) => Err(e),
            }
        } else {
            Err(ProgramParseError::InvalidEncoding { byte: b, position: pos })
        }
    }
}

/// The error of restricting an `AddressMode` to the `AddrModeSimpleYImm` subset.
#[derive(Debug, Clone, Copy, PartialEq, Eq, Structural)]
pub struct AddrModeSimpleYImmConvertError;

} // verus!
