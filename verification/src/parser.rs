//! Decoding a PRG-ROM byte range into an instruction listing: the byte
//! cursor primitives, the program decoder, and its rendering.

use vstd::prelude::*;
use vstd::string::StringExecFns;
use crate::parser::opcodes::{
    Opcode, lemma_byte_cost_bounds, lemma_read_at_characterized, spec_byte_cost,
};
use crate::text::{hex_width, push_hex_pad, spec_hex_pad, spec_hex_width};

pub mod address_mode;
pub mod opcodes;
pub mod rom;

verus! {

/// Why a program decode failed. One bad byte aborts the whole decode:
/// no partial listing is produced.
#[derive(Debug, Clone, Copy, PartialEq, Eq, Structural)]
pub enum ProgramParseError {
    /// The opcode byte at `position` matched none of the addressing-mode
    /// rules that its mnemonic allows. With a consistent opcode table this
    /// marks a defect in the table itself, not in the input.
    InvalidEncoding { byte: u8, position: usize },
    /// The instruction starting at `position` needs `bytes_needed` more
    /// bytes than remain before the declared limit.
    UnexpectedEndOfStream { position: usize, bytes_needed: usize },
}

/// A 16-bit value read little-endian from two bytes.
pub open spec fn spec_le16(lo: u8, hi: u8) -> u16 {
    (lo as int + 256 * (hi as int)) as u16
}

/// The one operand byte behind the opcode byte at `pos`, if it lies
/// before `limit`.
pub open spec fn spec_take_u8(data: Seq<u8>, limit: int, pos: int) -> Result<u8, ProgramParseError>
    recommends
        0 <= pos < limit <= data.len(),
{
    if pos + 2 <= limit {
        Ok(data[pos + 1])
    } else {
        Err(ProgramParseError::UnexpectedEndOfStream {
            position: pos as usize,
            bytes_needed: (pos + 2 - limit) as usize,
        })
    }
}

/// The two little-endian operand bytes behind the opcode byte at `pos`,
/// if both lie before `limit`.
pub open spec fn spec_take_u16(data: Seq<u8>, limit: int, pos: int) -> Result<
    u16,
    ProgramParseError,
>
    recommends
        0 <= pos < limit <= data.len(),
{
    if pos + 3 <= limit {
        Ok(spec_le16(data[pos + 1], data[pos + 2]))
    } else {
        Err(ProgramParseError::UnexpectedEndOfStream {
            position: pos as usize,
            bytes_needed: (pos + 3 - limit) as usize,
        })
    }
}

/// A decode result with its cursor position widened to `int`, so that
/// executable results can be held against the specification ones.
pub open spec fn with_int_pos<T>(r: Result<(T, usize), ProgramParseError>) -> Result<
    (T, int),
    ProgramParseError,
> {
    match r {
        Ok((v, p)) => Ok((v, p as int)),
        Err(e) => Err(e),
    }
}

/// Reads the one operand byte behind the opcode byte at `pos`.
pub fn take_u8(data: &Vec<u8>, limit: usize, pos: usize) -> (r: Result<u8, ProgramParseError>)
    requires
        pos < limit,
        limit <= data@.len(),
    ensures
        r == spec_take_u8(data@, limit as int, pos as int),
{
    if limit - pos >= 2 {
        Ok(data[pos + 1])
    } else {
        Err(ProgramParseError::UnexpectedEndOfStream {
            position: pos,
            bytes_needed: 2 - (limit - pos),
        })
    }
}

/// Reads the two little-endian operand bytes behind the opcode byte at
/// `pos`.
pub fn take_u16(data: &Vec<u8>, limit: usize, pos: usize) -> (r: Result<u16, ProgramParseError>)
    requires
        pos < limit,
        limit <= data@.len(),
    ensures
        r == spec_take_u16(data@, limit as int, pos as int),
{
    if limit - pos >= 3 {
        let lo = data[pos + 1];
        let hi = data[pos + 2];
        Ok(lo as u16 + 256 * (hi as u16))
    } else {
        Err(ProgramParseError::UnexpectedEndOfStream {
            position: pos,
            bytes_needed: 3 - (limit - pos),
        })
    }
}

/// The instruction sequence decoded from `pos` up to `limit`: one
/// instruction after the other, in byte order, each beginning where the
/// one before it ended. A decode error anywhere discards the whole
/// sequence.
pub open spec fn spec_parse_from(data: Seq<u8>, limit: int, pos: int) -> Result<
    Seq<Opcode>,
    ProgramParseError,
>
    recommends
        0 <= pos <= limit <= data.len(),
    decreases limit - pos,
{
    if pos >= limit {
        Ok(Seq::empty())
    } else {
        match Opcode::spec_read_at(data, limit, pos) {
            Err(e) => Err(e),
            Ok((op, next)) => {
                proof {
                    lemma_read_at_characterized(data, limit, pos);
                    lemma_byte_cost_bounds(data[pos]);
                }
                match spec_parse_from(data, limit, next) {
                    Ok(rest) => Ok(seq![op] + rest),
                    Err(e) => Err(e),
                }
            },
        }
    }
}

/// The instruction sequence of a whole PRG-ROM range.
pub open spec fn spec_parse_program(data: Seq<u8>, limit: int) -> Result<
    Seq<Opcode>,
    ProgramParseError,
> {
    spec_parse_from(data, limit, 0)
}

/// The encoded size of the first `i` instructions: one opcode byte plus
/// the operand bytes, instruction after instruction.
pub open spec fn spec_prefix_len(ops: Seq<Opcode>, i: int) -> int
    decreases i,
{
    if i <= 0 {
        0
    } else {
        spec_prefix_len(ops, i - 1) + 1 + ops[i - 1].spec_arg_size()
    }
}

/// The base of the CPU-visible address space that the PRG-ROM is mapped
/// at.
pub open spec fn spec_base_address() -> int {
    0x8000
}

/// The virtual address of the `i`-th listing line: the base address plus
/// the encoded size of everything before it.
pub open spec fn spec_line_addr(ops: Seq<Opcode>, i: int) -> int {
    spec_base_address() + spec_prefix_len(ops, i)
}

/// One listing line: `$`, the zero-padded address, four spaces, and the
/// instruction text.
pub open spec fn spec_line_text(op: Opcode, addr: int, width: int) -> Seq<char> {
    "$"@ + spec_hex_pad(addr, width) + "    "@ + op.spec_source_text()
}

/// The first `i` listing lines, joined with single newlines.
pub open spec fn spec_render_upto(ops: Seq<Opcode>, i: int, width: int) -> Seq<char>
    decreases i,
{
    if i <= 0 {
        Seq::empty()
    } else {
        spec_render_upto(ops, i - 1, width) + (if i == 1 {
            Seq::<char>::empty()
        } else {
            "\n"@
        }) + spec_line_text(ops[i - 1], spec_line_addr(ops, i - 1), width)
    }
}

/// The whole listing of a program, with addresses wide enough for the
/// highest address that `total_size` bytes from the base can reach.
pub open spec fn spec_program_text(ops: Seq<Opcode>, total_size: int) -> Seq<char> {
    spec_render_upto(ops, ops.len() as int, spec_hex_width(total_size + spec_base_address()))
}

/// A decoded PRG-ROM: the instructions in byte order.
#[derive(Debug)]
pub struct NesProgram {
    pub operations: Vec<Opcode>,
}

impl View for NesProgram {
    type V = Seq<Opcode>;

    open spec fn view(&self) -> Seq<Opcode> {
        self.operations@
    }
}

/// Prefix sizes only grow: each instruction adds at least its opcode
/// byte.
pub proof fn lemma_prefix_len_mono(ops: Seq<Opcode>, i: int, j: int)
    requires
        i <= j,
    ensures
        spec_prefix_len(ops, i) <= spec_prefix_len(ops, j),
    decreases j - i,
{
    if i < j {
        lemma_prefix_len_mono(ops, i, j - 1);
    }
}

/// A successful decode consumes the byte range exactly: the encoded
/// size of the instructions it returns is `limit - pos`.
pub proof fn lemma_parse_consumes_all(data: Seq<u8>, limit: int, pos: int)
    requires
        0 <= pos <= limit,
    ensures
        spec_parse_from(data, limit, pos) matches Ok(ops) ==> spec_prefix_len(ops, ops.len() as int)
            == limit - pos,
    decreases limit - pos,
{
    if pos < limit {
        match Opcode::spec_read_at(data, limit, pos) {
            Err(_) => {
            },
            Ok((op, next)) => {
                lemma_read_at_characterized(data, limit, pos);
                lemma_byte_cost_bounds(data[pos]);
                lemma_parse_consumes_all(data, limit, next);
                match spec_parse_from(data, limit, next) {
                    Ok(rest) => {
                        let whole = seq![op] + rest;
                        assert forall|k: int| 0 <= k <= rest.len() implies spec_prefix_len(
                            whole,
                            k + 1,
                        ) == 1 + op.spec_arg_size() + spec_prefix_len(rest, k) by {
                            lemma_prefix_len_shift(op, rest, k);
                        }
                    },
                    Err(_) => {
                    },
                }
            },
        }
    }
}

/// Prepending one instruction shifts every prefix size by that
/// instruction's encoded size.
proof fn lemma_prefix_len_shift(op: Opcode, rest: Seq<Opcode>, k: int)
    requires
        0 <= k <= rest.len(),
    ensures
        spec_prefix_len(seq![op] + rest, k + 1) == 1 + op.spec_arg_size() + spec_prefix_len(
            rest,
            k,
        ),
    decreases k,
{
    let whole = seq![op] + rest;
    if k > 0 {
        lemma_prefix_len_shift(op, rest, k - 1);
        assert(whole[k] == rest[k - 1]);
    } else {
        assert(whole[0] == op);
        assert(spec_prefix_len(whole, 1) == spec_prefix_len(whole, 0) + 1
            + whole[0].spec_arg_size());
    }
}

/// Decoding is a pure function of the bytes and the limit: the same
/// buffer, decoded twice, yields identical instruction sequences.
pub proof fn lemma_parse_deterministic(
    data1: Seq<u8>,
    limit1: int,
    data2: Seq<u8>,
    limit2: int,
)
    requires
        data1 == data2,
        limit1 == limit2,
    ensures
        spec_parse_program(data1, limit1) == spec_parse_program(data2, limit2),
{
}

/// Address monotonicity of the listing: the first line is rendered at
/// the base address, and each next line's address is greater by exactly
/// one plus the operand size of the instruction before it.
pub proof fn lemma_addresses_monotonic(ops: Seq<Opcode>, i: int)
    requires
        0 <= i,
        i + 1 <= ops.len(),
    ensures
        spec_line_addr(ops, 0) == spec_base_address(),
        spec_line_addr(ops, i + 1) == spec_line_addr(ops, i) + 1 + ops[i].spec_arg_size(),
        spec_line_addr(ops, i) < spec_line_addr(ops, i + 1),
{
}

/// Boundary behaviour: an instruction whose operand ends exactly at the
/// limit decodes, and with the limit one byte nearer it fails, short by
/// exactly one byte.
pub proof fn lemma_read_at_boundary(data: Seq<u8>, pos: int, n: int)
    requires
        spec_byte_cost(data[pos]) == Some(n),
    ensures
        Opcode::spec_read_at(data, pos + n, pos) is Ok,
        n >= 2 ==> Opcode::spec_read_at(data, pos + n - 1, pos) == Err::<
            (Opcode, int),
            ProgramParseError,
        >(ProgramParseError::UnexpectedEndOfStream {
            position: pos as usize,
            bytes_needed: 1,
        }),
{
    lemma_byte_cost_bounds(data[pos]);
    lemma_read_at_characterized(data, pos + n, pos);
    if n >= 2 {
        lemma_read_at_characterized(data, pos + n - 1, pos);
    }
}

/// A program decoded from a byte range that starts within the address
/// space ends within it too: its listing reaches no address beyond the
/// base plus the range's length, so rendering it cannot overflow.
pub proof fn lemma_parsed_program_fits(data: Seq<u8>, limit: int)
    requires
        0 <= limit,
    ensures
        spec_parse_program(data, limit) matches Ok(ops) ==> spec_line_addr(ops, ops.len() as int)
            == spec_base_address() + limit,
{
    lemma_parse_consumes_all(data, limit, 0);
}

impl NesProgram {
    /// Decodes every instruction from offset 0 up to `limit`. The whole
    /// range must decode: a truncated final instruction or an opcode
    /// byte without a matching mode rule fails the decode, and nothing
    /// partial is returned.
    pub fn parse(data: &Vec<u8>, limit: usize) -> (r: Result<NesProgram, ProgramParseError>)
        requires
            limit <= data@.len(),
        ensures
            (match r {
                Ok(program) => spec_parse_program(data@, limit as int) == Ok::<
                    Seq<Opcode>,
                    ProgramParseError,
                >(program@),
                Err(e) => spec_parse_program(data@, limit as int) == Err::<
                    Seq<Opcode>,
                    ProgramParseError,
                >(e),
            }),
    {
        let mut operations: Vec<Opcode> = Vec::new();
        let mut pos: usize = 0;
        while pos < limit
            invariant
                pos <= limit,
                limit <= data@.len(),
                spec_parse_from(data@, limit as int, 0) == (match spec_parse_from(
                    data@,
                    limit as int,
                    pos as int,
                ) {
                    Ok(rest) => Ok::<Seq<Opcode>, ProgramParseError>(operations@ + rest),
                    Err(e) => Err::<Seq<Opcode>, ProgramParseError>(e),
                }),
            decreases limit - pos,
        {
            proof {
                lemma_read_at_characterized(data@, limit as int, pos as int);
                lemma_byte_cost_bounds(data@[pos as int]);
            }
            match Opcode::read_at(data, limit, pos) {
                Ok((op, next)) => {
                    proof {
                        match spec_parse_from(data@, limit as int, next as int) {
                            Ok(rest) => {
                                assert(operations@ + (seq![op] + rest) =~= (operations@.push(op)
                                    + rest));
                            },
                            Err(_) => {
                            },
                        }
                    }
                    operations.push(op);
                    pos = next;
                },
                Err(e) => {
                    return Err(e);
                },
            }
        }
        proof {
            assert(operations@ + Seq::<Opcode>::empty() =~= operations@);
        }
        Ok(NesProgram { operations })
    }

    /// Renders the program as one line per instruction, each line the
    /// virtual address of the instruction followed by its assembly text,
    /// starting at the base address. `total_size` picks the address
    /// width of the listing.
    pub fn to_source_string(&self, total_size: usize) -> (s: String)
        requires
            total_size + spec_base_address() <= usize::MAX,
            spec_line_addr(self@, self@.len() as int) <= usize::MAX,
        ensures
            s@ == spec_program_text(self@, total_size as int),
    {
        let width_wide: u64 = hex_width((total_size as u64) + 0x8000);
        let width: usize = width_wide as usize;
        proof {
            assert(width == width_wide);
        }
        let mut s = String::new();
        let mut addr: usize = 0x8000;
        let mut i: usize = 0;
        let count: usize = self.operations.len();
        while i < count
            invariant
                count == self@.len(),
                i <= count,
                width == spec_hex_width(total_size as int + spec_base_address()),
                spec_line_addr(self@, self@.len() as int) <= usize::MAX,
                addr == spec_line_addr(self@, i as int),
                s@ == spec_render_upto(self@, i as int, width as int),
            decreases count - i,
        {
            let op = self.operations[i];
            if i > 0 {
                s.append("\n");
            }
            s.append("$");
            push_hex_pad(&mut s, addr, width);
            s.append("    ");
            let line = op.to_source_string();
            s.append(line.as_str());
            let advance: usize = match op.argument() {
                Some(mode) => 1 + mode.size(),
                None => 1,
            };
            proof {
                lemma_prefix_len_mono(self@, i + 1, self@.len() as int);
                assert(s@ =~= spec_render_upto(self@, i as int + 1, width as int));
            }
            addr = addr + advance;
            i = i + 1;
        }
        s
    }
}

} // verus!
