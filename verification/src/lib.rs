//! A disassembler for the 6502-family CPU found in the NES: it classifies
//! every opcode byte (documented and undocumented), reads the operand bytes
//! that the addressing mode calls for, and renders the decoded instruction
//! stream as an assembly-style listing.

pub mod parser;
pub mod text;
pub mod tracer;
