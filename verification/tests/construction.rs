//! The byte-dispatched enums can be built and used directly, payloads
//! included, without going through the decoder.

use nespile::parser::address_mode::{AddrModeNoZeropageY, AddressMode};
use nespile::parser::opcodes::Opcode;
use nespile::text::hex_width;

#[test]
fn test_simple_compiles() {
    let t = Opcode::STP;
    assert_eq!(t.to_source_string(), "STP");
    let m = AddressMode::Implied;
    assert_eq!(m.size(), 0);
}

#[test]
fn test_nested_compiles() {
    let t = Opcode::LDA(AddrModeNoZeropageY::Immediate(0x05));
    assert_eq!(t.argument(), Some(AddressMode::Immediate(0x05)));
    assert_eq!(t.variant_name(), "LDA");
}

#[test]
fn test_hex_width_boundaries() {
    assert_eq!(hex_width(0), 1);
    assert_eq!(hex_width(0x10), 1);
    assert_eq!(hex_width(0x11), 2);
    assert_eq!(hex_width(0x8000), 4);
    assert_eq!(hex_width(0x10000), 4);
    assert_eq!(hex_width(0x10001), 5);
}
