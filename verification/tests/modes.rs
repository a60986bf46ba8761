//! The addressing modes: encoded sizes, canonical operand text, the
//! byte rules, and the restricted subsets' conversions.

use nespile::parser::address_mode::{
    AddrModeAHX, AddrModeImmediate, AddrModeRelative, AddrModeSTX, AddrModeSTXConvertError,
    AddrModeSimpleXAcc, AddressMode,
};

#[test]
fn test_mode_sizes() {
    assert_eq!(AddressMode::Accumulator.size(), 0);
    assert_eq!(AddressMode::Implied.size(), 0);
    assert_eq!(AddressMode::Immediate(0x12).size(), 1);
    assert_eq!(AddressMode::ZeroPage(0x12).size(), 1);
    assert_eq!(AddressMode::ZeroPageX(0x12).size(), 1);
    assert_eq!(AddressMode::ZeroPageY(0x12).size(), 1);
    assert_eq!(AddressMode::IndirectX(0x12).size(), 1);
    assert_eq!(AddressMode::IndirectY(0x12).size(), 1);
    assert_eq!(AddressMode::Relative(0x12).size(), 1);
    assert_eq!(AddressMode::Absolute(0x1234).size(), 2);
    assert_eq!(AddressMode::AbsoluteX(0x1234).size(), 2);
    assert_eq!(AddressMode::AbsoluteY(0x1234).size(), 2);
    assert_eq!(AddressMode::Indirect(0x1234).size(), 2);
}

#[test]
fn test_size_ignores_payload_value() {
    assert_eq!(AddressMode::Absolute(0).size(), AddressMode::Absolute(0xffff).size());
    assert_eq!(AddressMode::Immediate(0).size(), AddressMode::Immediate(0xff).size());
}

#[test]
fn test_mode_source_text() {
    assert_eq!(AddressMode::Accumulator.to_source_string(), "A");
    assert_eq!(AddressMode::Absolute(0x1234).to_source_string(), "$1234");
    assert_eq!(AddressMode::AbsoluteX(0x1234).to_source_string(), "$1234,X");
    assert_eq!(AddressMode::AbsoluteY(0x1234).to_source_string(), "$1234,Y");
    assert_eq!(AddressMode::Immediate(0x12).to_source_string(), "#$12");
    assert_eq!(AddressMode::Implied.to_source_string(), "");
    assert_eq!(AddressMode::Indirect(0x1234).to_source_string(), "($1234)");
    assert_eq!(AddressMode::IndirectX(0x12).to_source_string(), "($12,X)");
    assert_eq!(AddressMode::IndirectY(0x12).to_source_string(), "($12),Y");
    assert_eq!(AddressMode::Relative(0x12).to_source_string(), "$12");
    assert_eq!(AddressMode::ZeroPage(0x12).to_source_string(), "$12");
    assert_eq!(AddressMode::ZeroPageX(0x12).to_source_string(), "$12,X");
    assert_eq!(AddressMode::ZeroPageY(0x12).to_source_string(), "$12,Y");
}

#[test]
fn test_mode_text_pads_hex() {
    assert_eq!(AddressMode::Absolute(0x000a).to_source_string(), "$000a");
    assert_eq!(AddressMode::Immediate(0x05).to_source_string(), "#$05");
}

#[test]
fn test_full_mode_read() {
    // The anomalies of the grid: 0x20 is absolute, 0x6c is the one
    // indirect slot, 0x0a is an accumulator slot.
    let data = vec![0x20u8, 0x34, 0x12];
    assert_eq!(
        AddressMode::read_at(&data, 3, 0),
        Ok((AddressMode::Absolute(0x1234), 3))
    );
    let data = vec![0x6cu8, 0x34, 0x12];
    assert_eq!(
        AddressMode::read_at(&data, 3, 0),
        Ok((AddressMode::Indirect(0x1234), 3))
    );
    let data = vec![0x0au8];
    assert_eq!(AddressMode::read_at(&data, 1, 0), Ok((AddressMode::Accumulator, 1)));
    let data = vec![0x96u8, 0x44];
    assert_eq!(AddressMode::read_at(&data, 2, 0), Ok((AddressMode::ZeroPageY(0x44), 2)));
}

#[test]
fn test_subset_conversions_accept_their_modes() {
    assert_eq!(
        AddrModeSTX::try_from_address_mode(AddressMode::ZeroPageY(0x10)),
        Ok(AddrModeSTX::ZeroPageY(0x10))
    );
    assert_eq!(
        AddrModeSTX::try_from_address_mode(AddressMode::Absolute(0x1234)),
        Ok(AddrModeSTX::Absolute(0x1234))
    );
    assert_eq!(
        AddrModeRelative::try_from_address_mode(AddressMode::Relative(0x7f)),
        Ok(AddrModeRelative::Relative(0x7f))
    );
}

#[test]
fn test_subset_conversions_refuse_other_modes() {
    assert_eq!(
        AddrModeSTX::try_from_address_mode(AddressMode::Immediate(0x10)),
        Err(AddrModeSTXConvertError)
    );
    assert!(AddrModeImmediate::try_from_address_mode(AddressMode::Accumulator).is_err());
    assert!(AddrModeAHX::try_from_address_mode(AddressMode::ZeroPage(0x10)).is_err());
}

#[test]
fn test_subset_widens_back() {
    assert_eq!(
        AddrModeSimpleXAcc::Accumulator.to_address_mode(),
        AddressMode::Accumulator
    );
    assert_eq!(
        AddrModeSTX::ZeroPageY(0x42).to_address_mode(),
        AddressMode::ZeroPageY(0x42)
    );
    assert_eq!(
        AddrModeAHX::AbsoluteY(0xbeef).to_address_mode(),
        AddressMode::AbsoluteY(0xbeef)
    );
}
