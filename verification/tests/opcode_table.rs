//! The opcode classification table, held byte for byte against the
//! reference matrix: every opcode byte is decoded and its mnemonic and
//! encoded length compared, all 256 of them, not a sample.

use nespile::parser::opcodes::Opcode;
use nespile::parser::ProgramParseError;

#[test]
fn test_opcode_matrix_exhaustive() {
    // The canonical matrix: mnemonic per byte, and the whole encoded
    // length, 0 standing for the SAX slots that decode to an error.
    let names: [&str; 256] = [
        "BRK", "ORA", "STP", "SLO", "NOP", "ORA", "ASL", "SLO", "PHP", "ORA", "ASL", "ANC", "NOP", "ORA", "ASL", "SLO",
        "BPL", "ORA", "STP", "SLO", "NOP", "ORA", "ASL", "SLO", "CLC", "ORA", "NOP", "SLO", "NOP", "ORA", "ASL", "SLO",
        "JSR", "AND", "STP", "RLA", "BIT", "AND", "ROL", "RLA", "PLP", "AND", "ROL", "ANC", "BIT", "AND", "ROL", "RLA",
        "BMI", "AND", "STP", "RLA", "NOP", "AND", "ROL", "RLA", "SEC", "AND", "NOP", "RLA", "NOP", "AND", "ROL", "RLA",
        "RTI", "EOR", "STP", "SRE", "NOP", "EOR", "LSR", "SRE", "PHA", "EOR", "LSR", "ALR", "JMP", "EOR", "LSR", "SRE",
        "BVC", "EOR", "STP", "SRE", "NOP", "EOR", "LSR", "SRE", "CLI", "EOR", "NOP", "SRE", "NOP", "EOR", "LSR", "SRE",
        "RTS", "ADC", "STP", "RRA", "NOP", "ADC", "ROR", "RRA", "PLA", "ADC", "ROR", "ARR", "JMP", "ADC", "ROR", "RRA",
        "BVS", "ADC", "STP", "RRA", "NOP", "ADC", "ROR", "RRA", "SEI", "ADC", "NOP", "RRA", "NOP", "ADC", "ROR", "RRA",
        "NOP", "STA", "NOP", "SAX", "STY", "STA", "STX", "SAX", "DEY", "NOP", "TXA", "XAA", "STY", "STA", "STX", "SAX",
        "BCC", "STA", "STP", "AHX", "STY", "STA", "STX", "SAX", "TYA", "STA", "TXS", "TAS", "SHY", "STA", "SHX", "AHX",
        "LDY", "LDA", "LDX", "LAX", "LDY", "LDA", "LDX", "LAX", "TAY", "LDA", "TAX", "LXA", "LDY", "LDA", "LDX", "LAX",
        "BCS", "LDA", "STP", "LAX", "LDY", "LDA", "LDX", "LAX", "CLV", "LDA", "TSX", "LAS", "LDY", "LDA", "LDX", "LAX",
        "CPY", "CMP", "NOP", "DCP", "CPY", "CMP", "DEC", "DCP", "INY", "CMP", "DEX", "AXS", "CPY", "CMP", "DEC", "DCP",
        "BNE", "CMP", "STP", "DCP", "NOP", "CMP", "DEC", "DCP", "CLD", "CMP", "NOP", "DCP", "NOP", "CMP", "DEC", "DCP",
        "CPX", "SBC", "NOP", "ISC", "CPX", "SBC", "INC", "ISC", "INX", "SBC", "NOP", "SBC", "CPX", "SBC", "INC", "ISC",
        "BEQ", "SBC", "STP", "ISC", "NOP", "SBC", "INC", "ISC", "SED", "SBC", "NOP", "ISC", "NOP", "SBC", "INC", "ISC",
    ];
    let sizes: [usize; 256] = [
        1, 2, 1, 2, 1, 2, 2, 2, 1, 2, 1, 2, 1, 3, 3, 3,
        2, 2, 1, 2, 1, 2, 2, 2, 1, 3, 1, 3, 1, 3, 3, 3,
        3, 2, 1, 2, 2, 2, 2, 2, 1, 2, 1, 2, 3, 3, 3, 3,
        2, 2, 1, 2, 1, 2, 2, 2, 1, 3, 1, 3, 1, 3, 3, 3,
        1, 2, 1, 2, 1, 2, 2, 2, 1, 2, 1, 2, 3, 3, 3, 3,
        2, 2, 1, 2, 1, 2, 2, 2, 1, 3, 1, 3, 1, 3, 3, 3,
        1, 2, 1, 2, 1, 2, 2, 2, 1, 2, 1, 2, 3, 3, 3, 3,
        2, 2, 1, 2, 1, 2, 2, 2, 1, 3, 1, 3, 1, 3, 3, 3,
        1, 2, 1, 0, 2, 2, 2, 0, 1, 1, 1, 2, 3, 3, 3, 0,
        2, 2, 1, 2, 2, 2, 2, 0, 1, 3, 1, 3, 3, 3, 3, 3,
        2, 2, 2, 2, 2, 2, 2, 2, 1, 2, 1, 2, 3, 3, 3, 3,
        2, 2, 1, 2, 2, 2, 2, 2, 1, 3, 1, 3, 3, 3, 3, 3,
        2, 2, 1, 2, 2, 2, 2, 2, 1, 2, 1, 2, 3, 3, 3, 3,
        2, 2, 1, 2, 1, 2, 2, 2, 1, 3, 1, 3, 1, 3, 3, 3,
        2, 2, 1, 2, 2, 2, 2, 2, 1, 2, 1, 2, 3, 3, 3, 3,
        2, 2, 1, 2, 1, 2, 2, 2, 1, 3, 1, 3, 1, 3, 3, 3,
    ];
    for b in 0..=255u8 {
        let data = vec![b, 0, 0];
        let r = Opcode::read_at(&data, 3, 0);
        let i = b as usize;
        if sizes[i] == 0 {
            assert_eq!(r, Err(ProgramParseError::InvalidEncoding { byte: b, position: 0 }));
        } else {
            let (op, next) = r.unwrap();
            assert_eq!(op.variant_name(), names[i]);
            assert_eq!(next, sizes[i]);
            let arg_size = match op.argument() {
                Some(mode) => 1 + mode.size(),
                None => 1,
            };
            assert_eq!(arg_size, sizes[i]);
        }
    }
}
