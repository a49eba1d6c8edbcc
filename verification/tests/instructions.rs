use gameooy::instructions::{cycles_of, decode, decode_prefixed, Instruction, Mnemonic, Operand};

fn row(m: Mnemonic, a: Operand, b: Operand, length: u8, cycles: u8, not_taken: Option<u8>) -> Instruction {
    Instruction { mnemonic: m, first: a, second: b, length, cycles, cycles_not_taken: not_taken }
}

#[test]
fn some_rows_of_the_first_table() {
    let none = Operand::Absent;
    assert_eq!(decode(0x00), row(Mnemonic::NOP, none, none, 1, 4, None));
    assert_eq!(decode(0x01), row(Mnemonic::LD, Operand::BC, Operand::N16, 3, 12, None));
    assert_eq!(decode(0x08), row(Mnemonic::LD, Operand::MemA16, Operand::SP, 3, 20, None));
    assert_eq!(decode(0x10), row(Mnemonic::STOP, none, none, 2, 4, None));
    assert_eq!(decode(0x20), row(Mnemonic::JR, Operand::CondNZ, Operand::E8, 2, 12, Some(8)));
    assert_eq!(decode(0x2A), row(Mnemonic::LD, Operand::A, Operand::MemHLInc, 1, 8, None));
    assert_eq!(decode(0x32), row(Mnemonic::LD, Operand::MemHLDec, Operand::A, 1, 8, None));
    assert_eq!(decode(0x34), row(Mnemonic::INC, Operand::MemHL, none, 1, 12, None));
    assert_eq!(decode(0x36), row(Mnemonic::LD, Operand::MemHL, Operand::N8, 2, 12, None));
    assert_eq!(decode(0x41), row(Mnemonic::LD, Operand::B, Operand::C, 1, 4, None));
    assert_eq!(decode(0x76), row(Mnemonic::HALT, none, none, 1, 4, None));
    assert_eq!(decode(0x7E), row(Mnemonic::LD, Operand::A, Operand::MemHL, 1, 8, None));
    assert_eq!(decode(0x80), row(Mnemonic::ADD, Operand::A, Operand::B, 1, 4, None));
    assert_eq!(decode(0xBE), row(Mnemonic::CP, Operand::A, Operand::MemHL, 1, 8, None));
    assert_eq!(decode(0xC0), row(Mnemonic::RET, Operand::CondNZ, none, 1, 20, Some(8)));
    assert_eq!(decode(0xC3), row(Mnemonic::JP, Operand::A16, none, 3, 16, None));
    assert_eq!(decode(0xCB), row(Mnemonic::PREFIX, none, none, 1, 4, None));
    assert_eq!(decode(0xCD), row(Mnemonic::CALL, Operand::A16, none, 3, 24, None));
    assert_eq!(decode(0xDC), row(Mnemonic::CALL, Operand::CondC, Operand::A16, 3, 24, Some(12)));
    assert_eq!(decode(0xE0), row(Mnemonic::LDH, Operand::MemA8, Operand::A, 2, 12, None));
    assert_eq!(decode(0xE2), row(Mnemonic::LD, Operand::MemC, Operand::A, 1, 8, None));
    assert_eq!(decode(0xE8), row(Mnemonic::ADD, Operand::SP, Operand::E8, 2, 16, None));
    assert_eq!(decode(0xE9), row(Mnemonic::JP, Operand::HL, none, 1, 4, None));
    assert_eq!(decode(0xF1), row(Mnemonic::POP, Operand::AF, none, 1, 12, None));
    assert_eq!(decode(0xF8), row(Mnemonic::LD, Operand::HL, Operand::SPPlusE8, 2, 12, None));
    assert_eq!(decode(0xFE), row(Mnemonic::CP, Operand::A, Operand::N8, 2, 8, None));
    assert_eq!(decode(0xFF), row(Mnemonic::RST, Operand::Vector(0x38), none, 1, 16, None));
}

#[test]
fn undefined_opcodes_map_to_the_fault_row() {
    let fault = row(Mnemonic::ILLEGAL, Operand::Absent, Operand::Absent, 1, 4, None);
    let undefined = [0xD3, 0xDB, 0xDD, 0xE3, 0xE4, 0xEB, 0xEC, 0xED, 0xF4, 0xFC, 0xFD];
    for opcode in 0..=255u8 {
        assert_eq!(decode(opcode) == fault, undefined.contains(&opcode));
    }
}

#[test]
fn some_rows_of_the_second_table() {
    let none = Operand::Absent;
    assert_eq!(decode_prefixed(0x00), row(Mnemonic::RLC, Operand::B, none, 1, 4, None));
    assert_eq!(decode_prefixed(0x0E), row(Mnemonic::RRC, Operand::MemHL, none, 1, 12, None));
    assert_eq!(decode_prefixed(0x17), row(Mnemonic::RL, Operand::A, none, 1, 4, None));
    assert_eq!(decode_prefixed(0x1A), row(Mnemonic::RR, Operand::D, none, 1, 4, None));
    assert_eq!(decode_prefixed(0x23), row(Mnemonic::SLA, Operand::E, none, 1, 4, None));
    assert_eq!(decode_prefixed(0x2C), row(Mnemonic::SRA, Operand::H, none, 1, 4, None));
    assert_eq!(decode_prefixed(0x35), row(Mnemonic::SWAP, Operand::L, none, 1, 4, None));
    assert_eq!(decode_prefixed(0x3F), row(Mnemonic::SRL, Operand::A, none, 1, 4, None));
    assert_eq!(decode_prefixed(0x46), row(Mnemonic::BIT, Operand::Bit(0), Operand::MemHL, 1, 8, None));
    assert_eq!(decode_prefixed(0x7C), row(Mnemonic::BIT, Operand::Bit(7), Operand::H, 1, 4, None));
    assert_eq!(decode_prefixed(0x86), row(Mnemonic::RES, Operand::Bit(0), Operand::MemHL, 1, 12, None));
    assert_eq!(decode_prefixed(0xFF), row(Mnemonic::SET, Operand::Bit(7), Operand::A, 1, 4, None));
}

#[test]
fn lengths_and_costs_stay_in_range() {
    for opcode in 0..=255u8 {
        let first = decode(opcode);
        assert!((1..=3).contains(&first.length));
        for taken in [false, true] {
            assert!((4..=24).contains(&cycles_of(&first, taken)));
        }
        let second = decode_prefixed(opcode);
        assert_eq!(second.length, 1);
        assert!((4..=12).contains(&second.cycles));
        assert_eq!(second.cycles_not_taken, None);
    }
}

#[test]
fn cost_depends_on_the_condition() {
    let jump = decode(0xC2);
    assert_eq!(cycles_of(&jump, true), 16);
    assert_eq!(cycles_of(&jump, false), 12);
    let plain = decode(0x00);
    assert_eq!(cycles_of(&plain, true), 4);
    assert_eq!(cycles_of(&plain, false), 4);
}
