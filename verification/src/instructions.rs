use vstd::prelude::*;

verus! {

/// The operation that an instruction performs.
#[derive(Clone, Copy, PartialEq, Eq, Structural, Debug)]
pub enum Mnemonic {
    ADC,
    ADD,
    AND,
    BIT,
    CALL,
    CCF,
    CP,
    CPL,
    DAA,
    DEC,
    DI,
    EI,
    HALT,
    INC,
    JP,
    JR,
    LD,
    LDH,
    NOP,
    OR,
    POP,
    PUSH,
    RES,
    RET,
    RETI,
    RL,
    RLA,
    RLC,
    RLCA,
    RR,
    RRA,
    RRC,
    RRCA,
    RST,
    SBC,
    SCF,
    SET,
    SLA,
    SRA,
    SRL,
    STOP,
    SUB,
    SWAP,
    XOR,
    /// The byte that introduces the second table.
    PREFIX,
    /// An opcode that the processor does not define.
    ILLEGAL,
}

/// A symbolic operand of an instruction.
#[derive(Clone, Copy, PartialEq, Eq, Structural, Debug)]
pub enum Operand {
    A,
    B,
    C,
    D,
    E,
    H,
    L,
    AF,
    BC,
    DE,
    HL,
    SP,
    /// The byte at the address in HL.
    MemHL,
    /// The byte at the address in HL; HL is incremented afterwards.
    MemHLInc,
    /// The byte at the address in HL; HL is decremented afterwards.
    MemHLDec,
    /// The byte at the address in BC.
    MemBC,
    /// The byte at the address in DE.
    MemDE,
    /// The byte at `0xFF00 + C`.
    MemC,
    /// The byte at `0xFF00 +` the immediate byte.
    MemA8,
    /// The byte at the immediate 16-bit address.
    MemA16,
    /// The immediate byte.
    N8,
    /// The immediate 16-bit value.
    N16,
    /// The immediate byte, read as a signed offset.
    E8,
    /// The immediate 16-bit address.
    A16,
    /// The stack pointer plus the signed immediate byte.
    SPPlusE8,
    /// The zero flag is set.
    CondZ,
    /// The zero flag is clear.
    CondNZ,
    /// The carry flag is set.
    CondC,
    /// The carry flag is clear.
    CondNC,
    /// A fixed restart address.
    Vector(u8),
    /// A bit number, 0 to 7.
    Bit(u8),
    /// No operand in this position.
    Absent,
}

/// One row of a decode table.
///
/// `cycles` is what the instruction costs; a conditional instruction costs
/// `cycles` when its condition holds and `cycles_not_taken` when it does not.
#[derive(Clone, Copy, PartialEq, Eq, Structural, Debug)]
pub struct Instruction {
    pub mnemonic: Mnemonic,
    pub first: Operand,
    pub second: Operand,
    pub length: u8,
    pub cycles: u8,
    pub cycles_not_taken: Option<u8>,
}

/// A row whose cost does not depend on a condition.
pub open spec fn fixed_entry(
    mnemonic: Mnemonic,
    first: Operand,
    second: Operand,
    length: u8,
    cycles: u8,
) -> Instruction {
    Instruction { mnemonic, first, second, length, cycles, cycles_not_taken: None }
}

/// A row of a conditional instruction.
pub open spec fn branching_entry(
    mnemonic: Mnemonic,
    first: Operand,
    second: Operand,
    length: u8,
    taken: u8,
    not_taken: u8,
) -> Instruction {
    Instruction { mnemonic, first, second, length, cycles: taken, cycles_not_taken: Some(not_taken) }
}

/// The row of an undefined opcode: it is run as a one-byte instruction that
/// does nothing.
pub open spec fn illegal_entry() -> Instruction {
    fixed_entry(Mnemonic::ILLEGAL, Operand::Absent, Operand::Absent, 1, 4)
}

/// The 8-bit operand that a 3-bit register field selects.
pub open spec fn register_operand(field: int) -> Operand {
    if field == 0 {
        Operand::B
    } else if field == 1 {
        Operand::C
    } else if field == 2 {
        Operand::D
    } else if field == 3 {
        Operand::E
    } else if field == 4 {
        Operand::H
    } else if field == 5 {
        Operand::L
    } else if field == 6 {
        Operand::MemHL
    } else {
        Operand::A
    }
}

/// The register pair that a 2-bit field selects in arithmetic and loads.
pub open spec fn pair_operand(field: int) -> Operand {
    if field == 0 {
        Operand::BC
    } else if field == 1 {
        Operand::DE
    } else if field == 2 {
        Operand::HL
    } else {
        Operand::SP
    }
}

/// The register pair that a 2-bit field selects in pushes and pops.
pub open spec fn stack_pair_operand(field: int) -> Operand {
    if field == 3 {
        Operand::AF
    } else {
        pair_operand(field)
    }
}

/// The address operand that a 2-bit field selects in the loads between A
/// and memory.
pub open spec fn indirect_operand(field: int) -> Operand {
    if field == 0 {
        Operand::MemBC
    } else if field == 1 {
        Operand::MemDE
    } else if field == 2 {
        Operand::MemHLInc
    } else {
        Operand::MemHLDec
    }
}

/// The condition that a 2-bit field selects.
pub open spec fn condition_operand(field: int) -> Operand {
    if field == 0 {
        Operand::CondNZ
    } else if field == 1 {
        Operand::CondZ
    } else if field == 2 {
        Operand::CondNC
    } else {
        Operand::CondC
    }
}

/// The accumulator operation that a 3-bit field selects.
pub open spec fn alu_mnemonic(field: int) -> Mnemonic {
    if field == 0 {
        Mnemonic::ADD
    } else if field == 1 {
        Mnemonic::ADC
    } else if field == 2 {
        Mnemonic::SUB
    } else if field == 3 {
        Mnemonic::SBC
    } else if field == 4 {
        Mnemonic::AND
    } else if field == 5 {
        Mnemonic::XOR
    } else if field == 6 {
        Mnemonic::OR
    } else {
        Mnemonic::CP
    }
}

/// The rotate or shift that a 3-bit field selects in the second table.
pub open spec fn shift_mnemonic(field: int) -> Mnemonic {
    if field == 0 {
        Mnemonic::RLC
    } else if field == 1 {
        Mnemonic::RRC
    } else if field == 2 {
        Mnemonic::RL
    } else if field == 3 {
        Mnemonic::RR
    } else if field == 4 {
        Mnemonic::SLA
    } else if field == 5 {
        Mnemonic::SRA
    } else if field == 6 {
        Mnemonic::SWAP
    } else {
        Mnemonic::SRL
    }
}

/// The operation on A alone that a 3-bit field selects.
pub open spec fn accumulator_mnemonic(field: int) -> Mnemonic {
    if field == 0 {
        Mnemonic::RLCA
    } else if field == 1 {
        Mnemonic::RRCA
    } else if field == 2 {
        Mnemonic::RLA
    } else if field == 3 {
        Mnemonic::RRA
    } else if field == 4 {
        Mnemonic::DAA
    } else if field == 5 {
        Mnemonic::CPL
    } else if field == 6 {
        Mnemonic::SCF
    } else {
        Mnemonic::CCF
    }
}

/// `through_memory` when the operand is the byte at HL, else `plain`.
pub open spec fn cost(operand: Operand, plain: u8, through_memory: u8) -> u8 {
    if operand == Operand::MemHL {
        through_memory
    } else {
        plain
    }
}

/// Rows `0x00..=0x3F`, by the middle field `y` and the low field `z`.
pub open spec fn low_block(y: int, z: int) -> Instruction {
    let none = Operand::Absent;
    if z == 0 {
        if y == 0 {
            fixed_entry(Mnemonic::NOP, none, none, 1, 4)
        } else if y == 1 {
            fixed_entry(Mnemonic::LD, Operand::MemA16, Operand::SP, 3, 20)
        } else if y == 2 {
            fixed_entry(Mnemonic::STOP, none, none, 2, 4)
        } else if y == 3 {
            fixed_entry(Mnemonic::JR, Operand::E8, none, 2, 12)
        } else {
            branching_entry(Mnemonic::JR, condition_operand(y - 4), Operand::E8, 2, 12, 8)
        }
    } else if z == 1 {
        if y % 2 == 0 {
            fixed_entry(Mnemonic::LD, pair_operand(y / 2), Operand::N16, 3, 12)
        } else {
            fixed_entry(Mnemonic::ADD, Operand::HL, pair_operand(y / 2), 1, 8)
        }
    } else if z == 2 {
        if y % 2 == 0 {
            fixed_entry(Mnemonic::LD, indirect_operand(y / 2), Operand::A, 1, 8)
        } else {
            fixed_entry(Mnemonic::LD, Operand::A, indirect_operand(y / 2), 1, 8)
        }
    } else if z == 3 {
        if y % 2 == 0 {
            fixed_entry(Mnemonic::INC, pair_operand(y / 2), none, 1, 8)
        } else {
            fixed_entry(Mnemonic::DEC, pair_operand(y / 2), none, 1, 8)
        }
    } else if z == 4 {
        fixed_entry(Mnemonic::INC, register_operand(y), none, 1, cost(register_operand(y), 4, 12))
    } else if z == 5 {
        fixed_entry(Mnemonic::DEC, register_operand(y), none, 1, cost(register_operand(y), 4, 12))
    } else if z == 6 {
        fixed_entry(
            Mnemonic::LD,
            register_operand(y),
            Operand::N8,
            2,
            cost(register_operand(y), 8, 12),
        )
    } else {
        fixed_entry(accumulator_mnemonic(y), none, none, 1, 4)
    }
}

/// Rows `0x40..=0x7F`: the loads between 8-bit operands, with the halt
/// instruction where both fields select the byte at HL.
pub open spec fn load_block(y: int, z: int) -> Instruction {
    if y == 6 && z == 6 {
        fixed_entry(Mnemonic::HALT, Operand::Absent, Operand::Absent, 1, 4)
    } else {
        fixed_entry(
            Mnemonic::LD,
            register_operand(y),
            register_operand(z),
            1,
            if y == 6 || z == 6 {
                8
            } else {
                4
            },
        )
    }
}

/// Rows `0x80..=0xBF`: the accumulator operations on an 8-bit operand.
pub open spec fn alu_block(y: int, z: int) -> Instruction {
    fixed_entry(
        alu_mnemonic(y),
        Operand::A,
        register_operand(z),
        1,
        cost(register_operand(z), 4, 8),
    )
}

/// Rows `0xC0..=0xFF`, by the middle field `y` and the low field `z`.
pub open spec fn high_block(y: int, z: int) -> Instruction {
    let none = Operand::Absent;
    if z == 0 {
        if y < 4 {
            branching_entry(Mnemonic::RET, condition_operand(y), none, 1, 20, 8)
        } else if y == 4 {
            fixed_entry(Mnemonic::LDH, Operand::MemA8, Operand::A, 2, 12)
        } else if y == 5 {
            fixed_entry(Mnemonic::ADD, Operand::SP, Operand::E8, 2, 16)
        } else if y == 6 {
            fixed_entry(Mnemonic::LDH, Operand::A, Operand::MemA8, 2, 12)
        } else {
            fixed_entry(Mnemonic::LD, Operand::HL, Operand::SPPlusE8, 2, 12)
        }
    } else if z == 1 {
        if y % 2 == 0 {
            fixed_entry(Mnemonic::POP, stack_pair_operand(y / 2), none, 1, 12)
        } else if y == 1 {
            fixed_entry(Mnemonic::RET, none, none, 1, 16)
        } else if y == 3 {
            fixed_entry(Mnemonic::RETI, none, none, 1, 16)
        } else if y == 5 {
            fixed_entry(Mnemonic::JP, Operand::HL, none, 1, 4)
        } else {
            fixed_entry(Mnemonic::LD, Operand::SP, Operand::HL, 1, 8)
        }
    } else if z == 2 {
        if y < 4 {
            branching_entry(Mnemonic::JP, condition_operand(y), Operand::A16, 3, 16, 12)
        } else if y == 4 {
            fixed_entry(Mnemonic::LD, Operand::MemC, Operand::A, 1, 8)
        } else if y == 5 {
            fixed_entry(Mnemonic::LD, Operand::MemA16, Operand::A, 3, 16)
        } else if y == 6 {
            fixed_entry(Mnemonic::LD, Operand::A, Operand::MemC, 1, 8)
        } else {
            fixed_entry(Mnemonic::LD, Operand::A, Operand::MemA16, 3, 16)
        }
    } else if z == 3 {
        if y == 0 {
            fixed_entry(Mnemonic::JP, Operand::A16, none, 3, 16)
        } else if y == 1 {
            fixed_entry(Mnemonic::PREFIX, none, none, 1, 4)
        } else if y == 6 {
            fixed_entry(Mnemonic::DI, none, none, 1, 4)
        } else if y == 7 {
            fixed_entry(Mnemonic::EI, none, none, 1, 4)
        } else {
            illegal_entry()
        }
    } else if z == 4 {
        if y < 4 {
            branching_entry(Mnemonic::CALL, condition_operand(y), Operand::A16, 3, 24, 12)
        } else {
            illegal_entry()
        }
    } else if z == 5 {
        if y % 2 == 0 {
            fixed_entry(Mnemonic::PUSH, stack_pair_operand(y / 2), none, 1, 16)
        } else if y == 1 {
            fixed_entry(Mnemonic::CALL, Operand::A16, none, 3, 24)
        } else {
            illegal_entry()
        }
    } else if z == 6 {
        fixed_entry(alu_mnemonic(y), Operand::A, Operand::N8, 2, 8)
    } else {
        fixed_entry(Mnemonic::RST, Operand::Vector((y * 8) as u8), none, 1, 16)
    }
}

/// The row of the first table for `opcode`, read off the opcode's three bit
/// fields: the top two bits, the middle three and the low three.
#[verifier::opaque]
pub open spec fn instruction_at(opcode: u8) -> Instruction {
    let x = opcode as int / 64;
    let y = opcode as int / 8 % 8;
    let z = opcode as int % 8;
    if x == 0 {
        low_block(y, z)
    } else if x == 1 {
        load_block(y, z)
    } else if x == 2 {
        alu_block(y, z)
    } else {
        high_block(y, z)
    }
}

/// The row of the second table for `opcode`, the byte that follows the
/// prefix.  Its length and cost are those of that byte alone: the prefix
/// brings its own.
#[verifier::opaque]
pub open spec fn prefixed_instruction_at(opcode: u8) -> Instruction {
    let x = opcode as int / 64;
    let y = opcode as int / 8 % 8;
    let target = register_operand(opcode as int % 8);
    if x == 0 {
        fixed_entry(shift_mnemonic(y), target, Operand::Absent, 1, cost(target, 4, 12))
    } else if x == 1 {
        fixed_entry(Mnemonic::BIT, Operand::Bit(y as u8), target, 1, cost(target, 4, 8))
    } else if x == 2 {
        fixed_entry(Mnemonic::RES, Operand::Bit(y as u8), target, 1, cost(target, 4, 12))
    } else {
        fixed_entry(Mnemonic::SET, Operand::Bit(y as u8), target, 1, cost(target, 4, 12))
    }
}

/// What an instruction costs: `cycles`, or `cycles_not_taken` when it is
/// conditional and its condition did not hold.
pub open spec fn cycles_for(instruction: Instruction, taken: bool) -> u8 {
    match instruction.cycles_not_taken {
        Some(not_taken) => if taken {
            instruction.cycles
        } else {
            not_taken
        },
        None => instruction.cycles,
    }
}

fn fixed(mnemonic: Mnemonic, first: Operand, second: Operand, length: u8, cycles: u8) -> (row:
    Instruction)
    ensures
        row == fixed_entry(mnemonic, first, second, length, cycles),
{
    Instruction { mnemonic, first, second, length, cycles, cycles_not_taken: None }
}

fn branching(
    mnemonic: Mnemonic,
    first: Operand,
    second: Operand,
    length: u8,
    taken: u8,
    not_taken: u8,
) -> (row: Instruction)
    ensures
        row == branching_entry(mnemonic, first, second, length, taken, not_taken),
{
    Instruction { mnemonic, first, second, length, cycles: taken, cycles_not_taken: Some(not_taken) }
}

/// Rows `0x00..=0x3F` of the first table.
#[verifier::rlimit(100)]
#[verifier::spinoff_prover]
fn rows_00_3f(opcode: u8) -> (row: Instruction)
    requires
        0 <= opcode < 0 + 64,
    ensures
        row == instruction_at(opcode),
{
    reveal(instruction_at);
    match opcode {
        0x00 => fixed(Mnemonic::NOP, Operand::Absent, Operand::Absent, 1, 4),
        0x01 => fixed(Mnemonic::LD, Operand::BC, Operand::N16, 3, 12),
        0x02 => fixed(Mnemonic::LD, Operand::MemBC, Operand::A, 1, 8),
        0x03 => fixed(Mnemonic::INC, Operand::BC, Operand::Absent, 1, 8),
        0x04 => fixed(Mnemonic::INC, Operand::B, Operand::Absent, 1, 4),
        0x05 => fixed(Mnemonic::DEC, Operand::B, Operand::Absent, 1, 4),
        0x06 => fixed(Mnemonic::LD, Operand::B, Operand::N8, 2, 8),
        0x07 => fixed(Mnemonic::RLCA, Operand::Absent, Operand::Absent, 1, 4),
        0x08 => fixed(Mnemonic::LD, Operand::MemA16, Operand::SP, 3, 20),
        0x09 => fixed(Mnemonic::ADD, Operand::HL, Operand::BC, 1, 8),
        0x0A => fixed(Mnemonic::LD, Operand::A, Operand::MemBC, 1, 8),
        0x0B => fixed(Mnemonic::DEC, Operand::BC, Operand::Absent, 1, 8),
        0x0C => fixed(Mnemonic::INC, Operand::C, Operand::Absent, 1, 4),
        0x0D => fixed(Mnemonic::DEC, Operand::C, Operand::Absent, 1, 4),
        0x0E => fixed(Mnemonic::LD, Operand::C, Operand::N8, 2, 8),
        0x0F => fixed(Mnemonic::RRCA, Operand::Absent, Operand::Absent, 1, 4),
        0x10 => fixed(Mnemonic::STOP, Operand::Absent, Operand::Absent, 2, 4),
        0x11 => fixed(Mnemonic::LD, Operand::DE, Operand::N16, 3, 12),
        0x12 => fixed(Mnemonic::LD, Operand::MemDE, Operand::A, 1, 8),
        0x13 => fixed(Mnemonic::INC, Operand::DE, Operand::Absent, 1, 8),
        0x14 => fixed(Mnemonic::INC, Operand::D, Operand::Absent, 1, 4),
        0x15 => fixed(Mnemonic::DEC, Operand::D, Operand::Absent, 1, 4),
        0x16 => fixed(Mnemonic::LD, Operand::D, Operand::N8, 2, 8),
        0x17 => fixed(Mnemonic::RLA, Operand::Absent, Operand::Absent, 1, 4),
        0x18 => fixed(Mnemonic::JR, Operand::E8, Operand::Absent, 2, 12),
        0x19 => fixed(Mnemonic::ADD, Operand::HL, Operand::DE, 1, 8),
        0x1A => fixed(Mnemonic::LD, Operand::A, Operand::MemDE, 1, 8),
        0x1B => fixed(Mnemonic::DEC, Operand::DE, Operand::Absent, 1, 8),
        0x1C => fixed(Mnemonic::INC, Operand::E, Operand::Absent, 1, 4),
        0x1D => fixed(Mnemonic::DEC, Operand::E, Operand::Absent, 1, 4),
        0x1E => fixed(Mnemonic::LD, Operand::E, Operand::N8, 2, 8),
        0x1F => fixed(Mnemonic::RRA, Operand::Absent, Operand::Absent, 1, 4),
        0x20 => branching(Mnemonic::JR, Operand::CondNZ, Operand::E8, 2, 12, 8),
        0x21 => fixed(Mnemonic::LD, Operand::HL, Operand::N16, 3, 12),
        0x22 => fixed(Mnemonic::LD, Operand::MemHLInc, Operand::A, 1, 8),
        0x23 => fixed(Mnemonic::INC, Operand::HL, Operand::Absent, 1, 8),
        0x24 => fixed(Mnemonic::INC, Operand::H, Operand::Absent, 1, 4),
        0x25 => fixed(Mnemonic::DEC, Operand::H, Operand::Absent, 1, 4),
        0x26 => fixed(Mnemonic::LD, Operand::H, Operand::N8, 2, 8),
        0x27 => fixed(Mnemonic::DAA, Operand::Absent, Operand::Absent, 1, 4),
        0x28 => branching(Mnemonic::JR, Operand::CondZ, Operand::E8, 2, 12, 8),
        0x29 => fixed(Mnemonic::ADD, Operand::HL, Operand::HL, 1, 8),
        0x2A => fixed(Mnemonic::LD, Operand::A, Operand::MemHLInc, 1, 8),
        0x2B => fixed(Mnemonic::DEC, Operand::HL, Operand::Absent, 1, 8),
        0x2C => fixed(Mnemonic::INC, Operand::L, Operand::Absent, 1, 4),
        0x2D => fixed(Mnemonic::DEC, Operand::L, Operand::Absent, 1, 4),
        0x2E => fixed(Mnemonic::LD, Operand::L, Operand::N8, 2, 8),
        0x2F => fixed(Mnemonic::CPL, Operand::Absent, Operand::Absent, 1, 4),
        0x30 => branching(Mnemonic::JR, Operand::CondNC, Operand::E8, 2, 12, 8),
        0x31 => fixed(Mnemonic::LD, Operand::SP, Operand::N16, 3, 12),
        0x32 => fixed(Mnemonic::LD, Operand::MemHLDec, Operand::A, 1, 8),
        0x33 => fixed(Mnemonic::INC, Operand::SP, Operand::Absent, 1, 8),
        0x34 => fixed(Mnemonic::INC, Operand::MemHL, Operand::Absent, 1, 12),
        0x35 => fixed(Mnemonic::DEC, Operand::MemHL, Operand::Absent, 1, 12),
        0x36 => fixed(Mnemonic::LD, Operand::MemHL, Operand::N8, 2, 12),
        0x37 => fixed(Mnemonic::SCF, Operand::Absent, Operand::Absent, 1, 4),
        0x38 => branching(Mnemonic::JR, Operand::CondC, Operand::E8, 2, 12, 8),
        0x39 => fixed(Mnemonic::ADD, Operand::HL, Operand::SP, 1, 8),
        0x3A => fixed(Mnemonic::LD, Operand::A, Operand::MemHLDec, 1, 8),
        0x3B => fixed(Mnemonic::DEC, Operand::SP, Operand::Absent, 1, 8),
        0x3C => fixed(Mnemonic::INC, Operand::A, Operand::Absent, 1, 4),
        0x3D => fixed(Mnemonic::DEC, Operand::A, Operand::Absent, 1, 4),
        0x3E => fixed(Mnemonic::LD, Operand::A, Operand::N8, 2, 8),
        0x3F => fixed(Mnemonic::CCF, Operand::Absent, Operand::Absent, 1, 4),
        _ => fixed(Mnemonic::ILLEGAL, Operand::Absent, Operand::Absent, 1, 4),
    }
}

/// Rows `0x40..=0x7F` of the first table.
#[verifier::rlimit(100)]
#[verifier::spinoff_prover]
fn rows_40_7f(opcode: u8) -> (row: Instruction)
    requires
        64 <= opcode < 64 + 64,
    ensures
        row == instruction_at(opcode),
{
    reveal(instruction_at);
    match opcode {
        0x40 => fixed(Mnemonic::LD, Operand::B, Operand::B, 1, 4),
        0x41 => fixed(Mnemonic::LD, Operand::B, Operand::C, 1, 4),
        0x42 => fixed(Mnemonic::LD, Operand::B, Operand::D, 1, 4),
        0x43 => fixed(Mnemonic::LD, Operand::B, Operand::E, 1, 4),
        0x44 => fixed(Mnemonic::LD, Operand::B, Operand::H, 1, 4),
        0x45 => fixed(Mnemonic::LD, Operand::B, Operand::L, 1, 4),
        0x46 => fixed(Mnemonic::LD, Operand::B, Operand::MemHL, 1, 8),
        0x47 => fixed(Mnemonic::LD, Operand::B, Operand::A, 1, 4),
        0x48 => fixed(Mnemonic::LD, Operand::C, Operand::B, 1, 4),
        0x49 => fixed(Mnemonic::LD, Operand::C, Operand::C, 1, 4),
        0x4A => fixed(Mnemonic::LD, Operand::C, Operand::D, 1, 4),
        0x4B => fixed(Mnemonic::LD, Operand::C, Operand::E, 1, 4),
        0x4C => fixed(Mnemonic::LD, Operand::C, Operand::H, 1, 4),
        0x4D => fixed(Mnemonic::LD, Operand::C, Operand::L, 1, 4),
        0x4E => fixed(Mnemonic::LD, Operand::C, Operand::MemHL, 1, 8),
        0x4F => fixed(Mnemonic::LD, Operand::C, Operand::A, 1, 4),
        0x50 => fixed(Mnemonic::LD, Operand::D, Operand::B, 1, 4),
        0x51 => fixed(Mnemonic::LD, Operand::D, Operand::C, 1, 4),
        0x52 => fixed(Mnemonic::LD, Operand::D, Operand::D, 1, 4),
        0x53 => fixed(Mnemonic::LD, Operand::D, Operand::E, 1, 4),
        0x54 => fixed(Mnemonic::LD, Operand::D, Operand::H, 1, 4),
        0x55 => fixed(Mnemonic::LD, Operand::D, Operand::L, 1, 4),
        0x56 => fixed(Mnemonic::LD, Operand::D, Operand::MemHL, 1, 8),
        0x57 => fixed(Mnemonic::LD, Operand::D, Operand::A, 1, 4),
        0x58 => fixed(Mnemonic::LD, Operand::E, Operand::B, 1, 4),
        0x59 => fixed(Mnemonic::LD, Operand::E, Operand::C, 1, 4),
        0x5A => fixed(Mnemonic::LD, Operand::E, Operand::D, 1, 4),
        0x5B => fixed(Mnemonic::LD, Operand::E, Operand::E, 1, 4),
        0x5C => fixed(Mnemonic::LD, Operand::E, Operand::H, 1, 4),
        0x5D => fixed(Mnemonic::LD, Operand::E, Operand::L, 1, 4),
        0x5E => fixed(Mnemonic::LD, Operand::E, Operand::MemHL, 1, 8),
        0x5F => fixed(Mnemonic::LD, Operand::E, Operand::A, 1, 4),
        0x60 => fixed(Mnemonic::LD, Operand::H, Operand::B, 1, 4),
        0x61 => fixed(Mnemonic::LD, Operand::H, Operand::C, 1, 4),
        0x62 => fixed(Mnemonic::LD, Operand::H, Operand::D, 1, 4),
        0x63 => fixed(Mnemonic::LD, Operand::H, Operand::E, 1, 4),
        0x64 => fixed(Mnemonic::LD, Operand::H, Operand::H, 1, 4),
        0x65 => fixed(Mnemonic::LD, Operand::H, Operand::L, 1, 4),
        0x66 => fixed(Mnemonic::LD, Operand::H, Operand::MemHL, 1, 8),
        0x67 => fixed(Mnemonic::LD, Operand::H, Operand::A, 1, 4),
        0x68 => fixed(Mnemonic::LD, Operand::L, Operand::B, 1, 4),
        0x69 => fixed(Mnemonic::LD, Operand::L, Operand::C, 1, 4),
        0x6A => fixed(Mnemonic::LD, Operand::L, Operand::D, 1, 4),
        0x6B => fixed(Mnemonic::LD, Operand::L, Operand::E, 1, 4),
        0x6C => fixed(Mnemonic::LD, Operand::L, Operand::H, 1, 4),
        0x6D => fixed(Mnemonic::LD, Operand::L, Operand::L, 1, 4),
        0x6E => fixed(Mnemonic::LD, Operand::L, Operand::MemHL, 1, 8),
        0x6F => fixed(Mnemonic::LD, Operand::L, Operand::A, 1, 4),
        0x70 => fixed(Mnemonic::LD, Operand::MemHL, Operand::B, 1, 8),
        0x71 => fixed(Mnemonic::LD, Operand::MemHL, Operand::C, 1, 8),
        0x72 => fixed(Mnemonic::LD, Operand::MemHL, Operand::D, 1, 8),
        0x73 => fixed(Mnemonic::LD, Operand::MemHL, Operand::E, 1, 8),
        0x74 => fixed(Mnemonic::LD, Operand::MemHL, Operand::H, 1, 8),
        0x75 => fixed(Mnemonic::LD, Operand::MemHL, Operand::L, 1, 8),
        0x76 => fixed(Mnemonic::HALT, Operand::Absent, Operand::Absent, 1, 4),
        0x77 => fixed(Mnemonic::LD, Operand::MemHL, Operand::A, 1, 8),
        0x78 => fixed(Mnemonic::LD, Operand::A, Operand::B, 1, 4),
        0x79 => fixed(Mnemonic::LD, Operand::A, Operand::C, 1, 4),
        0x7A => fixed(Mnemonic::LD, Operand::A, Operand::D, 1, 4),
        0x7B => fixed(Mnemonic::LD, Operand::A, Operand::E, 1, 4),
        0x7C => fixed(Mnemonic::LD, Operand::A, Operand::H, 1, 4),
        0x7D => fixed(Mnemonic::LD, Operand::A, Operand::L, 1, 4),
        0x7E => fixed(Mnemonic::LD, Operand::A, Operand::MemHL, 1, 8),
        0x7F => fixed(Mnemonic::LD, Operand::A, Operand::A, 1, 4),
        _ => fixed(Mnemonic::ILLEGAL, Operand::Absent, Operand::Absent, 1, 4),
    }
}

/// Rows `0x80..=0xBF` of the first table.
#[verifier::rlimit(100)]
#[verifier::spinoff_prover]
fn rows_80_bf(opcode: u8) -> (row: Instruction)
    requires
        128 <= opcode < 128 + 64,
    ensures
        row == instruction_at(opcode),
{
    reveal(instruction_at);
    match opcode {
        0x80 => fixed(Mnemonic::ADD, Operand::A, Operand::B, 1, 4),
        0x81 => fixed(Mnemonic::ADD, Operand::A, Operand::C, 1, 4),
        0x82 => fixed(Mnemonic::ADD, Operand::A, Operand::D, 1, 4),
        0x83 => fixed(Mnemonic::ADD, Operand::A, Operand::E, 1, 4),
        0x84 => fixed(Mnemonic::ADD, Operand::A, Operand::H, 1, 4),
        0x85 => fixed(Mnemonic::ADD, Operand::A, Operand::L, 1, 4),
        0x86 => fixed(Mnemonic::ADD, Operand::A, Operand::MemHL, 1, 8),
        0x87 => fixed(Mnemonic::ADD, Operand::A, Operand::A, 1, 4),
        0x88 => fixed(Mnemonic::ADC, Operand::A, Operand::B, 1, 4),
        0x89 => fixed(Mnemonic::ADC, Operand::A, Operand::C, 1, 4),
        0x8A => fixed(Mnemonic::ADC, Operand::A, Operand::D, 1, 4),
        0x8B => fixed(Mnemonic::ADC, Operand::A, Operand::E, 1, 4),
        0x8C => fixed(Mnemonic::ADC, Operand::A, Operand::H, 1, 4),
        0x8D => fixed(Mnemonic::ADC, Operand::A, Operand::L, 1, 4),
        0x8E => fixed(Mnemonic::ADC, Operand::A, Operand::MemHL, 1, 8),
        0x8F => fixed(Mnemonic::ADC, Operand::A, Operand::A, 1, 4),
        0x90 => fixed(Mnemonic::SUB, Operand::A, Operand::B, 1, 4),
        0x91 => fixed(Mnemonic::SUB, Operand::A, Operand::C, 1, 4),
        0x92 => fixed(Mnemonic::SUB, Operand::A, Operand::D, 1, 4),
        0x93 => fixed(Mnemonic::SUB, Operand::A, Operand::E, 1, 4),
        0x94 => fixed(Mnemonic::SUB, Operand::A, Operand::H, 1, 4),
        0x95 => fixed(Mnemonic::SUB, Operand::A, Operand::L, 1, 4),
        0x96 => fixed(Mnemonic::SUB, Operand::A, Operand::MemHL, 1, 8),
        0x97 => fixed(Mnemonic::SUB, Operand::A, Operand::A, 1, 4),
        0x98 => fixed(Mnemonic::SBC, Operand::A, Operand::B, 1, 4),
        0x99 => fixed(Mnemonic::SBC, Operand::A, Operand::C, 1, 4),
        0x9A => fixed(Mnemonic::SBC, Operand::A, Operand::D, 1, 4),
        0x9B => fixed(Mnemonic::SBC, Operand::A, Operand::E, 1, 4),
        0x9C => fixed(Mnemonic::SBC, Operand::A, Operand::H, 1, 4),
        0x9D => fixed(Mnemonic::SBC, Operand::A, Operand::L, 1, 4),
        0x9E => fixed(Mnemonic::SBC, Operand::A, Operand::MemHL, 1, 8),
        0x9F => fixed(Mnemonic::SBC, Operand::A, Operand::A, 1, 4),
        0xA0 => fixed(Mnemonic::AND, Operand::A, Operand::B, 1, 4),
        0xA1 => fixed(Mnemonic::AND, Operand::A, Operand::C, 1, 4),
        0xA2 => fixed(Mnemonic::AND, Operand::A, Operand::D, 1, 4),
        0xA3 => fixed(Mnemonic::AND, Operand::A, Operand::E, 1, 4),
        0xA4 => fixed(Mnemonic::AND, Operand::A, Operand::H, 1, 4),
        0xA5 => fixed(Mnemonic::AND, Operand::A, Operand::L, 1, 4),
        0xA6 => fixed(Mnemonic::AND, Operand::A, Operand::MemHL, 1, 8),
        0xA7 => fixed(Mnemonic::AND, Operand::A, Operand::A, 1, 4),
        0xA8 => fixed(Mnemonic::XOR, Operand::A, Operand::B, 1, 4),
        0xA9 => fixed(Mnemonic::XOR, Operand::A, Operand::C, 1, 4),
        0xAA => fixed(Mnemonic::XOR, Operand::A, Operand::D, 1, 4),
        0xAB => fixed(Mnemonic::XOR, Operand::A, Operand::E, 1, 4),
        0xAC => fixed(Mnemonic::XOR, Operand::A, Operand::H, 1, 4),
        0xAD => fixed(Mnemonic::XOR, Operand::A, Operand::L, 1, 4),
        0xAE => fixed(Mnemonic::XOR, Operand::A, Operand::MemHL, 1, 8),
        0xAF => fixed(Mnemonic::XOR, Operand::A, Operand::A, 1, 4),
        0xB0 => fixed(Mnemonic::OR, Operand::A, Operand::B, 1, 4),
        0xB1 => fixed(Mnemonic::OR, Operand::A, Operand::C, 1, 4),
        0xB2 => fixed(Mnemonic::OR, Operand::A, Operand::D, 1, 4),
        0xB3 => fixed(Mnemonic::OR, Operand::A, Operand::E, 1, 4),
        0xB4 => fixed(Mnemonic::OR, Operand::A, Operand::H, 1, 4),
        0xB5 => fixed(Mnemonic::OR, Operand::A, Operand::L, 1, 4),
        0xB6 => fixed(Mnemonic::OR, Operand::A, Operand::MemHL, 1, 8),
        0xB7 => fixed(Mnemonic::OR, Operand::A, Operand::A, 1, 4),
        0xB8 => fixed(Mnemonic::CP, Operand::A, Operand::B, 1, 4),
        0xB9 => fixed(Mnemonic::CP, Operand::A, Operand::C, 1, 4),
        0xBA => fixed(Mnemonic::CP, Operand::A, Operand::D, 1, 4),
        0xBB => fixed(Mnemonic::CP, Operand::A, Operand::E, 1, 4),
        0xBC => fixed(Mnemonic::CP, Operand::A, Operand::H, 1, 4),
        0xBD => fixed(Mnemonic::CP, Operand::A, Operand::L, 1, 4),
        0xBE => fixed(Mnemonic::CP, Operand::A, Operand::MemHL, 1, 8),
        0xBF => fixed(Mnemonic::CP, Operand::A, Operand::A, 1, 4),
        _ => fixed(Mnemonic::ILLEGAL, Operand::Absent, Operand::Absent, 1, 4),
    }
}

/// Rows `0xC0..=0xFF` of the first table.
#[verifier::rlimit(100)]
#[verifier::spinoff_prover]
fn rows_c0_ff(opcode: u8) -> (row: Instruction)
    requires
        192 <= opcode < 192 + 64,
    ensures
        row == instruction_at(opcode),
{
    reveal(instruction_at);
    match opcode {
        0xC0 => branching(Mnemonic::RET, Operand::CondNZ, Operand::Absent, 1, 20, 8),
        0xC1 => fixed(Mnemonic::POP, Operand::BC, Operand::Absent, 1, 12),
        0xC2 => branching(Mnemonic::JP, Operand::CondNZ, Operand::A16, 3, 16, 12),
        0xC3 => fixed(Mnemonic::JP, Operand::A16, Operand::Absent, 3, 16),
        0xC4 => branching(Mnemonic::CALL, Operand::CondNZ, Operand::A16, 3, 24, 12),
        0xC5 => fixed(Mnemonic::PUSH, Operand::BC, Operand::Absent, 1, 16),
        0xC6 => fixed(Mnemonic::ADD, Operand::A, Operand::N8, 2, 8),
        0xC7 => fixed(Mnemonic::RST, Operand::Vector(0x00), Operand::Absent, 1, 16),
        0xC8 => branching(Mnemonic::RET, Operand::CondZ, Operand::Absent, 1, 20, 8),
        0xC9 => fixed(Mnemonic::RET, Operand::Absent, Operand::Absent, 1, 16),
        0xCA => branching(Mnemonic::JP, Operand::CondZ, Operand::A16, 3, 16, 12),
        0xCB => fixed(Mnemonic::PREFIX, Operand::Absent, Operand::Absent, 1, 4),
        0xCC => branching(Mnemonic::CALL, Operand::CondZ, Operand::A16, 3, 24, 12),
        0xCD => fixed(Mnemonic::CALL, Operand::A16, Operand::Absent, 3, 24),
        0xCE => fixed(Mnemonic::ADC, Operand::A, Operand::N8, 2, 8),
        0xCF => fixed(Mnemonic::RST, Operand::Vector(0x08), Operand::Absent, 1, 16),
        0xD0 => branching(Mnemonic::RET, Operand::CondNC, Operand::Absent, 1, 20, 8),
        0xD1 => fixed(Mnemonic::POP, Operand::DE, Operand::Absent, 1, 12),
        0xD2 => branching(Mnemonic::JP, Operand::CondNC, Operand::A16, 3, 16, 12),
        0xD3 => fixed(Mnemonic::ILLEGAL, Operand::Absent, Operand::Absent, 1, 4),
        0xD4 => branching(Mnemonic::CALL, Operand::CondNC, Operand::A16, 3, 24, 12),
        0xD5 => fixed(Mnemonic::PUSH, Operand::DE, Operand::Absent, 1, 16),
        0xD6 => fixed(Mnemonic::SUB, Operand::A, Operand::N8, 2, 8),
        0xD7 => fixed(Mnemonic::RST, Operand::Vector(0x10), Operand::Absent, 1, 16),
        0xD8 => branching(Mnemonic::RET, Operand::CondC, Operand::Absent, 1, 20, 8),
        0xD9 => fixed(Mnemonic::RETI, Operand::Absent, Operand::Absent, 1, 16),
        0xDA => branching(Mnemonic::JP, Operand::CondC, Operand::A16, 3, 16, 12),
        0xDB => fixed(Mnemonic::ILLEGAL, Operand::Absent, Operand::Absent, 1, 4),
        0xDC => branching(Mnemonic::CALL, Operand::CondC, Operand::A16, 3, 24, 12),
        0xDD => fixed(Mnemonic::ILLEGAL, Operand::Absent, Operand::Absent, 1, 4),
        0xDE => fixed(Mnemonic::SBC, Operand::A, Operand::N8, 2, 8),
        0xDF => fixed(Mnemonic::RST, Operand::Vector(0x18), Operand::Absent, 1, 16),
        0xE0 => fixed(Mnemonic::LDH, Operand::MemA8, Operand::A, 2, 12),
        0xE1 => fixed(Mnemonic::POP, Operand::HL, Operand::Absent, 1, 12),
        0xE2 => fixed(Mnemonic::LD, Operand::MemC, Operand::A, 1, 8),
        0xE3 => fixed(Mnemonic::ILLEGAL, Operand::Absent, Operand::Absent, 1, 4),
        0xE4 => fixed(Mnemonic::ILLEGAL, Operand::Absent, Operand::Absent, 1, 4),
        0xE5 => fixed(Mnemonic::PUSH, Operand::HL, Operand::Absent, 1, 16),
        0xE6 => fixed(Mnemonic::AND, Operand::A, Operand::N8, 2, 8),
        0xE7 => fixed(Mnemonic::RST, Operand::Vector(0x20), Operand::Absent, 1, 16),
        0xE8 => fixed(Mnemonic::ADD, Operand::SP, Operand::E8, 2, 16),
        0xE9 => fixed(Mnemonic::JP, Operand::HL, Operand::Absent, 1, 4),
        0xEA => fixed(Mnemonic::LD, Operand::MemA16, Operand::A, 3, 16),
        0xEB => fixed(Mnemonic::ILLEGAL, Operand::Absent, Operand::Absent, 1, 4),
        0xEC => fixed(Mnemonic::ILLEGAL, Operand::Absent, Operand::Absent, 1, 4),
        0xED => fixed(Mnemonic::ILLEGAL, Operand::Absent, Operand::Absent, 1, 4),
        0xEE => fixed(Mnemonic::XOR, Operand::A, Operand::N8, 2, 8),
        0xEF => fixed(Mnemonic::RST, Operand::Vector(0x28), Operand::Absent, 1, 16),
        0xF0 => fixed(Mnemonic::LDH, Operand::A, Operand::MemA8, 2, 12),
        0xF1 => fixed(Mnemonic::POP, Operand::AF, Operand::Absent, 1, 12),
        0xF2 => fixed(Mnemonic::LD, Operand::A, Operand::MemC, 1, 8),
        0xF3 => fixed(Mnemonic::DI, Operand::Absent, Operand::Absent, 1, 4),
        0xF4 => fixed(Mnemonic::ILLEGAL, Operand::Absent, Operand::Absent, 1, 4),
        0xF5 => fixed(Mnemonic::PUSH, Operand::AF, Operand::Absent, 1, 16),
        0xF6 => fixed(Mnemonic::OR, Operand::A, Operand::N8, 2, 8),
        0xF7 => fixed(Mnemonic::RST, Operand::Vector(0x30), Operand::Absent, 1, 16),
        0xF8 => fixed(Mnemonic::LD, Operand::HL, Operand::SPPlusE8, 2, 12),
        0xF9 => fixed(Mnemonic::LD, Operand::SP, Operand::HL, 1, 8),
        0xFA => fixed(Mnemonic::LD, Operand::A, Operand::MemA16, 3, 16),
        0xFB => fixed(Mnemonic::EI, Operand::Absent, Operand::Absent, 1, 4),
        0xFC => fixed(Mnemonic::ILLEGAL, Operand::Absent, Operand::Absent, 1, 4),
        0xFD => fixed(Mnemonic::ILLEGAL, Operand::Absent, Operand::Absent, 1, 4),
        0xFE => fixed(Mnemonic::CP, Operand::A, Operand::N8, 2, 8),
        0xFF => fixed(Mnemonic::RST, Operand::Vector(0x38), Operand::Absent, 1, 16),
        _ => fixed(Mnemonic::ILLEGAL, Operand::Absent, Operand::Absent, 1, 4),
    }
}

/// Rows `0x00..=0x3F` of the second table: rotates and shifts.
#[verifier::rlimit(100)]
#[verifier::spinoff_prover]
fn prefixed_rows_00_3f(opcode: u8) -> (row: Instruction)
    requires
        0 <= opcode < 0 + 64,
    ensures
        row == prefixed_instruction_at(opcode),
{
    reveal(prefixed_instruction_at);
    match opcode {
        0x00 => fixed(Mnemonic::RLC, Operand::B, Operand::Absent, 1, 4),
        0x01 => fixed(Mnemonic::RLC, Operand::C, Operand::Absent, 1, 4),
        0x02 => fixed(Mnemonic::RLC, Operand::D, Operand::Absent, 1, 4),
        0x03 => fixed(Mnemonic::RLC, Operand::E, Operand::Absent, 1, 4),
        0x04 => fixed(Mnemonic::RLC, Operand::H, Operand::Absent, 1, 4),
        0x05 => fixed(Mnemonic::RLC, Operand::L, Operand::Absent, 1, 4),
        0x06 => fixed(Mnemonic::RLC, Operand::MemHL, Operand::Absent, 1, 12),
        0x07 => fixed(Mnemonic::RLC, Operand::A, Operand::Absent, 1, 4),
        0x08 => fixed(Mnemonic::RRC, Operand::B, Operand::Absent, 1, 4),
        0x09 => fixed(Mnemonic::RRC, Operand::C, Operand::Absent, 1, 4),
        0x0A => fixed(Mnemonic::RRC, Operand::D, Operand::Absent, 1, 4),
        0x0B => fixed(Mnemonic::RRC, Operand::E, Operand::Absent, 1, 4),
        0x0C => fixed(Mnemonic::RRC, Operand::H, Operand::Absent, 1, 4),
        0x0D => fixed(Mnemonic::RRC, Operand::L, Operand::Absent, 1, 4),
        0x0E => fixed(Mnemonic::RRC, Operand::MemHL, Operand::Absent, 1, 12),
        0x0F => fixed(Mnemonic::RRC, Operand::A, Operand::Absent, 1, 4),
        0x10 => fixed(Mnemonic::RL, Operand::B, Operand::Absent, 1, 4),
        0x11 => fixed(Mnemonic::RL, Operand::C, Operand::Absent, 1, 4),
        0x12 => fixed(Mnemonic::RL, Operand::D, Operand::Absent, 1, 4),
        0x13 => fixed(Mnemonic::RL, Operand::E, Operand::Absent, 1, 4),
        0x14 => fixed(Mnemonic::RL, Operand::H, Operand::Absent, 1, 4),
        0x15 => fixed(Mnemonic::RL, Operand::L, Operand::Absent, 1, 4),
        0x16 => fixed(Mnemonic::RL, Operand::MemHL, Operand::Absent, 1, 12),
        0x17 => fixed(Mnemonic::RL, Operand::A, Operand::Absent, 1, 4),
        0x18 => fixed(Mnemonic::RR, Operand::B, Operand::Absent, 1, 4),
        0x19 => fixed(Mnemonic::RR, Operand::C, Operand::Absent, 1, 4),
        0x1A => fixed(Mnemonic::RR, Operand::D, Operand::Absent, 1, 4),
        0x1B => fixed(Mnemonic::RR, Operand::E, Operand::Absent, 1, 4),
        0x1C => fixed(Mnemonic::RR, Operand::H, Operand::Absent, 1, 4),
        0x1D => fixed(Mnemonic::RR, Operand::L, Operand::Absent, 1, 4),
        0x1E => fixed(Mnemonic::RR, Operand::MemHL, Operand::Absent, 1, 12),
        0x1F => fixed(Mnemonic::RR, Operand::A, Operand::Absent, 1, 4),
        0x20 => fixed(Mnemonic::SLA, Operand::B, Operand::Absent, 1, 4),
        0x21 => fixed(Mnemonic::SLA, Operand::C, Operand::Absent, 1, 4),
        0x22 => fixed(Mnemonic::SLA, Operand::D, Operand::Absent, 1, 4),
        0x23 => fixed(Mnemonic::SLA, Operand::E, Operand::Absent, 1, 4),
        0x24 => fixed(Mnemonic::SLA, Operand::H, Operand::Absent, 1, 4),
        0x25 => fixed(Mnemonic::SLA, Operand::L, Operand::Absent, 1, 4),
        0x26 => fixed(Mnemonic::SLA, Operand::MemHL, Operand::Absent, 1, 12),
        0x27 => fixed(Mnemonic::SLA, Operand::A, Operand::Absent, 1, 4),
        0x28 => fixed(Mnemonic::SRA, Operand::B, Operand::Absent, 1, 4),
        0x29 => fixed(Mnemonic::SRA, Operand::C, Operand::Absent, 1, 4),
        0x2A => fixed(Mnemonic::SRA, Operand::D, Operand::Absent, 1, 4),
        0x2B => fixed(Mnemonic::SRA, Operand::E, Operand::Absent, 1, 4),
        0x2C => fixed(Mnemonic::SRA, Operand::H, Operand::Absent, 1, 4),
        0x2D => fixed(Mnemonic::SRA, Operand::L, Operand::Absent, 1, 4),
        0x2E => fixed(Mnemonic::SRA, Operand::MemHL, Operand::Absent, 1, 12),
        0x2F => fixed(Mnemonic::SRA, Operand::A, Operand::Absent, 1, 4),
        0x30 => fixed(Mnemonic::SWAP, Operand::B, Operand::Absent, 1, 4),
        0x31 => fixed(Mnemonic::SWAP, Operand::C, Operand::Absent, 1, 4),
        0x32 => fixed(Mnemonic::SWAP, Operand::D, Operand::Absent, 1, 4),
        0x33 => fixed(Mnemonic::SWAP, Operand::E, Operand::Absent, 1, 4),
        0x34 => fixed(Mnemonic::SWAP, Operand::H, Operand::Absent, 1, 4),
        0x35 => fixed(Mnemonic::SWAP, Operand::L, Operand::Absent, 1, 4),
        0x36 => fixed(Mnemonic::SWAP, Operand::MemHL, Operand::Absent, 1, 12),
        0x37 => fixed(Mnemonic::SWAP, Operand::A, Operand::Absent, 1, 4),
        0x38 => fixed(Mnemonic::SRL, Operand::B, Operand::Absent, 1, 4),
        0x39 => fixed(Mnemonic::SRL, Operand::C, Operand::Absent, 1, 4),
        0x3A => fixed(Mnemonic::SRL, Operand::D, Operand::Absent, 1, 4),
        0x3B => fixed(Mnemonic::SRL, Operand::E, Operand::Absent, 1, 4),
        0x3C => fixed(Mnemonic::SRL, Operand::H, Operand::Absent, 1, 4),
        0x3D => fixed(Mnemonic::SRL, Operand::L, Operand::Absent, 1, 4),
        0x3E => fixed(Mnemonic::SRL, Operand::MemHL, Operand::Absent, 1, 12),
        0x3F => fixed(Mnemonic::SRL, Operand::A, Operand::Absent, 1, 4),
        _ => fixed(Mnemonic::ILLEGAL, Operand::Absent, Operand::Absent, 1, 4),
    }
}

/// Rows `0x40..=0x7F` of the second table: bit tests.
#[verifier::rlimit(100)]
#[verifier::spinoff_prover]
fn prefixed_rows_40_7f(opcode: u8) -> (row: Instruction)
    requires
        64 <= opcode < 64 + 64,
    ensures
        row == prefixed_instruction_at(opcode),
{
    reveal(prefixed_instruction_at);
    match opcode {
        0x40 => fixed(Mnemonic::BIT, Operand::Bit(0), Operand::B, 1, 4),
        0x41 => fixed(Mnemonic::BIT, Operand::Bit(0), Operand::C, 1, 4),
        0x42 => fixed(Mnemonic::BIT, Operand::Bit(0), Operand::D, 1, 4),
        0x43 => fixed(Mnemonic::BIT, Operand::Bit(0), Operand::E, 1, 4),
        0x44 => fixed(Mnemonic::BIT, Operand::Bit(0), Operand::H, 1, 4),
        0x45 => fixed(Mnemonic::BIT, Operand::Bit(0), Operand::L, 1, 4),
        0x46 => fixed(Mnemonic::BIT, Operand::Bit(0), Operand::MemHL, 1, 8),
        0x47 => fixed(Mnemonic::BIT, Operand::Bit(0), Operand::A, 1, 4),
        0x48 => fixed(Mnemonic::BIT, Operand::Bit(1), Operand::B, 1, 4),
        0x49 => fixed(Mnemonic::BIT, Operand::Bit(1), Operand::C, 1, 4),
        0x4A => fixed(Mnemonic::BIT, Operand::Bit(1), Operand::D, 1, 4),
        0x4B => fixed(Mnemonic::BIT, Operand::Bit(1), Operand::E, 1, 4),
        0x4C => fixed(Mnemonic::BIT, Operand::Bit(1), Operand::H, 1, 4),
        0x4D => fixed(Mnemonic::BIT, Operand::Bit(1), Operand::L, 1, 4),
        0x4E => fixed(Mnemonic::BIT, Operand::Bit(1), Operand::MemHL, 1, 8),
        0x4F => fixed(Mnemonic::BIT, Operand::Bit(1), Operand::A, 1, 4),
        0x50 => fixed(Mnemonic::BIT, Operand::Bit(2), Operand::B, 1, 4),
        0x51 => fixed(Mnemonic::BIT, Operand::Bit(2), Operand::C, 1, 4),
        0x52 => fixed(Mnemonic::BIT, Operand::Bit(2), Operand::D, 1, 4),
        0x53 => fixed(Mnemonic::BIT, Operand::Bit(2), Operand::E, 1, 4),
        0x54 => fixed(Mnemonic::BIT, Operand::Bit(2), Operand::H, 1, 4),
        0x55 => fixed(Mnemonic::BIT, Operand::Bit(2), Operand::L, 1, 4),
        0x56 => fixed(Mnemonic::BIT, Operand::Bit(2), Operand::MemHL, 1, 8),
        0x57 => fixed(Mnemonic::BIT, Operand::Bit(2), Operand::A, 1, 4),
        0x58 => fixed(Mnemonic::BIT, Operand::Bit(3), Operand::B, 1, 4),
        0x59 => fixed(Mnemonic::BIT, Operand::Bit(3), Operand::C, 1, 4),
        0x5A => fixed(Mnemonic::BIT, Operand::Bit(3), Operand::D, 1, 4),
        0x5B => fixed(Mnemonic::BIT, Operand::Bit(3), Operand::E, 1, 4),
        0x5C => fixed(Mnemonic::BIT, Operand::Bit(3), Operand::H, 1, 4),
        0x5D => fixed(Mnemonic::BIT, Operand::Bit(3), Operand::L, 1, 4),
        0x5E => fixed(Mnemonic::BIT, Operand::Bit(3), Operand::MemHL, 1, 8),
        0x5F => fixed(Mnemonic::BIT, Operand::Bit(3), Operand::A, 1, 4),
        0x60 => fixed(Mnemonic::BIT, Operand::Bit(4), Operand::B, 1, 4),
        0x61 => fixed(Mnemonic::BIT, Operand::Bit(4), Operand::C, 1, 4),
        0x62 => fixed(Mnemonic::BIT, Operand::Bit(4), Operand::D, 1, 4),
        0x63 => fixed(Mnemonic::BIT, Operand::Bit(4), Operand::E, 1, 4),
        0x64 => fixed(Mnemonic::BIT, Operand::Bit(4), Operand::H, 1, 4),
        0x65 => fixed(Mnemonic::BIT, Operand::Bit(4), Operand::L, 1, 4),
        0x66 => fixed(Mnemonic::BIT, Operand::Bit(4), Operand::MemHL, 1, 8),
        0x67 => fixed(Mnemonic::BIT, Operand::Bit(4), Operand::A, 1, 4),
        0x68 => fixed(Mnemonic::BIT, Operand::Bit(5), Operand::B, 1, 4),
        0x69 => fixed(Mnemonic::BIT, Operand::Bit(5), Operand::C, 1, 4),
        0x6A => fixed(Mnemonic::BIT, Operand::Bit(5), Operand::D, 1, 4),
        0x6B => fixed(Mnemonic::BIT, Operand::Bit(5), Operand::E, 1, 4),
        0x6C => fixed(Mnemonic::BIT, Operand::Bit(5), Operand::H, 1, 4),
        0x6D => fixed(Mnemonic::BIT, Operand::Bit(5), Operand::L, 1, 4),
        0x6E => fixed(Mnemonic::BIT, Operand::Bit(5), Operand::MemHL, 1, 8),
        0x6F => fixed(Mnemonic::BIT, Operand::Bit(5), Operand::A, 1, 4),
        0x70 => fixed(Mnemonic::BIT, Operand::Bit(6), Operand::B, 1, 4),
        0x71 => fixed(Mnemonic::BIT, Operand::Bit(6), Operand::C, 1, 4),
        0x72 => fixed(Mnemonic::BIT, Operand::Bit(6), Operand::D, 1, 4),
        0x73 => fixed(Mnemonic::BIT, Operand::Bit(6), Operand::E, 1, 4),
        0x74 => fixed(Mnemonic::BIT, Operand::Bit(6), Operand::H, 1, 4),
        0x75 => fixed(Mnemonic::BIT, Operand::Bit(6), Operand::L, 1, 4),
        0x76 => fixed(Mnemonic::BIT, Operand::Bit(6), Operand::MemHL, 1, 8),
        0x77 => fixed(Mnemonic::BIT, Operand::Bit(6), Operand::A, 1, 4),
        0x78 => fixed(Mnemonic::BIT, Operand::Bit(7), Operand::B, 1, 4),
        0x79 => fixed(Mnemonic::BIT, Operand::Bit(7), Operand::C, 1, 4),
        0x7A => fixed(Mnemonic::BIT, Operand::Bit(7), Operand::D, 1, 4),
        0x7B => fixed(Mnemonic::BIT, Operand::Bit(7), Operand::E, 1, 4),
        0x7C => fixed(Mnemonic::BIT, Operand::Bit(7), Operand::H, 1, 4),
        0x7D => fixed(Mnemonic::BIT, Operand::Bit(7), Operand::L, 1, 4),
        0x7E => fixed(Mnemonic::BIT, Operand::Bit(7), Operand::MemHL, 1, 8),
        0x7F => fixed(Mnemonic::BIT, Operand::Bit(7), Operand::A, 1, 4),
        _ => fixed(Mnemonic::ILLEGAL, Operand::Absent, Operand::Absent, 1, 4),
    }
}

/// Rows `0x80..=0xBF` of the second table: bit resets.
#[verifier::rlimit(100)]
#[verifier::spinoff_prover]
fn prefixed_rows_80_bf(opcode: u8) -> (row: Instruction)
    requires
        128 <= opcode < 128 + 64,
    ensures
        row == prefixed_instruction_at(opcode),
{
    reveal(prefixed_instruction_at);
    match opcode {
        0x80 => fixed(Mnemonic::RES, Operand::Bit(0), Operand::B, 1, 4),
        0x81 => fixed(Mnemonic::RES, Operand::Bit(0), Operand::C, 1, 4),
        0x82 => fixed(Mnemonic::RES, Operand::Bit(0), Operand::D, 1, 4),
        0x83 => fixed(Mnemonic::RES, Operand::Bit(0), Operand::E, 1, 4),
        0x84 => fixed(Mnemonic::RES, Operand::Bit(0), Operand::H, 1, 4),
        0x85 => fixed(Mnemonic::RES, Operand::Bit(0), Operand::L, 1, 4),
        0x86 => fixed(Mnemonic::RES, Operand::Bit(0), Operand::MemHL, 1, 12),
        0x87 => fixed(Mnemonic::RES, Operand::Bit(0), Operand::A, 1, 4),
        0x88 => fixed(Mnemonic::RES, Operand::Bit(1), Operand::B, 1, 4),
        0x89 => fixed(Mnemonic::RES, Operand::Bit(1), Operand::C, 1, 4),
        0x8A => fixed(Mnemonic::RES, Operand::Bit(1), Operand::D, 1, 4),
        0x8B => fixed(Mnemonic::RES, Operand::Bit(1), Operand::E, 1, 4),
        0x8C => fixed(Mnemonic::RES, Operand::Bit(1), Operand::H, 1, 4),
        0x8D => fixed(Mnemonic::RES, Operand::Bit(1), Operand::L, 1, 4),
        0x8E => fixed(Mnemonic::RES, Operand::Bit(1), Operand::MemHL, 1, 12),
        0x8F => fixed(Mnemonic::RES, Operand::Bit(1), Operand::A, 1, 4),
        0x90 => fixed(Mnemonic::RES, Operand::Bit(2), Operand::B, 1, 4),
        0x91 => fixed(Mnemonic::RES, Operand::Bit(2), Operand::C, 1, 4),
        0x92 => fixed(Mnemonic::RES, Operand::Bit(2), Operand::D, 1, 4),
        0x93 => fixed(Mnemonic::RES, Operand::Bit(2), Operand::E, 1, 4),
        0x94 => fixed(Mnemonic::RES, Operand::Bit(2), Operand::H, 1, 4),
        0x95 => fixed(Mnemonic::RES, Operand::Bit(2), Operand::L, 1, 4),
        0x96 => fixed(Mnemonic::RES, Operand::Bit(2), Operand::MemHL, 1, 12),
        0x97 => fixed(Mnemonic::RES, Operand::Bit(2), Operand::A, 1, 4),
        0x98 => fixed(Mnemonic::RES, Operand::Bit(3), Operand::B, 1, 4),
        0x99 => fixed(Mnemonic::RES, Operand::Bit(3), Operand::C, 1, 4),
        0x9A => fixed(Mnemonic::RES, Operand::Bit(3), Operand::D, 1, 4),
        0x9B => fixed(Mnemonic::RES, Operand::Bit(3), Operand::E, 1, 4),
        0x9C => fixed(Mnemonic::RES, Operand::Bit(3), Operand::H, 1, 4),
        0x9D => fixed(Mnemonic::RES, Operand::Bit(3), Operand::L, 1, 4),
        0x9E => fixed(Mnemonic::RES, Operand::Bit(3), Operand::MemHL, 1, 12),
        0x9F => fixed(Mnemonic::RES, Operand::Bit(3), Operand::A, 1, 4),
        0xA0 => fixed(Mnemonic::RES, Operand::Bit(4), Operand::B, 1, 4),
        0xA1 => fixed(Mnemonic::RES, Operand::Bit(4), Operand::C, 1, 4),
        0xA2 => fixed(Mnemonic::RES, Operand::Bit(4), Operand::D, 1, 4),
        0xA3 => fixed(Mnemonic::RES, Operand::Bit(4), Operand::E, 1, 4),
        0xA4 => fixed(Mnemonic::RES, Operand::Bit(4), Operand::H, 1, 4),
        0xA5 => fixed(Mnemonic::RES, Operand::Bit(4), Operand::L, 1, 4),
        0xA6 => fixed(Mnemonic::RES, Operand::Bit(4), Operand::MemHL, 1, 12),
        0xA7 => fixed(Mnemonic::RES, Operand::Bit(4), Operand::A, 1, 4),
        0xA8 => fixed(Mnemonic::RES, Operand::Bit(5), Operand::B, 1, 4),
        0xA9 => fixed(Mnemonic::RES, Operand::Bit(5), Operand::C, 1, 4),
        0xAA => fixed(Mnemonic::RES, Operand::Bit(5), Operand::D, 1, 4),
        0xAB => fixed(Mnemonic::RES, Operand::Bit(5), Operand::E, 1, 4),
        0xAC => fixed(Mnemonic::RES, Operand::Bit(5), Operand::H, 1, 4),
        0xAD => fixed(Mnemonic::RES, Operand::Bit(5), Operand::L, 1, 4),
        0xAE => fixed(Mnemonic::RES, Operand::Bit(5), Operand::MemHL, 1, 12),
        0xAF => fixed(Mnemonic::RES, Operand::Bit(5), Operand::A, 1, 4),
        0xB0 => fixed(Mnemonic::RES, Operand::Bit(6), Operand::B, 1, 4),
        0xB1 => fixed(Mnemonic::RES, Operand::Bit(6), Operand::C, 1, 4),
        0xB2 => fixed(Mnemonic::RES, Operand::Bit(6), Operand::D, 1, 4),
        0xB3 => fixed(Mnemonic::RES, Operand::Bit(6), Operand::E, 1, 4),
        0xB4 => fixed(Mnemonic::RES, Operand::Bit(6), Operand::H, 1, 4),
        0xB5 => fixed(Mnemonic::RES, Operand::Bit(6), Operand::L, 1, 4),
        0xB6 => fixed(Mnemonic::RES, Operand::Bit(6), Operand::MemHL, 1, 12),
        0xB7 => fixed(Mnemonic::RES, Operand::Bit(6), Operand::A, 1, 4),
        0xB8 => fixed(Mnemonic::RES, Operand::Bit(7), Operand::B, 1, 4),
        0xB9 => fixed(Mnemonic::RES, Operand::Bit(7), Operand::C, 1, 4),
        0xBA => fixed(Mnemonic::RES, Operand::Bit(7), Operand::D, 1, 4),
        0xBB => fixed(Mnemonic::RES, Operand::Bit(7), Operand::E, 1, 4),
        0xBC => fixed(Mnemonic::RES, Operand::Bit(7), Operand::H, 1, 4),
        0xBD => fixed(Mnemonic::RES, Operand::Bit(7), Operand::L, 1, 4),
        0xBE => fixed(Mnemonic::RES, Operand::Bit(7), Operand::MemHL, 1, 12),
        0xBF => fixed(Mnemonic::RES, Operand::Bit(7), Operand::A, 1, 4),
        _ => fixed(Mnemonic::ILLEGAL, Operand::Absent, Operand::Absent, 1, 4),
    }
}

/// Rows `0xC0..=0xFF` of the second table: bit sets.
#[verifier::rlimit(100)]
#[verifier::spinoff_prover]
fn prefixed_rows_c0_ff(opcode: u8) -> (row: Instruction)
    requires
        192 <= opcode < 192 + 64,
    ensures
        row == prefixed_instruction_at(opcode),
{
    reveal(prefixed_instruction_at);
    match opcode {
        0xC0 => fixed(Mnemonic::SET, Operand::Bit(0), Operand::B, 1, 4),
        0xC1 => fixed(Mnemonic::SET, Operand::Bit(0), Operand::C, 1, 4),
        0xC2 => fixed(Mnemonic::SET, Operand::Bit(0), Operand::D, 1, 4),
        0xC3 => fixed(Mnemonic::SET, Operand::Bit(0), Operand::E, 1, 4),
        0xC4 => fixed(Mnemonic::SET, Operand::Bit(0), Operand::H, 1, 4),
        0xC5 => fixed(Mnemonic::SET, Operand::Bit(0), Operand::L, 1, 4),
        0xC6 => fixed(Mnemonic::SET, Operand::Bit(0), Operand::MemHL, 1, 12),
        0xC7 => fixed(Mnemonic::SET, Operand::Bit(0), Operand::A, 1, 4),
        0xC8 => fixed(Mnemonic::SET, Operand::Bit(1), Operand::B, 1, 4),
        0xC9 => fixed(Mnemonic::SET, Operand::Bit(1), Operand::C, 1, 4),
        0xCA => fixed(Mnemonic::SET, Operand::Bit(1), Operand::D, 1, 4),
        0xCB => fixed(Mnemonic::SET, Operand::Bit(1), Operand::E, 1, 4),
        0xCC => fixed(Mnemonic::SET, Operand::Bit(1), Operand::H, 1, 4),
        0xCD => fixed(Mnemonic::SET, Operand::Bit(1), Operand::L, 1, 4),
        0xCE => fixed(Mnemonic::SET, Operand::Bit(1), Operand::MemHL, 1, 12),
        0xCF => fixed(Mnemonic::SET, Operand::Bit(1), Operand::A, 1, 4),
        0xD0 => fixed(Mnemonic::SET, Operand::Bit(2), Operand::B, 1, 4),
        0xD1 => fixed(Mnemonic::SET, Operand::Bit(2), Operand::C, 1, 4),
        0xD2 => fixed(Mnemonic::SET, Operand::Bit(2), Operand::D, 1, 4),
        0xD3 => fixed(Mnemonic::SET, Operand::Bit(2), Operand::E, 1, 4),
        0xD4 => fixed(Mnemonic::SET, Operand::Bit(2), Operand::H, 1, 4),
        0xD5 => fixed(Mnemonic::SET, Operand::Bit(2), Operand::L, 1, 4),
        0xD6 => fixed(Mnemonic::SET, Operand::Bit(2), Operand::MemHL, 1, 12),
        0xD7 => fixed(Mnemonic::SET, Operand::Bit(2), Operand::A, 1, 4),
        0xD8 => fixed(Mnemonic::SET, Operand::Bit(3), Operand::B, 1, 4),
        0xD9 => fixed(Mnemonic::SET, Operand::Bit(3), Operand::C, 1, 4),
        0xDA => fixed(Mnemonic::SET, Operand::Bit(3), Operand::D, 1, 4),
        0xDB => fixed(Mnemonic::SET, Operand::Bit(3), Operand::E, 1, 4),
        0xDC => fixed(Mnemonic::SET, Operand::Bit(3), Operand::H, 1, 4),
        0xDD => fixed(Mnemonic::SET, Operand::Bit(3), Operand::L, 1, 4),
        0xDE => fixed(Mnemonic::SET, Operand::Bit(3), Operand::MemHL, 1, 12),
        0xDF => fixed(Mnemonic::SET, Operand::Bit(3), Operand::A, 1, 4),
        0xE0 => fixed(Mnemonic::SET, Operand::Bit(4), Operand::B, 1, 4),
        0xE1 => fixed(Mnemonic::SET, Operand::Bit(4), Operand::C, 1, 4),
        0xE2 => fixed(Mnemonic::SET, Operand::Bit(4), Operand::D, 1, 4),
        0xE3 => fixed(Mnemonic::SET, Operand::Bit(4), Operand::E, 1, 4),
        0xE4 => fixed(Mnemonic::SET, Operand::Bit(4), Operand::H, 1, 4),
        0xE5 => fixed(Mnemonic::SET, Operand::Bit(4), Operand::L, 1, 4),
        0xE6 => fixed(Mnemonic::SET, Operand::Bit(4), Operand::MemHL, 1, 12),
        0xE7 => fixed(Mnemonic::SET, Operand::Bit(4), Operand::A, 1, 4),
        0xE8 => fixed(Mnemonic::SET, Operand::Bit(5), Operand::B, 1, 4),
        0xE9 => fixed(Mnemonic::SET, Operand::Bit(5), Operand::C, 1, 4),
        0xEA => fixed(Mnemonic::SET, Operand::Bit(5), Operand::D, 1, 4),
        0xEB => fixed(Mnemonic::SET, Operand::Bit(5), Operand::E, 1, 4),
        0xEC => fixed(Mnemonic::SET, Operand::Bit(5), Operand::H, 1, 4),
        0xED => fixed(Mnemonic::SET, Operand::Bit(5), Operand::L, 1, 4),
        0xEE => fixed(Mnemonic::SET, Operand::Bit(5), Operand::MemHL, 1, 12),
        0xEF => fixed(Mnemonic::SET, Operand::Bit(5), Operand::A, 1, 4),
        0xF0 => fixed(Mnemonic::SET, Operand::Bit(6), Operand::B, 1, 4),
        0xF1 => fixed(Mnemonic::SET, Operand::Bit(6), Operand::C, 1, 4),
        0xF2 => fixed(Mnemonic::SET, Operand::Bit(6), Operand::D, 1, 4),
        0xF3 => fixed(Mnemonic::SET, Operand::Bit(6), Operand::E, 1, 4),
        0xF4 => fixed(Mnemonic::SET, Operand::Bit(6), Operand::H, 1, 4),
        0xF5 => fixed(Mnemonic::SET, Operand::Bit(6), Operand::L, 1, 4),
        0xF6 => fixed(Mnemonic::SET, Operand::Bit(6), Operand::MemHL, 1, 12),
        0xF7 => fixed(Mnemonic::SET, Operand::Bit(6), Operand::A, 1, 4),
        0xF8 => fixed(Mnemonic::SET, Operand::Bit(7), Operand::B, 1, 4),
        0xF9 => fixed(Mnemonic::SET, Operand::Bit(7), Operand::C, 1, 4),
        0xFA => fixed(Mnemonic::SET, Operand::Bit(7), Operand::D, 1, 4),
        0xFB => fixed(Mnemonic::SET, Operand::Bit(7), Operand::E, 1, 4),
        0xFC => fixed(Mnemonic::SET, Operand::Bit(7), Operand::H, 1, 4),
        0xFD => fixed(Mnemonic::SET, Operand::Bit(7), Operand::L, 1, 4),
        0xFE => fixed(Mnemonic::SET, Operand::Bit(7), Operand::MemHL, 1, 12),
        0xFF => fixed(Mnemonic::SET, Operand::Bit(7), Operand::A, 1, 4),
        _ => fixed(Mnemonic::ILLEGAL, Operand::Absent, Operand::Absent, 1, 4),
    }
}

/// Looks `opcode` up in the first table.
pub fn decode(opcode: u8) -> (row: Instruction)
    ensures
        row == instruction_at(opcode),
{
    if opcode < 0x40 {
        rows_00_3f(opcode)
    } else if opcode < 0x80 {
        rows_40_7f(opcode)
    } else if opcode < 0xC0 {
        rows_80_bf(opcode)
    } else {
        rows_c0_ff(opcode)
    }
}

/// Looks `opcode`, the byte after the prefix, up in the second table.
pub fn decode_prefixed(opcode: u8) -> (row: Instruction)
    ensures
        row == prefixed_instruction_at(opcode),
{
    if opcode < 0x40 {
        prefixed_rows_00_3f(opcode)
    } else if opcode < 0x80 {
        prefixed_rows_40_7f(opcode)
    } else if opcode < 0xC0 {
        prefixed_rows_80_bf(opcode)
    } else {
        prefixed_rows_c0_ff(opcode)
    }
}

/// What `instruction` costs, given whether its condition held.
pub fn cycles_of(instruction: &Instruction, taken: bool) -> (cycles: u8)
    ensures
        cycles == cycles_for(*instruction, taken),
{
    match instruction.cycles_not_taken {
        Some(not_taken) => if taken {
            instruction.cycles
        } else {
            not_taken
        },
        None => instruction.cycles,
    }
}

/// Every row of both tables is one to three bytes long and costs between 4
/// and 24 cycles, whether or not its condition holds; the prefix is one byte
/// of 4 cycles, and only jumps, calls and returns are conditional.
pub proof fn law_table_bounds(opcode: u8, taken: bool)
    ensures
        1 <= instruction_at(opcode).length <= 3,
        4 <= cycles_for(instruction_at(opcode), taken) <= 24,
        prefixed_instruction_at(opcode).length == 1,
        4 <= cycles_for(prefixed_instruction_at(opcode), taken) <= 12,
        instruction_at(opcode).mnemonic == Mnemonic::PREFIX ==> instruction_at(opcode).length == 1
            && instruction_at(opcode).cycles == 4 && instruction_at(opcode).cycles_not_taken
            is None,
        prefixed_instruction_at(opcode).cycles_not_taken is None,
        instruction_at(opcode).cycles_not_taken is Some ==> (instruction_at(opcode).mnemonic
            == Mnemonic::JR || instruction_at(opcode).mnemonic == Mnemonic::JP || instruction_at(
            opcode,
        ).mnemonic == Mnemonic::CALL || instruction_at(opcode).mnemonic == Mnemonic::RET),
{
    reveal(instruction_at);
    reveal(prefixed_instruction_at);
}

} // verus!
