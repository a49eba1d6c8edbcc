use crate::alu::{
    add16, add8, and8, bit_cleared, bit_raised, bit_test, daa, dec8, inc8, lemma_byte_bits,
    lemma_byte_joins, lemma_div_mod, lemma_word_bits, or8, pack, rl, rlc, rr, rrc, signed, sla,
    sra, srl, sub8, swap, unpack, xor8, AluOut, Flags,
};
use crate::databus::{BusView, DataBus};
use crate::instructions::Operand;
use vstd::prelude::*;

verus! {

/// Address of the interrupt request register.
pub const IF_ADDRESS: u16 = 0xFF0F;

/// Address of the interrupt enable register.
pub const IE_ADDRESS: u16 = 0xFFFF;

/// What accepting an interrupt costs.
pub const DISPATCH_CYCLES: u8 = 20;

/// The processor: eight byte registers, the stack pointer, the program
/// counter and the interrupt latches.
#[derive(Clone, Copy, PartialEq, Eq, Structural, Debug)]
pub struct Cpu {
    pub A: u8,
    pub B: u8,
    pub C: u8,
    pub D: u8,
    pub E: u8,
    pub H: u8,
    pub L: u8,
    /// The flags, in the high nibble: zero, subtract, half-carry, carry.
    pub F: u8,
    /// The interrupt master enable.
    pub IME: bool,
    /// Set by the enable instruction: the master enable rises when the next
    /// instruction starts, so that no interrupt is taken in between.
    pub IME_pending: bool,
    pub is_halted: bool,
    pub sp: u16,
    pub pc: u16,
    /// How many undefined opcodes have been run, up to `u32::MAX`.
    pub decode_faults: u32,
}

/// The processor and the bus together.
pub struct Machine {
    pub cpu: Cpu,
    pub bus: BusView,
}

/// `x` modulo 65536.
pub open spec fn wrap16(x: int) -> u16 {
    (x % 65536) as u16
}

/// The word with the given high and low bytes.
pub open spec fn word(high: u8, low: u8) -> u16 {
    (high * 256 + low) as u16
}

/// The high byte of a word.
pub open spec fn high_byte(w: u16) -> u8 {
    (w / 256) as u8
}

/// The low byte of a word.
pub open spec fn low_byte(w: u16) -> u8 {
    (w % 256) as u8
}

/// Whether the operand is one of the four 16-bit registers of arithmetic.
pub open spec fn is_pair(operand: Operand) -> bool {
    operand == Operand::BC || operand == Operand::DE || operand == Operand::HL || operand
        == Operand::SP
}

/// The bit number that an operand names; 0 where it names none.
pub open spec fn bit_index(operand: Operand) -> u8 {
    match operand {
        Operand::Bit(index) => if index < 8 {
            index
        } else {
            0
        },
        _ => 0,
    }
}

/// The state at power-on, as the start-up program leaves it.
pub open spec fn power_on_cpu() -> Cpu {
    Cpu {
        A: 0x01,
        B: 0x00,
        C: 0x13,
        D: 0x00,
        E: 0xD8,
        H: 0x01,
        L: 0x4D,
        F: 0xB0,
        IME: false,
        IME_pending: false,
        is_halted: false,
        sp: 0xFFFE,
        pc: 0x0100,
        decode_faults: 0,
    }
}

impl Cpu {
    /// The four flags.
    pub open spec fn flags(self) -> Flags {
        unpack(self.F)
    }

    /// The state with the flags replaced; the low nibble of F becomes zero.
    pub open spec fn with_flags(self, flags: Flags) -> Cpu {
        Cpu { F: pack(flags), ..self }
    }

    /// The state with A and the flags replaced by a result.
    pub open spec fn with_result(self, out: AluOut) -> Cpu {
        Cpu { A: out.value, F: pack(out.flags), ..self }
    }

    /// The register pair HL: H is the high byte.
    pub open spec fn hl(self) -> u16 {
        word(self.H, self.L)
    }

    /// The register pair DE: D is the high byte.
    pub open spec fn de(self) -> u16 {
        word(self.D, self.E)
    }

    /// The register pair BC: B is the high byte.
    pub open spec fn bc(self) -> u16 {
        word(self.B, self.C)
    }

    /// The register pair AF: A is the high byte, the flags the low one.
    pub open spec fn af(self) -> u16 {
        word(self.A, self.F)
    }

    /// The byte after the opcode.
    pub open spec fn immediate8(self, bus: BusView) -> u8 {
        bus.read(wrap16(self.pc + 1))
    }

    /// The word after the opcode, low byte first.
    pub open spec fn immediate16(self, bus: BusView) -> u16 {
        word(bus.read(wrap16(self.pc + 2)), bus.read(wrap16(self.pc + 1)))
    }

    /// The address that a memory operand names; 0 for any other operand.
    pub open spec fn operand_address(self, bus: BusView, operand: Operand) -> u16 {
        match operand {
            Operand::MemHL => self.hl(),
            Operand::MemHLInc => self.hl(),
            Operand::MemHLDec => self.hl(),
            Operand::MemBC => self.bc(),
            Operand::MemDE => self.de(),
            Operand::MemC => (0xFF00 + self.C) as u16,
            Operand::MemA8 => (0xFF00 + self.immediate8(bus)) as u16,
            Operand::MemA16 => self.immediate16(bus),
            _ => 0,
        }
    }

    /// The value of an 8-bit operand: a register, the immediate byte, or the
    /// byte read at the operand's address.
    pub open spec fn operand8(self, bus: BusView, operand: Operand) -> u8 {
        match operand {
            Operand::A => self.A,
            Operand::B => self.B,
            Operand::C => self.C,
            Operand::D => self.D,
            Operand::E => self.E,
            Operand::H => self.H,
            Operand::L => self.L,
            Operand::N8 => self.immediate8(bus),
            Operand::MemHL => bus.read(self.operand_address(bus, operand)),
            Operand::MemHLInc => bus.read(self.operand_address(bus, operand)),
            Operand::MemHLDec => bus.read(self.operand_address(bus, operand)),
            Operand::MemBC => bus.read(self.operand_address(bus, operand)),
            Operand::MemDE => bus.read(self.operand_address(bus, operand)),
            Operand::MemC => bus.read(self.operand_address(bus, operand)),
            Operand::MemA8 => bus.read(self.operand_address(bus, operand)),
            Operand::MemA16 => bus.read(self.operand_address(bus, operand)),
            _ => 0,
        }
    }

    /// The machine after `value` is stored into an 8-bit operand: into a
    /// register, or through the bus at the operand's address.
    pub open spec fn with_operand8(self, bus: BusView, operand: Operand, value: u8) -> Machine {
        match operand {
            Operand::A => Machine { cpu: Cpu { A: value, ..self }, bus },
            Operand::B => Machine { cpu: Cpu { B: value, ..self }, bus },
            Operand::C => Machine { cpu: Cpu { C: value, ..self }, bus },
            Operand::D => Machine { cpu: Cpu { D: value, ..self }, bus },
            Operand::E => Machine { cpu: Cpu { E: value, ..self }, bus },
            Operand::H => Machine { cpu: Cpu { H: value, ..self }, bus },
            Operand::L => Machine { cpu: Cpu { L: value, ..self }, bus },
            Operand::MemHL => Machine {
                cpu: self,
                bus: bus.write(value, self.operand_address(bus, operand)),
            },
            Operand::MemHLInc => Machine {
                cpu: self,
                bus: bus.write(value, self.operand_address(bus, operand)),
            },
            Operand::MemHLDec => Machine {
                cpu: self,
                bus: bus.write(value, self.operand_address(bus, operand)),
            },
            Operand::MemBC => Machine {
                cpu: self,
                bus: bus.write(value, self.operand_address(bus, operand)),
            },
            Operand::MemDE => Machine {
                cpu: self,
                bus: bus.write(value, self.operand_address(bus, operand)),
            },
            Operand::MemC => Machine {
                cpu: self,
                bus: bus.write(value, self.operand_address(bus, operand)),
            },
            Operand::MemA8 => Machine {
                cpu: self,
                bus: bus.write(value, self.operand_address(bus, operand)),
            },
            Operand::MemA16 => Machine {
                cpu: self,
                bus: bus.write(value, self.operand_address(bus, operand)),
            },
            _ => Machine { cpu: self, bus },
        }
    }

    /// The state with HL replaced.
    pub open spec fn with_hl(self, value: u16) -> Cpu {
        Cpu { H: high_byte(value), L: low_byte(value), ..self }
    }

    /// The state after an operand was used: HL moves by one for the two
    /// operands that ask for it.
    pub open spec fn after_access(self, operand: Operand) -> Cpu {
        match operand {
            Operand::MemHLInc => self.with_hl(wrap16(self.hl() + 1)),
            Operand::MemHLDec => self.with_hl(wrap16(self.hl() - 1)),
            _ => self,
        }
    }

    /// The value of a 16-bit operand: a register pair, or the immediate word.
    pub open spec fn operand16(self, bus: BusView, operand: Operand) -> u16 {
        match operand {
            Operand::BC => self.bc(),
            Operand::DE => self.de(),
            Operand::HL => self.hl(),
            Operand::AF => self.af(),
            Operand::SP => self.sp,
            Operand::N16 => self.immediate16(bus),
            Operand::A16 => self.immediate16(bus),
            _ => 0,
        }
    }

    /// The state after `value` is stored into a register pair; the low
    /// nibble of F stays zero.
    pub open spec fn with_operand16(self, operand: Operand, value: u16) -> Cpu {
        match operand {
            Operand::BC => Cpu { B: high_byte(value), C: low_byte(value), ..self },
            Operand::DE => Cpu { D: high_byte(value), E: low_byte(value), ..self },
            Operand::HL => self.with_hl(value),
            Operand::AF => Cpu {
                A: high_byte(value),
                F: (low_byte(value) / 16 * 16) as u8,
                ..self
            },
            Operand::SP => Cpu { sp: value, ..self },
            _ => self,
        }
    }

    /// Whether the condition that an operand names holds; an operand that
    /// names none holds always.
    pub open spec fn condition_holds(self, operand: Operand) -> bool {
        match operand {
            Operand::CondZ => self.flags().z,
            Operand::CondNZ => !self.flags().z,
            Operand::CondC => self.flags().c,
            Operand::CondNC => !self.flags().c,
            _ => true,
        }
    }

    /// The machine after `value` is pushed: its high byte goes to `sp - 1`,
    /// its low byte to `sp - 2`, and the stack pointer drops by two.
    pub open spec fn push(self, bus: BusView, value: u16) -> Machine {
        Machine {
            cpu: Cpu { sp: wrap16(self.sp - 2), ..self },
            bus: bus.write(high_byte(value), wrap16(self.sp - 1)).write(
                low_byte(value),
                wrap16(self.sp - 2),
            ),
        }
    }

    /// The word on top of the stack: its low byte at `sp`, its high byte at
    /// `sp + 1`.
    pub open spec fn stack_top(self, bus: BusView) -> u16 {
        word(bus.read(wrap16(self.sp + 1)), bus.read(self.sp))
    }

    /// The state after a word is popped.
    pub open spec fn popped(self) -> Cpu {
        Cpu { sp: wrap16(self.sp + 2), ..self }
    }

    /// The state after a call of `target` from a three-byte instruction.
    pub open spec fn call(self, bus: BusView, target: u16) -> Machine {
        let pushed = self.push(bus, wrap16(self.pc + 3));
        Machine { cpu: Cpu { pc: target, ..pushed.cpu }, bus: pushed.bus }
    }

    /// The processor at power-on.
    pub fn new() -> (cpu: Cpu)
        ensures
            cpu == power_on_cpu(),
    {
        Cpu {
            A: 0x01,
            B: 0x00,
            C: 0x13,
            D: 0x00,
            E: 0xD8,
            H: 0x01,
            L: 0x4D,
            F: 0xB0,
            IME: false,
            IME_pending: false,
            is_halted: false,
            sp: 0xFFFE,
            pc: 0x0100,
            decode_faults: 0,
        }
    }

    /// Replaces the four flags; the low nibble of F becomes zero.
    pub fn set_flags(&mut self, z: bool, n: bool, h: bool, c: bool)
        ensures
            *final(self) == old(self).with_flags(Flags { z, n, h, c }),
    {
        let mut f: u8 = 0;
        if z {
            f = f + 0x80;
        }
        if n {
            f = f + 0x40;
        }
        if h {
            f = f + 0x20;
        }
        if c {
            f = f + 0x10;
        }
        self.F = f;
    }

    /// The zero flag.
    pub fn get_z(&self) -> (set: bool)
        ensures
            set == self.flags().z,
    {
        proof {
            lemma_byte_bits(self.F);
        }
        (self.F & 0b1000_0000) != 0
    }

    /// The subtract flag.
    pub fn get_n(&self) -> (set: bool)
        ensures
            set == self.flags().n,
    {
        proof {
            lemma_byte_bits(self.F);
        }
        (self.F & 0b0100_0000) != 0
    }

    /// The half-carry flag.
    pub fn get_h(&self) -> (set: bool)
        ensures
            set == self.flags().h,
    {
        proof {
            lemma_byte_bits(self.F);
        }
        (self.F & 0b0010_0000) != 0
    }

    /// The carry flag.
    pub fn get_c(&self) -> (set: bool)
        ensures
            set == self.flags().c,
    {
        proof {
            lemma_byte_bits(self.F);
        }
        (self.F & 0b0001_0000) != 0
    }

    /// Sets the zero flag to `value`; the low nibble of F becomes zero.
    pub fn set_z_to(&mut self, value: bool)
        ensures
            *final(self) == old(self).with_flags(Flags { z: value, ..old(self).flags() }),
    {
        let n = self.get_n();
        let h = self.get_h();
        let c = self.get_c();
        self.set_flags(value, n, h, c);
    }

    /// Sets the subtract flag to `value`; the low nibble of F becomes zero.
    pub fn set_n_to(&mut self, value: bool)
        ensures
            *final(self) == old(self).with_flags(Flags { n: value, ..old(self).flags() }),
    {
        let z = self.get_z();
        let h = self.get_h();
        let c = self.get_c();
        self.set_flags(z, value, h, c);
    }

    /// Sets the half-carry flag to `value`; the low nibble of F becomes zero.
    pub fn set_h_to(&mut self, value: bool)
        ensures
            *final(self) == old(self).with_flags(Flags { h: value, ..old(self).flags() }),
    {
        let z = self.get_z();
        let n = self.get_n();
        let c = self.get_c();
        self.set_flags(z, n, value, c);
    }

    /// Sets the carry flag to `value`; the low nibble of F becomes zero.
    pub fn set_c_to(&mut self, value: bool)
        ensures
            *final(self) == old(self).with_flags(Flags { c: value, ..old(self).flags() }),
    {
        let z = self.get_z();
        let n = self.get_n();
        let h = self.get_h();
        self.set_flags(z, n, h, value);
    }

    /// Inverts the zero flag; the low nibble of F becomes zero.
    pub fn flip_z(&mut self)
        ensures
            *final(self) == old(self).with_flags(
                Flags { z: !old(self).flags().z, ..old(self).flags() },
            ),
    {
        let z = self.get_z();
        self.set_z_to(!z);
    }

    /// Inverts the subtract flag; the low nibble of F becomes zero.
    pub fn flip_n(&mut self)
        ensures
            *final(self) == old(self).with_flags(
                Flags { n: !old(self).flags().n, ..old(self).flags() },
            ),
    {
        let n = self.get_n();
        self.set_n_to(!n);
    }

    /// Inverts the half-carry flag; the low nibble of F becomes zero.
    pub fn flip_h(&mut self)
        ensures
            *final(self) == old(self).with_flags(
                Flags { h: !old(self).flags().h, ..old(self).flags() },
            ),
    {
        let h = self.get_h();
        self.set_h_to(!h);
    }

    /// Inverts the carry flag; the low nibble of F becomes zero.
    pub fn flip_c(&mut self)
        ensures
            *final(self) == old(self).with_flags(
                Flags { c: !old(self).flags().c, ..old(self).flags() },
            ),
    {
        let c = self.get_c();
        self.set_c_to(!c);
    }

    /// The register pair HL.
    pub fn get_HL(&self) -> (value: u16)
        ensures
            value == self.hl(),
    {
        join(self.H, self.L)
    }

    /// The register pair DE.
    pub fn get_DE(&self) -> (value: u16)
        ensures
            value == self.de(),
    {
        join(self.D, self.E)
    }

    /// The register pair BC.
    pub fn get_BC(&self) -> (value: u16)
        ensures
            value == self.bc(),
    {
        join(self.B, self.C)
    }

    /// The register pair AF.
    pub fn get_AF(&self) -> (value: u16)
        ensures
            value == self.af(),
    {
        join(self.A, self.F)
    }

    /// The immediate byte.
    pub fn get_n8(&self, bus: &DataBus) -> (value: u8)
        requires
            bus.wf(),
        ensures
            value == self.immediate8(bus@),
    {
        bus.read_memory(self.pc.wrapping_add(1))
    }

    /// The immediate byte as a signed offset.
    pub fn get_e8(&self, bus: &DataBus) -> (value: i8)
        requires
            bus.wf(),
        ensures
            value == signed(self.immediate8(bus@)),
    {
        let raw: u8 = self.get_n8(bus);
        if raw < 128 {
            raw as i8
        } else {
            (raw as i16 - 256) as i8
        }
    }

    /// The two immediate bytes, high byte first.
    pub fn get_n16_bytes(&self, bus: &DataBus) -> (bytes: [u8; 2])
        requires
            bus.wf(),
        ensures
            bytes@.len() == 2,
            bytes@[0] == bus@.read(wrap16(self.pc + 2)),
            bytes@[1] == bus@.read(wrap16(self.pc + 1)),
    {
        let high: u8 = bus.read_memory(self.pc.wrapping_add(2));
        let low: u8 = bus.read_memory(self.pc.wrapping_add(1));
        [high, low]
    }

    /// The immediate word.
    pub fn get_n16(&self, bus: &DataBus) -> (value: u16)
        requires
            bus.wf(),
        ensures
            value == self.immediate16(bus@),
    {
        let high: u8 = bus.read_memory(self.pc.wrapping_add(2));
        let low: u8 = bus.read_memory(self.pc.wrapping_add(1));
        join(high, low)
    }

    /// The immediate address.
    pub fn get_a16(&self, bus: &DataBus) -> (value: u16)
        requires
            bus.wf(),
        ensures
            value == self.immediate16(bus@),
    {
        self.get_n16(bus)
    }

    /// Stores a result and its flags.
    fn store(&mut self, out: AluOut)
        ensures
            *final(self) == old(self).with_result(out),
    {
        self.A = out.value;
        self.store_flags(out.flags);
    }

    /// Replaces the four flags; the low nibble of F becomes zero.
    pub fn store_flags(&mut self, flags: Flags)
        ensures
            *final(self) == old(self).with_flags(flags),
    {
        self.set_flags(flags.z, flags.n, flags.h, flags.c);
    }

    /// A plus `addition_byte` plus the carry.
    pub fn ADC(&mut self, addition_byte: u8)
        ensures
            *final(self) == old(self).with_result(
                add8(old(self).A, addition_byte, old(self).flags().c),
            ),
    {
        let carry = self.get_c();
        self.store(sum_of(self.A, addition_byte, carry));
    }

    /// A plus `rhs`.
    pub fn ADD(&mut self, rhs: u8)
        ensures
            *final(self) == old(self).with_result(add8(old(self).A, rhs, false)),
    {
        self.store(sum_of(self.A, rhs, false));
    }

    /// HL plus `rhs`; the zero flag keeps its value.
    pub fn ADD_16bit(&mut self, rhs: u16)
        ensures
            *final(self) == old(self).with_hl(
                add16(old(self).hl(), rhs, old(self).flags().z).value,
            ).with_flags(add16(old(self).hl(), rhs, old(self).flags().z).flags),
    {
        let hl: u16 = self.get_HL();
        let z = self.get_z();
        let result: u16 = hl.wrapping_add(rhs);
        proof {
            lemma_word_bits(hl, 0, 0);
            lemma_word_bits(rhs, 0, 0);
            lemma_word_bits(result, 0, 0);
            let wrapped: int = if hl + rhs > 0xFFFF { 1 } else { 0 };
            lemma_div_mod(hl + rhs, 65536, wrapped, result as int);
        }
        let half = (hl & 0x0FFF) + (rhs & 0x0FFF) > 0x0FFF;
        let carry = hl > 0xFFFF - rhs;
        self.H = (result >> 8) as u8;
        self.L = (result & 0xFF) as u8;
        self.set_flags(z, false, half, carry);
    }

    /// A and `rhs`.
    pub fn AND(&mut self, rhs: u8)
        ensures
            *final(self) == old(self).with_result(and8(old(self).A, rhs)),
    {
        let result: u8 = self.A & rhs;
        self.A = result;
        self.set_flags(result == 0, false, true, false);
    }

    /// A compared with `rhs`: the flags of the subtraction, A unchanged.
    pub fn CP(&mut self, rhs: u8)
        ensures
            *final(self) == old(self).with_flags(sub8(old(self).A, rhs, false).flags),
    {
        self.store_flags(difference_of(self.A, rhs, false).flags);
    }

    /// Decimal adjustment of A.
    pub fn DAA(&mut self)
        ensures
            *final(self) == old(self).with_result(daa(old(self).A, old(self).flags())),
    {
        let a: u8 = self.A;
        let carry = self.get_c();
        let half = self.get_h();
        let subtract = self.get_n();
        proof {
            lemma_byte_bits(a);
        }
        let mut offset: u8 = 0;
        let mut carry_out = carry;
        if half || (!subtract && (a & 0x0F) > 0x09) {
            offset = offset + 0x06;
        }
        if carry || (!subtract && a > 0x99) {
            offset = offset + 0x60;
            carry_out = true;
        }
        let result: u8 = if subtract {
            a.wrapping_sub(offset)
        } else {
            a.wrapping_add(offset)
        };
        proof {
            if subtract {
                let wrapped: int = if a < offset { -1 } else { 0 };
                lemma_div_mod(a - offset, 256, wrapped, result as int);
            } else {
                let wrapped: int = if a + offset > 255 { 1 } else { 0 };
                lemma_div_mod(a + offset, 256, wrapped, result as int);
            }
        }
        self.A = result;
        self.set_flags(result == 0, subtract, false, carry_out);
    }

    /// `lhs` minus one; the carry flag keeps its value.
    pub fn DEC(&mut self, lhs: u8) -> (result: u8)
        ensures
            result == dec8(lhs, old(self).flags().c).value,
            *final(self) == old(self).with_flags(dec8(lhs, old(self).flags().c).flags),
    {
        let carry = self.get_c();
        let result: u8 = lhs.wrapping_sub(1);
        proof {
            lemma_byte_bits(lhs);
        }
        self.set_flags(result == 0, true, lhs & 0x0F == 0, carry);
        result
    }

    /// `lhs` minus one, modulo 65536; no flag changes.
    pub fn DEC_16bit(&mut self, lhs: u16) -> (result: u16)
        ensures
            result == wrap16(lhs - 1),
            *final(self) == *old(self),
    {
        lhs.wrapping_sub(1)
    }

    /// `lhs` plus one; the carry flag keeps its value.
    pub fn INC(&mut self, lhs: u8) -> (result: u8)
        ensures
            result == inc8(lhs, old(self).flags().c).value,
            *final(self) == old(self).with_flags(inc8(lhs, old(self).flags().c).flags),
    {
        let carry = self.get_c();
        let result: u8 = lhs.wrapping_add(1);
        proof {
            lemma_byte_bits(lhs);
        }
        self.set_flags(result == 0, false, lhs & 0x0F == 0x0F, carry);
        result
    }

    /// `lhs` plus one, modulo 65536; no flag changes.
    pub fn INC_16bit(&mut self, lhs: u16) -> (result: u16)
        ensures
            result == wrap16(lhs + 1),
            *final(self) == *old(self),
    {
        lhs.wrapping_add(1)
    }

    /// A or `rhs`: the result is returned, the flags are set, A is left to
    /// the caller.
    pub fn OR(&mut self, rhs: u8) -> (result: u8)
        ensures
            result == or8(old(self).A, rhs).value,
            *final(self) == old(self).with_flags(or8(old(self).A, rhs).flags),
    {
        let result: u8 = self.A | rhs;
        self.set_flags(result == 0, false, false, false);
        result
    }

    /// A exclusive-or `rhs`: the result is returned, the flags are set, A is
    /// left to the caller.
    pub fn XOR(&mut self, rhs: u8) -> (result: u8)
        ensures
            result == xor8(old(self).A, rhs).value,
            *final(self) == old(self).with_flags(xor8(old(self).A, rhs).flags),
    {
        let result: u8 = self.A ^ rhs;
        self.set_flags(result == 0, false, false, false);
        result
    }

    /// A minus `rhs` minus the carry: the result is returned, the flags are
    /// set, A is left to the caller.
    pub fn SBC(&mut self, rhs: u8) -> (result: u8)
        ensures
            result == sub8(old(self).A, rhs, old(self).flags().c).value,
            *final(self) == old(self).with_flags(
                sub8(old(self).A, rhs, old(self).flags().c).flags,
            ),
    {
        let carry = self.get_c();
        let out = difference_of(self.A, rhs, carry);
        self.store_flags(out.flags);
        out.value
    }

    /// A minus `rhs`: the result is returned, the flags are set, A is left
    /// to the caller.
    pub fn SUB(&mut self, rhs: u8) -> (result: u8)
        ensures
            result == sub8(old(self).A, rhs, false).value,
            *final(self) == old(self).with_flags(sub8(old(self).A, rhs, false).flags),
    {
        let out = difference_of(self.A, rhs, false);
        self.store_flags(out.flags);
        out.value
    }

    /// Pushes `rhs` onto the stack.
    pub fn PUSH(&mut self, bus: &mut DataBus, rhs: u16)
        requires
            old(bus).wf(),
        ensures
            final(bus).wf(),
            (Machine { cpu: *final(self), bus: final(bus)@ }) == old(self).push(old(bus)@, rhs),
    {
        proof {
            lemma_word_bits(rhs, 0, 0);
        }
        self.sp = self.sp.wrapping_sub(1);
        bus.write_memory((rhs >> 8) as u8, self.sp);
        self.sp = self.sp.wrapping_sub(1);
        bus.write_memory((rhs & 0xFF) as u8, self.sp);
    }

    /// Pops a word off the stack: its high byte and its low byte.
    pub fn POP(&mut self, bus: &DataBus) -> (bytes: (u8, u8))
        requires
            bus.wf(),
        ensures
            *final(self) == old(self).popped(),
            word(bytes.0, bytes.1) == old(self).stack_top(bus@),
            bytes.0 == bus@.read(wrap16(old(self).sp + 1)),
            bytes.1 == bus@.read(old(self).sp),
    {
        let lsb: u8 = bus.read_memory(self.sp);
        self.sp = self.sp.wrapping_add(1);
        let msb: u8 = bus.read_memory(self.sp);
        self.sp = self.sp.wrapping_add(1);
        (msb, lsb)
    }

    /// Pushes the address of the instruction after a three-byte call and
    /// jumps to `a16`.
    pub fn CALL(&mut self, bus: &mut DataBus, a16: u16)
        requires
            old(bus).wf(),
        ensures
            final(bus).wf(),
            (Machine { cpu: *final(self), bus: final(bus)@ }) == old(self).call(old(bus)@, a16),
    {
        let next: u16 = self.pc.wrapping_add(3);
        self.PUSH(bus, next);
        self.pc = a16;
    }

    /// Tests bit `affected_bit` of `rhs`; the carry flag keeps its value.
    pub fn BIT(&mut self, affected_bit: u8, rhs: u8)
        requires
            affected_bit < 8,
        ensures
            *final(self) == old(self).with_flags(
                bit_test(affected_bit, rhs, old(self).flags().c),
            ),
    {
        let carry = self.get_c();
        let clear = (rhs >> affected_bit) & 1 != 1;
        self.set_flags(clear, false, true, carry);
    }

    /// `rhs` with bit `affected_bit` cleared; no flag changes.
    pub fn RES(&mut self, affected_bit: u8, rhs: u8) -> (result: u8)
        requires
            affected_bit < 8,
        ensures
            result == bit_cleared(affected_bit, rhs),
            *final(self) == *old(self),
    {
        rhs & !(1u8 << affected_bit)
    }

    /// `rhs` with bit `affected_bit` set; no flag changes.
    pub fn SET(&mut self, affected_bit: u8, rhs: u8) -> (result: u8)
        requires
            affected_bit < 8,
        ensures
            result == bit_raised(affected_bit, rhs),
            *final(self) == *old(self),
    {
        rhs | (1u8 << affected_bit)
    }

    /// `rhs` rotated left through the carry.
    pub fn RL(&mut self, rhs: u8) -> (result: u8)
        ensures
            result == rl(rhs, old(self).flags().c).value,
            *final(self) == old(self).with_flags(rl(rhs, old(self).flags().c).flags),
    {
        let carry = self.get_c();
        let low: u8 = if carry {
            1
        } else {
            0
        };
        proof {
            lemma_byte_bits(rhs);
            lemma_byte_joins(rhs, low);
        }
        let result: u8 = (rhs << 1) | low;
        self.set_flags(result == 0, false, false, (rhs & 0x80) != 0);
        result
    }

    /// `rhs` rotated left.
    pub fn RLC(&mut self, rhs: u8) -> (result: u8)
        ensures
            result == rlc(rhs).value,
            *final(self) == old(self).with_flags(rlc(rhs).flags),
    {
        proof {
            lemma_byte_bits(rhs);
            lemma_byte_joins(rhs, 0);
        }
        let result: u8 = (rhs << 1) | (rhs >> 7);
        self.set_flags(result == 0, false, false, (rhs & 0x80) != 0);
        result
    }

    /// `rhs` rotated right through the carry.
    pub fn RR(&mut self, rhs: u8) -> (result: u8)
        ensures
            result == rr(rhs, old(self).flags().c).value,
            *final(self) == old(self).with_flags(rr(rhs, old(self).flags().c).flags),
    {
        let carry = self.get_c();
        let low: u8 = if carry {
            1
        } else {
            0
        };
        proof {
            lemma_byte_bits(rhs);
            lemma_byte_joins(rhs, low);
        }
        let result: u8 = (rhs >> 1) | (low << 7);
        self.set_flags(result == 0, false, false, (rhs & 0x01) != 0);
        result
    }

    /// `rhs` rotated right.
    pub fn RRC(&mut self, rhs: u8) -> (result: u8)
        ensures
            result == rrc(rhs).value,
            *final(self) == old(self).with_flags(rrc(rhs).flags),
    {
        proof {
            lemma_byte_bits(rhs);
            lemma_byte_joins(rhs, 0);
        }
        let result: u8 = (rhs >> 1) | (rhs << 7);
        self.set_flags(result == 0, false, false, (rhs & 0x01) != 0);
        result
    }

    /// `rhs` shifted left.
    pub fn SLA(&mut self, rhs: u8) -> (result: u8)
        ensures
            result == sla(rhs).value,
            *final(self) == old(self).with_flags(sla(rhs).flags),
    {
        proof {
            lemma_byte_bits(rhs);
        }
        let result: u8 = rhs << 1;
        self.set_flags(result == 0, false, false, (rhs & 0x80) != 0);
        result
    }

    /// `rhs` shifted right, its top bit kept.
    pub fn SRA(&mut self, rhs: u8) -> (result: u8)
        ensures
            result == sra(rhs).value,
            *final(self) == old(self).with_flags(sra(rhs).flags),
    {
        proof {
            lemma_byte_bits(rhs);
            lemma_byte_joins(rhs, 0);
        }
        let result: u8 = (rhs >> 1) | (rhs & 0x80);
        self.set_flags(result == 0, false, false, (rhs & 0x01) != 0);
        result
    }

    /// `rhs` shifted right, its top bit cleared.
    pub fn SRL(&mut self, rhs: u8) -> (result: u8)
        ensures
            result == srl(rhs).value,
            *final(self) == old(self).with_flags(srl(rhs).flags),
    {
        proof {
            lemma_byte_bits(rhs);
        }
        let result: u8 = rhs >> 1;
        self.set_flags(result == 0, false, false, (rhs & 0x01) != 0);
        result
    }

    /// `rhs` with its nibbles exchanged.
    pub fn SWAP(&mut self, rhs: u8) -> (result: u8)
        ensures
            result == swap(rhs).value,
            *final(self) == old(self).with_flags(swap(rhs).flags),
    {
        proof {
            lemma_byte_bits(rhs);
            lemma_byte_joins(rhs, 0);
        }
        let result: u8 = (rhs << 4) | (rhs >> 4);
        self.set_flags(result == 0, false, false, false);
        result
    }
}

/// Whatever is stored into the flags through the flag setters or through a
/// pop into AF, the low nibble of F is zero afterwards.
pub proof fn law_low_nibble_of_flags(cpu: Cpu, flags: Flags, popped: u16)
    ensures
        cpu.with_flags(flags).F % 16 == 0,
        cpu.with_operand16(Operand::AF, popped).F % 16 == 0,
        cpu.with_operand16(Operand::AF, popped).A == high_byte(popped),
{
}

/// The word with the given high and low bytes.
pub fn join(high: u8, low: u8) -> (value: u16)
    ensures
        value == word(high, low),
{
    proof {
        lemma_word_bits(0, high, low);
    }
    ((high as u16) << 8) | (low as u16)
}

/// `a + b + carry` with its flags.
pub fn sum_of(a: u8, b: u8, carry: bool) -> (out: AluOut)
    ensures
        out == add8(a, b, carry),
{
    let extra: u8 = if carry {
        1
    } else {
        0
    };
    let wide: u16 = a as u16 + b as u16 + extra as u16;
    let value: u8 = a.wrapping_add(b).wrapping_add(extra);
    proof {
        lemma_byte_bits(a);
        lemma_byte_bits(b);
    }
    let half = (a & 0x0F) + (b & 0x0F) + extra > 0x0F;
    proof {
        let wrapped: int = if wide > 0xFF { 1 } else { 0 };
        lemma_div_mod(a + b + extra, 256, wrapped, value as int);
    }
    AluOut { value, flags: Flags { z: value == 0, n: false, h: half, c: wide > 0xFF } }
}

/// `a - b - carry` with its flags.
pub fn difference_of(a: u8, b: u8, carry: bool) -> (out: AluOut)
    ensures
        out == sub8(a, b, carry),
{
    let extra: u8 = if carry {
        1
    } else {
        0
    };
    let value: u8 = a.wrapping_sub(b).wrapping_sub(extra);
    proof {
        lemma_byte_bits(a);
        lemma_byte_bits(b);
    }
    let half = (a & 0x0F) < (b & 0x0F) + extra;
    let borrow = (a as u16) < b as u16 + extra as u16;
    proof {
        let wrapped: int = if borrow { -1 } else { 0 };
        lemma_div_mod(a - b - extra, 256, wrapped, value as int);
    }
    AluOut { value, flags: Flags { z: value == 0, n: true, h: half, c: borrow } }
}

} // verus!
