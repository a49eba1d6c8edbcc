use crate::alu::{
    add16, add8, add_offset, and8, bit_cleared, bit_raised, bit_test, daa, dec8, inc8,
    law_pack_unpack, lemma_byte_bits, lemma_div_mod, lemma_word_bits, or8, rl, rlc, rr, rrc,
    signed, sla, sra, srl, sub8, swap, xor8, zero_cleared, AluOut, Flags, WideOut,
};
use crate::cpu::{
    bit_index, high_byte, is_pair, join, low_byte, word, wrap16, Cpu, Machine, DISPATCH_CYCLES,
    IE_ADDRESS, IF_ADDRESS,
};
use crate::databus::{BusView, DataBus};
use crate::instructions::{
    cycles_for, cycles_of, decode, decode_prefixed, instruction_at, law_table_bounds,
    prefixed_instruction_at, Instruction, Mnemonic, Operand,
};
use vstd::prelude::*;

verus! {

/// What running the body of one instruction leaves: the machine, whether the
/// instruction's condition held, and whether it set the program counter
/// itself.
pub struct Outcome {
    pub cpu: Cpu,
    pub bus: BusView,
    pub taken: bool,
    pub jumped: bool,
}

/// What one step leaves: the machine and the cycles that the step cost.
pub struct StepResult {
    pub cpu: Cpu,
    pub bus: BusView,
    pub cycles: u8,
}

/// Whether an instruction's condition held and whether it set the program
/// counter itself.
#[derive(Clone, Copy)]
pub struct Flow {
    pub taken: bool,
    pub jumped: bool,
}

/// An instruction that runs on to its successor.
pub open spec fn falls_through(machine: Machine) -> Outcome {
    Outcome { cpu: machine.cpu, bus: machine.bus, taken: true, jumped: false }
}

/// An instruction that set the program counter.
pub open spec fn lands(machine: Machine) -> Outcome {
    Outcome { cpu: machine.cpu, bus: machine.bus, taken: true, jumped: true }
}

/// A conditional instruction whose condition did not hold.
pub open spec fn declined(cpu: Cpu, bus: BusView) -> Outcome {
    Outcome { cpu, bus, taken: false, jumped: false }
}

/// The result of the rotate or shift that `mnemonic` names.
pub open spec fn shift_result(mnemonic: Mnemonic, v: u8, carry: bool) -> AluOut {
    match mnemonic {
        Mnemonic::RLC => rlc(v),
        Mnemonic::RRC => rrc(v),
        Mnemonic::RL => rl(v, carry),
        Mnemonic::RR => rr(v, carry),
        Mnemonic::SLA => sla(v),
        Mnemonic::SRA => sra(v),
        Mnemonic::SRL => srl(v),
        _ => swap(v),
    }
}

/// The result of the accumulator operation that `mnemonic` names.
pub open spec fn alu_result(mnemonic: Mnemonic, a: u8, v: u8, carry: bool) -> AluOut {
    match mnemonic {
        Mnemonic::ADD => add8(a, v, false),
        Mnemonic::ADC => add8(a, v, carry),
        Mnemonic::SUB => sub8(a, v, false),
        Mnemonic::SBC => sub8(a, v, carry),
        Mnemonic::AND => and8(a, v),
        Mnemonic::XOR => xor8(a, v),
        Mnemonic::OR => or8(a, v),
        _ => AluOut { value: a, flags: sub8(a, v, false).flags },
    }
}

/// The pending interrupt sources: those both requested and enabled.
pub open spec fn pending_interrupts(bus: BusView) -> u8 {
    bus.read(IE_ADDRESS) & bus.read(IF_ADDRESS) & 0x1F
}

/// The source that is served first among `pending`: the lowest set bit.
pub open spec fn lowest_source(pending: u8) -> u8 {
    if pending & 0x01 != 0 {
        0
    } else if pending & 0x02 != 0 {
        1
    } else if pending & 0x04 != 0 {
        2
    } else if pending & 0x08 != 0 {
        3
    } else {
        4
    }
}

/// The address that serving `source` jumps to.
pub open spec fn interrupt_vector(source: u8) -> u16 {
    (0x40 + 8 * source) as u16
}

impl Cpu {
    /// The master enable rises if the enable instruction asked for it.
    pub open spec fn enable_pending(self) -> Cpu {
        if self.IME_pending {
            Cpu { IME: true, IME_pending: false, ..self }
        } else {
            self
        }
    }

    /// The stack pointer is stored at the immediate address, low byte
    /// first.
    pub open spec fn store_sp(self, bus: BusView) -> BusView {
        bus.write(low_byte(self.sp), self.immediate16(bus)).write(
            high_byte(self.sp),
            wrap16(self.immediate16(bus) + 1),
        )
    }

    /// HL takes the stack pointer plus the signed immediate byte, and the
    /// flags those of the addition.
    pub open spec fn load_displaced(self, bus: BusView) -> Cpu {
        self.with_hl(add_offset(self.sp, self.immediate8(bus)).value).with_flags(
            add_offset(self.sp, self.immediate8(bus)).flags,
        )
    }

    /// A byte goes from the operand `from` into the operand `to`; HL then
    /// moves by one for each operand that asks for it.
    pub open spec fn load_byte(self, bus: BusView, to: Operand, from: Operand) -> Machine {
        let stored = self.with_operand8(bus, to, self.operand8(bus, from));
        Machine { cpu: stored.cpu.after_access(to).after_access(from), bus: stored.bus }
    }

    /// The loads: a word into a register pair, the stack pointer into
    /// memory, the displaced stack pointer into HL, HL into the stack
    /// pointer, or a byte from the second operand into the first.
    pub open spec fn load(self, bus: BusView, ins: Instruction) -> Machine {
        if ins.second == Operand::N16 {
            Machine { cpu: self.with_operand16(ins.first, self.immediate16(bus)), bus }
        } else if ins.first == Operand::MemA16 && ins.second == Operand::SP {
            Machine { cpu: self, bus: self.store_sp(bus) }
        } else if ins.second == Operand::SPPlusE8 {
            Machine { cpu: self.load_displaced(bus), bus }
        } else if ins.first == Operand::SP && ins.second == Operand::HL {
            Machine { cpu: Cpu { sp: self.hl(), ..self }, bus }
        } else {
            self.load_byte(bus, ins.first, ins.second)
        }
    }

    /// The arithmetic and logic instructions: on HL and a register pair, on
    /// the stack pointer and an offset, or on A and a byte.
    pub open spec fn arithmetic(self, bus: BusView, ins: Instruction) -> Machine {
        if ins.first == Operand::HL {
            let out = add16(self.hl(), self.operand16(bus, ins.second), self.flags().z);
            Machine { cpu: self.with_hl(out.value).with_flags(out.flags), bus }
        } else if ins.first == Operand::SP {
            let out = add_offset(self.sp, self.immediate8(bus));
            Machine { cpu: Cpu { sp: out.value, ..self }.with_flags(out.flags), bus }
        } else {
            Machine {
                cpu: self.with_result(
                    alu_result(
                        ins.mnemonic,
                        self.A,
                        self.operand8(bus, ins.second),
                        self.flags().c,
                    ),
                ),
                bus,
            }
        }
    }

    /// Increment and decrement: of a register pair, without flags, or of a
    /// byte operand, with them.
    pub open spec fn step_operand(self, bus: BusView, ins: Instruction) -> Machine {
        let up = ins.mnemonic == Mnemonic::INC;
        if is_pair(ins.first) {
            Machine {
                cpu: self.with_operand16(
                    ins.first,
                    wrap16(
                        self.operand16(bus, ins.first) + if up {
                            1int
                        } else {
                            -1int
                        },
                    ),
                ),
                bus,
            }
        } else {
            let out = if up {
                inc8(self.operand8(bus, ins.first), self.flags().c)
            } else {
                dec8(self.operand8(bus, ins.first), self.flags().c)
            };
            self.with_flags(out.flags).with_operand8(bus, ins.first, out.value)
        }
    }

    /// The instructions on A and the flags alone.
    pub open spec fn accumulator_op(self, mnemonic: Mnemonic) -> Cpu {
        let flags = self.flags();
        match mnemonic {
            Mnemonic::RLCA => self.with_result(zero_cleared(rlc(self.A))),
            Mnemonic::RRCA => self.with_result(zero_cleared(rrc(self.A))),
            Mnemonic::RLA => self.with_result(zero_cleared(rl(self.A, flags.c))),
            Mnemonic::RRA => self.with_result(zero_cleared(rr(self.A, flags.c))),
            Mnemonic::DAA => self.with_result(daa(self.A, flags)),
            Mnemonic::CPL => self.with_result(
                AluOut {
                    value: (255 - self.A) as u8,
                    flags: Flags { z: flags.z, n: true, h: true, c: flags.c },
                },
            ),
            Mnemonic::SCF => self.with_flags(Flags { z: flags.z, n: false, h: false, c: true }),
            _ => self.with_flags(Flags { z: flags.z, n: false, h: false, c: !flags.c }),
        }
    }

    /// A jump to the address in HL, or to the immediate address.
    pub open spec fn jump_absolute(self, bus: BusView, target: Operand) -> Cpu {
        Cpu {
            pc: if target == Operand::HL {
                self.hl()
            } else {
                self.immediate16(bus)
            },
            ..self
        }
    }

    /// A jump by the signed immediate byte, counted from the end of the
    /// instruction, which is `length` bytes long.
    pub open spec fn jump_relative(self, bus: BusView, length: u8) -> Cpu {
        Cpu { pc: wrap16(wrap16(self.pc + length) + signed(self.immediate8(bus))), ..self }
    }

    /// A return: the program counter is popped off the stack, and the
    /// master enable is set if `enable` is.
    pub open spec fn ret(self, bus: BusView, enable: bool) -> Cpu {
        Cpu { pc: self.stack_top(bus), IME: self.IME || enable, ..self.popped() }
    }

    /// A restart: the program counter itself is pushed, and the fixed
    /// address that `vector` names takes its place.
    pub open spec fn restart(self, bus: BusView, vector: Operand) -> Machine {
        Machine {
            cpu: Cpu {
                pc: match vector {
                    Operand::Vector(target) => target as u16,
                    _ => 0u16,
                },
                ..self.push(bus, self.pc).cpu
            },
            bus: self.push(bus, self.pc).bus,
        }
    }

    /// What a jump, call, return or restart does once its condition holds.
    pub open spec fn jump_taken(self, bus: BusView, ins: Instruction) -> Machine {
        match ins.mnemonic {
            Mnemonic::JP => Machine { cpu: self.jump_absolute(bus, ins.first), bus },
            Mnemonic::JR => Machine { cpu: self.jump_relative(bus, ins.length), bus },
            Mnemonic::CALL => self.call(bus, self.immediate16(bus)),
            Mnemonic::RET => Machine { cpu: self.ret(bus, false), bus },
            Mnemonic::RETI => Machine { cpu: self.ret(bus, true), bus },
            _ => self.restart(bus, ins.first),
        }
    }

    /// The instructions that may set the program counter: nothing happens
    /// when the condition that the first operand names does not hold.
    pub open spec fn jump(self, bus: BusView, ins: Instruction) -> Outcome {
        if self.condition_holds(ins.first) {
            lands(self.jump_taken(bus, ins))
        } else {
            declined(self, bus)
        }
    }

    /// Push and pop of a register pair.
    pub open spec fn stack_op(self, bus: BusView, ins: Instruction) -> Machine {
        if ins.mnemonic == Mnemonic::PUSH {
            self.push(bus, self.operand16(bus, ins.first))
        } else {
            Machine { cpu: self.popped().with_operand16(ins.first, self.stack_top(bus)), bus }
        }
    }

    /// The instructions on the interrupt latches and the halt.
    pub open spec fn control(self, mnemonic: Mnemonic) -> Cpu {
        match mnemonic {
            Mnemonic::DI => Cpu { IME: false, IME_pending: false, ..self },
            Mnemonic::EI => Cpu { IME_pending: true, ..self },
            _ => Cpu { is_halted: self.IME, ..self },
        }
    }

    /// The state after an undefined opcode was met.
    pub open spec fn faulted(self) -> Cpu {
        Cpu {
            decode_faults: if self.decode_faults < u32::MAX {
                (self.decode_faults + 1) as u32
            } else {
                self.decode_faults
            },
            ..self
        }
    }

    /// The body of an instruction of the first table.
    #[verifier::opaque]
    pub open spec fn execute(self, bus: BusView, ins: Instruction) -> Outcome {
        match ins.mnemonic {
            Mnemonic::LD | Mnemonic::LDH => falls_through(self.load(bus, ins)),
            Mnemonic::ADD
            | Mnemonic::ADC
            | Mnemonic::SUB
            | Mnemonic::SBC
            | Mnemonic::AND
            | Mnemonic::XOR
            | Mnemonic::OR
            | Mnemonic::CP => falls_through(self.arithmetic(bus, ins)),
            Mnemonic::INC | Mnemonic::DEC => falls_through(self.step_operand(bus, ins)),
            Mnemonic::RLCA
            | Mnemonic::RRCA
            | Mnemonic::RLA
            | Mnemonic::RRA
            | Mnemonic::DAA
            | Mnemonic::CPL
            | Mnemonic::SCF
            | Mnemonic::CCF => falls_through(
                Machine { cpu: self.accumulator_op(ins.mnemonic), bus },
            ),
            Mnemonic::JP
            | Mnemonic::JR
            | Mnemonic::CALL
            | Mnemonic::RET
            | Mnemonic::RETI
            | Mnemonic::RST => self.jump(bus, ins),
            Mnemonic::PUSH | Mnemonic::POP => falls_through(self.stack_op(bus, ins)),
            Mnemonic::DI | Mnemonic::EI | Mnemonic::HALT => falls_through(
                Machine { cpu: self.control(ins.mnemonic), bus },
            ),
            Mnemonic::ILLEGAL => falls_through(Machine { cpu: self.faulted(), bus }),
            _ => falls_through(Machine { cpu: self, bus }),
        }
    }

    /// The body of an instruction of the second table.
    #[verifier::opaque]
    pub open spec fn execute_prefixed(self, bus: BusView, ins: Instruction) -> Machine {
        match ins.mnemonic {
            Mnemonic::BIT => Machine {
                cpu: self.with_flags(
                    bit_test(
                        bit_index(ins.first),
                        self.operand8(bus, ins.second),
                        self.flags().c,
                    ),
                ),
                bus,
            },
            Mnemonic::RES => self.with_operand8(
                bus,
                ins.second,
                bit_cleared(bit_index(ins.first), self.operand8(bus, ins.second)),
            ),
            Mnemonic::SET => self.with_operand8(
                bus,
                ins.second,
                bit_raised(bit_index(ins.first), self.operand8(bus, ins.second)),
            ),
            Mnemonic::RLC
            | Mnemonic::RRC
            | Mnemonic::RL
            | Mnemonic::RR
            | Mnemonic::SLA
            | Mnemonic::SRA
            | Mnemonic::SRL
            | Mnemonic::SWAP => {
                let out = shift_result(
                    ins.mnemonic,
                    self.operand8(bus, ins.first),
                    self.flags().c,
                );
                self.with_flags(out.flags).with_operand8(bus, ins.first, out.value)
            },
            _ => Machine { cpu: self, bus },
        }
    }

    /// One instruction of the second table, `opcode` being the byte after
    /// the prefix: its body, then the program counter moves past that byte.
    pub open spec fn step_prefixed(self, bus: BusView, opcode: u8) -> StepResult {
        let ins = prefixed_instruction_at(opcode);
        let after = self.execute_prefixed(bus, ins);
        StepResult {
            cpu: Cpu { pc: wrap16(after.cpu.pc + ins.length), ..after.cpu },
            bus: after.bus,
            cycles: ins.cycles,
        }
    }

    /// One instruction, `opcode` being its first byte: a pending enable
    /// takes effect, the body runs, the program counter moves past the
    /// instruction unless the body set it, and the cost is that of the row,
    /// with the cost of the prefixed instruction added for the prefix.
    pub open spec fn step(self, bus: BusView, opcode: u8) -> StepResult {
        let cpu = self.enable_pending();
        let ins = instruction_at(opcode);
        if ins.mnemonic == Mnemonic::PREFIX {
            let inner = cpu.step_prefixed(bus, cpu.immediate8(bus));
            StepResult {
                cpu: Cpu { pc: wrap16(inner.cpu.pc + ins.length), ..inner.cpu },
                bus: inner.bus,
                cycles: (ins.cycles + inner.cycles) as u8,
            }
        } else {
            let out = cpu.execute(bus, ins);
            StepResult {
                cpu: if out.jumped {
                    out.cpu
                } else {
                    Cpu { pc: wrap16(out.cpu.pc + ins.length), ..out.cpu }
                },
                bus: out.bus,
                cycles: cycles_for(ins, out.taken),
            }
        }
    }

    /// Interrupt acceptance at an instruction boundary: with the master
    /// enable set and a source pending, the master enable falls, the lowest
    /// pending source is cleared in the request register, the program
    /// counter is pushed and replaced by the source's vector, at the cost of
    /// a dispatch; otherwise nothing changes and nothing is charged.
    pub open spec fn accept_interrupt(self, bus: BusView) -> StepResult {
        let pending = pending_interrupts(bus);
        if self.IME && pending != 0 {
            let source = lowest_source(pending);
            let cleared = bus.write(bus.read(IF_ADDRESS) & !(1u8 << source), IF_ADDRESS);
            let pushed = Cpu { IME: false, ..self }.push(cleared, self.pc);
            StepResult {
                cpu: Cpu { pc: interrupt_vector(source), ..pushed.cpu },
                bus: pushed.bus,
                cycles: DISPATCH_CYCLES,
            }
        } else {
            StepResult { cpu: self, bus, cycles: 0 }
        }
    }

    /// The address that a memory operand names.
    pub fn address_of(&self, bus: &DataBus, operand: Operand) -> (addr: u16)
        requires
            bus.wf(),
        ensures
            addr == self.operand_address(bus@, operand),
    {
        match operand {
            Operand::MemHL => self.get_HL(),
            Operand::MemHLInc => self.get_HL(),
            Operand::MemHLDec => self.get_HL(),
            Operand::MemBC => self.get_BC(),
            Operand::MemDE => self.get_DE(),
            Operand::MemC => 0xFF00 + self.C as u16,
            Operand::MemA8 => 0xFF00 + self.get_n8(bus) as u16,
            Operand::MemA16 => self.get_a16(bus),
            _ => 0,
        }
    }

    /// The value of an 8-bit operand.
    pub fn read_operand8(&self, bus: &DataBus, operand: Operand) -> (value: u8)
        requires
            bus.wf(),
        ensures
            value == self.operand8(bus@, operand),
    {
        match operand {
            Operand::A => self.A,
            Operand::B => self.B,
            Operand::C => self.C,
            Operand::D => self.D,
            Operand::E => self.E,
            Operand::H => self.H,
            Operand::L => self.L,
            Operand::N8 => self.get_n8(bus),
            Operand::MemHL
            | Operand::MemHLInc
            | Operand::MemHLDec
            | Operand::MemBC
            | Operand::MemDE
            | Operand::MemC
            | Operand::MemA8
            | Operand::MemA16 => bus.read_memory(self.address_of(bus, operand)),
            _ => 0,
        }
    }

    /// Stores `value` into an 8-bit operand.
    pub fn write_operand8(&mut self, bus: &mut DataBus, operand: Operand, value: u8)
        requires
            old(bus).wf(),
        ensures
            final(bus).wf(),
            (Machine { cpu: *final(self), bus: final(bus)@ }) == old(self).with_operand8(
                old(bus)@,
                operand,
                value,
            ),
    {
        match operand {
            Operand::A => {
                self.A = value;
            },
            Operand::B => {
                self.B = value;
            },
            Operand::C => {
                self.C = value;
            },
            Operand::D => {
                self.D = value;
            },
            Operand::E => {
                self.E = value;
            },
            Operand::H => {
                self.H = value;
            },
            Operand::L => {
                self.L = value;
            },
            Operand::MemHL
            | Operand::MemHLInc
            | Operand::MemHLDec
            | Operand::MemBC
            | Operand::MemDE
            | Operand::MemC
            | Operand::MemA8
            | Operand::MemA16 => {
                let addr: u16 = self.address_of(bus, operand);
                bus.write_memory(value, addr);
            },
            _ => {},
        }
    }

    /// Replaces HL.
    pub fn set_HL(&mut self, value: u16)
        ensures
            *final(self) == old(self).with_hl(value),
    {
        proof {
            lemma_word_bits(value, 0, 0);
        }
        self.H = (value >> 8) as u8;
        self.L = (value & 0xFF) as u8;
    }

    /// Moves HL by one where the operand asks for it.
    pub fn adjust_hl(&mut self, operand: Operand)
        ensures
            *final(self) == old(self).after_access(operand),
    {
        match operand {
            Operand::MemHLInc => {
                let hl: u16 = self.get_HL();
                self.set_HL(hl.wrapping_add(1));
            },
            Operand::MemHLDec => {
                let hl: u16 = self.get_HL();
                self.set_HL(hl.wrapping_sub(1));
            },
            _ => {},
        }
    }

    /// The value of a 16-bit operand.
    pub fn read_operand16(&self, bus: &DataBus, operand: Operand) -> (value: u16)
        requires
            bus.wf(),
        ensures
            value == self.operand16(bus@, operand),
    {
        match operand {
            Operand::BC => self.get_BC(),
            Operand::DE => self.get_DE(),
            Operand::HL => self.get_HL(),
            Operand::AF => self.get_AF(),
            Operand::SP => self.sp,
            Operand::N16 => self.get_n16(bus),
            Operand::A16 => self.get_a16(bus),
            _ => 0,
        }
    }

    /// Stores `value` into a register pair.
    pub fn write_operand16(&mut self, operand: Operand, value: u16)
        ensures
            *final(self) == old(self).with_operand16(operand, value),
    {
        proof {
            lemma_word_bits(value, 0, 0);
        }
        let high: u8 = (value >> 8) as u8;
        let low: u8 = (value & 0xFF) as u8;
        proof {
            lemma_byte_bits(low);
        }
        match operand {
            Operand::BC => {
                self.B = high;
                self.C = low;
            },
            Operand::DE => {
                self.D = high;
                self.E = low;
            },
            Operand::HL => {
                self.H = high;
                self.L = low;
            },
            Operand::AF => {
                self.A = high;
                self.F = low & 0xF0;
            },
            Operand::SP => {
                self.sp = value;
            },
            _ => {},
        }
    }

    /// Whether the condition that an operand names holds.
    pub fn check_condition(&self, operand: Operand) -> (holds: bool)
        ensures
            holds == self.condition_holds(operand),
    {
        match operand {
            Operand::CondZ => self.get_z(),
            Operand::CondNZ => !self.get_z(),
            Operand::CondC => self.get_c(),
            Operand::CondNC => !self.get_c(),
            _ => true,
        }
    }

    /// Stores the stack pointer at the immediate address.
    fn exec_store_sp(&self, bus: &mut DataBus)
        requires
            old(bus).wf(),
        ensures
            final(bus).wf(),
            final(bus)@ == self.store_sp(old(bus)@),
    {
        let addr: u16 = self.get_a16(bus);
        proof {
            lemma_word_bits(self.sp, 0, 0);
        }
        bus.write_memory((self.sp & 0xFF) as u8, addr);
        bus.write_memory((self.sp >> 8) as u8, addr.wrapping_add(1));
    }

    /// Loads the displaced stack pointer into HL.
    fn exec_load_displaced(&mut self, bus: &DataBus)
        requires
            bus.wf(),
        ensures
            *final(self) == old(self).load_displaced(bus@),
    {
        let offset: u8 = self.get_n8(bus);
        let out = offset_sum(self.sp, offset);
        self.set_HL(out.value);
        self.store_flags(out.flags);
    }

    /// Loads a byte from one operand into another.
    fn exec_load_byte(&mut self, bus: &mut DataBus, to: Operand, from: Operand)
        requires
            old(bus).wf(),
        ensures
            final(bus).wf(),
            (Machine { cpu: *final(self), bus: final(bus)@ }) == old(self).load_byte(
                old(bus)@,
                to,
                from,
            ),
    {
        let value: u8 = self.read_operand8(bus, from);
        self.write_operand8(bus, to, value);
        self.adjust_hl(to);
        self.adjust_hl(from);
    }

    /// Runs a load.
    fn exec_load(&mut self, bus: &mut DataBus, ins: &Instruction)
        requires
            old(bus).wf(),
        ensures
            final(bus).wf(),
            (Machine { cpu: *final(self), bus: final(bus)@ }) == old(self).load(old(bus)@, *ins),
    {
        if matches!(ins.second, Operand::N16) {
            let value: u16 = self.get_n16(bus);
            self.write_operand16(ins.first, value);
        } else if matches!(ins.first, Operand::MemA16) && matches!(ins.second, Operand::SP) {
            self.exec_store_sp(bus);
        } else if matches!(ins.second, Operand::SPPlusE8) {
            self.exec_load_displaced(bus);
        } else if matches!(ins.first, Operand::SP) && matches!(ins.second, Operand::HL) {
            self.sp = self.get_HL();
        } else {
            self.exec_load_byte(bus, ins.first, ins.second);
        }
    }

    /// Runs an arithmetic or logic instruction.
    fn exec_arithmetic(&mut self, bus: &mut DataBus, ins: &Instruction)
        requires
            old(bus).wf(),
            ins.mnemonic == Mnemonic::ADD || ins.mnemonic == Mnemonic::ADC || ins.mnemonic
                == Mnemonic::SUB || ins.mnemonic == Mnemonic::SBC || ins.mnemonic == Mnemonic::AND
                || ins.mnemonic == Mnemonic::XOR || ins.mnemonic == Mnemonic::OR || ins.mnemonic
                == Mnemonic::CP,
        ensures
            final(bus).wf(),
            (Machine { cpu: *final(self), bus: final(bus)@ }) == old(self).arithmetic(
                old(bus)@,
                *ins,
            ),
    {
        if matches!(ins.first, Operand::HL) {
            let rhs: u16 = self.read_operand16(bus, ins.second);
            self.ADD_16bit(rhs);
        } else if matches!(ins.first, Operand::SP) {
            let offset: u8 = self.get_n8(bus);
            let out = offset_sum(self.sp, offset);
            self.sp = out.value;
            self.store_flags(out.flags);
        } else {
            let rhs: u8 = self.read_operand8(bus, ins.second);
            match ins.mnemonic {
                Mnemonic::ADD => {
                    self.ADD(rhs);
                },
                Mnemonic::ADC => {
                    self.ADC(rhs);
                },
                Mnemonic::SUB => {
                    self.A = self.SUB(rhs);
                },
                Mnemonic::SBC => {
                    self.A = self.SBC(rhs);
                },
                Mnemonic::AND => {
                    self.AND(rhs);
                },
                Mnemonic::XOR => {
                    self.A = self.XOR(rhs);
                },
                Mnemonic::OR => {
                    self.A = self.OR(rhs);
                },
                _ => {
                    self.CP(rhs);
                },
            }
        }
    }

    /// Runs an increment or a decrement.
    fn exec_step_operand(&mut self, bus: &mut DataBus, ins: &Instruction)
        requires
            old(bus).wf(),
        ensures
            final(bus).wf(),
            (Machine { cpu: *final(self), bus: final(bus)@ }) == old(self).step_operand(
                old(bus)@,
                *ins,
            ),
    {
        let up = matches!(ins.mnemonic, Mnemonic::INC);
        if matches!(ins.first, Operand::BC | Operand::DE | Operand::HL | Operand::SP) {
            let value: u16 = self.read_operand16(bus, ins.first);
            let stepped: u16 = if up {
                self.INC_16bit(value)
            } else {
                self.DEC_16bit(value)
            };
            self.write_operand16(ins.first, stepped);
        } else {
            let value: u8 = self.read_operand8(bus, ins.first);
            let stepped: u8 = if up {
                self.INC(value)
            } else {
                self.DEC(value)
            };
            self.write_operand8(bus, ins.first, stepped);
        }
    }

    /// Runs an instruction on A and the flags alone.
    fn exec_accumulator(&mut self, mnemonic: Mnemonic)
        ensures
            *final(self) == old(self).accumulator_op(mnemonic),
    {
        let z = self.get_z();
        let c = self.get_c();
        match mnemonic {
            Mnemonic::RLCA => {
                let a: u8 = self.A;
                let rotated: u8 = self.RLC(a);
                proof {
                    law_pack_unpack(rlc(a).flags);
                }
                self.A = rotated;
                self.set_z_to(false);
            },
            Mnemonic::RRCA => {
                let a: u8 = self.A;
                let rotated: u8 = self.RRC(a);
                proof {
                    law_pack_unpack(rrc(a).flags);
                }
                self.A = rotated;
                self.set_z_to(false);
            },
            Mnemonic::RLA => {
                let a: u8 = self.A;
                let rotated: u8 = self.RL(a);
                proof {
                    law_pack_unpack(rl(a, c).flags);
                }
                self.A = rotated;
                self.set_z_to(false);
            },
            Mnemonic::RRA => {
                let a: u8 = self.A;
                let rotated: u8 = self.RR(a);
                proof {
                    law_pack_unpack(rr(a, c).flags);
                }
                self.A = rotated;
                self.set_z_to(false);
            },
            Mnemonic::DAA => {
                self.DAA();
            },
            Mnemonic::CPL => {
                self.A = 0xFF - self.A;
                self.set_flags(z, true, true, c);
            },
            Mnemonic::SCF => {
                self.set_flags(z, false, false, true);
            },
            _ => {
                self.set_flags(z, false, false, !c);
            },
        }
    }

    /// Jumps to the address in HL, or to the immediate address.
    fn exec_jump_absolute(&mut self, bus: &DataBus, target: Operand)
        requires
            bus.wf(),
        ensures
            *final(self) == old(self).jump_absolute(bus@, target),
    {
        if matches!(target, Operand::HL) {
            self.pc = self.get_HL();
        } else {
            self.pc = self.get_a16(bus);
        }
    }

    /// Jumps by the signed immediate byte.
    fn exec_jump_relative(&mut self, bus: &DataBus, length: u8)
        requires
            bus.wf(),
        ensures
            *final(self) == old(self).jump_relative(bus@, length),
    {
        let offset: u8 = self.get_n8(bus);
        let next: u16 = self.pc.wrapping_add(length as u16);
        self.pc = displaced(next, offset);
    }

    /// Returns to the address on top of the stack.
    fn exec_ret(&mut self, bus: &DataBus, enable: bool)
        requires
            bus.wf(),
        ensures
            *final(self) == old(self).ret(bus@, enable),
    {
        let (msb, lsb) = self.POP(bus);
        self.pc = join(msb, lsb);
        if enable {
            self.IME = true;
        }
    }

    /// Pushes the program counter and jumps to a fixed address.
    fn exec_restart(&mut self, bus: &mut DataBus, vector: Operand)
        requires
            old(bus).wf(),
        ensures
            final(bus).wf(),
            (Machine { cpu: *final(self), bus: final(bus)@ }) == old(self).restart(
                old(bus)@,
                vector,
            ),
    {
        let target: u16 = match vector {
            Operand::Vector(target) => target as u16,
            _ => 0,
        };
        let from: u16 = self.pc;
        self.PUSH(bus, from);
        self.pc = target;
    }

    /// Runs a jump, call, return or restart whose condition holds.
    fn exec_jump_taken(&mut self, bus: &mut DataBus, ins: &Instruction)
        requires
            old(bus).wf(),
        ensures
            final(bus).wf(),
            (Machine { cpu: *final(self), bus: final(bus)@ }) == old(self).jump_taken(
                old(bus)@,
                *ins,
            ),
    {
        match ins.mnemonic {
            Mnemonic::JP => {
                self.exec_jump_absolute(bus, ins.first);
            },
            Mnemonic::JR => {
                self.exec_jump_relative(bus, ins.length);
            },
            Mnemonic::CALL => {
                let target: u16 = self.get_a16(bus);
                self.CALL(bus, target);
            },
            Mnemonic::RET => {
                self.exec_ret(bus, false);
            },
            Mnemonic::RETI => {
                self.exec_ret(bus, true);
            },
            _ => {
                self.exec_restart(bus, ins.first);
            },
        }
    }

    /// Runs an instruction that may set the program counter.
    fn exec_jump(&mut self, bus: &mut DataBus, ins: &Instruction) -> (flow: Flow)
        requires
            old(bus).wf(),
        ensures
            final(bus).wf(),
            (Outcome {
                cpu: *final(self),
                bus: final(bus)@,
                taken: flow.taken,
                jumped: flow.jumped,
            }) == old(self).jump(old(bus)@, *ins),
    {
        if self.check_condition(ins.first) {
            self.exec_jump_taken(bus, ins);
            Flow { taken: true, jumped: true }
        } else {
            Flow { taken: false, jumped: false }
        }
    }

    /// Runs a push or a pop.
    fn exec_stack(&mut self, bus: &mut DataBus, ins: &Instruction)
        requires
            old(bus).wf(),
        ensures
            final(bus).wf(),
            (Machine { cpu: *final(self), bus: final(bus)@ }) == old(self).stack_op(
                old(bus)@,
                *ins,
            ),
    {
        if matches!(ins.mnemonic, Mnemonic::PUSH) {
            let value: u16 = self.read_operand16(bus, ins.first);
            self.PUSH(bus, value);
        } else {
            let (msb, lsb) = self.POP(bus);
            self.write_operand16(ins.first, join(msb, lsb));
        }
    }

    /// Runs an instruction on the interrupt latches, or the halt.
    fn exec_control(&mut self, mnemonic: Mnemonic)
        ensures
            *final(self) == old(self).control(mnemonic),
    {
        match mnemonic {
            Mnemonic::DI => {
                self.IME = false;
                self.IME_pending = false;
            },
            Mnemonic::EI => {
                self.IME_pending = true;
            },
            _ => {
                self.is_halted = self.IME;
            },
        }
    }

    /// Runs the body of an instruction of the first table.
    fn execute_body(&mut self, bus: &mut DataBus, ins: &Instruction) -> (flow: Flow)
        requires
            old(bus).wf(),
        ensures
            final(bus).wf(),
            (Outcome {
                cpu: *final(self),
                bus: final(bus)@,
                taken: flow.taken,
                jumped: flow.jumped,
            }) == old(self).execute(old(bus)@, *ins),
    {
        reveal(Cpu::execute);
        match ins.mnemonic {
            Mnemonic::LD | Mnemonic::LDH => {
                self.exec_load(bus, ins);
            },
            Mnemonic::ADD
            | Mnemonic::ADC
            | Mnemonic::SUB
            | Mnemonic::SBC
            | Mnemonic::AND
            | Mnemonic::XOR
            | Mnemonic::OR
            | Mnemonic::CP => {
                self.exec_arithmetic(bus, ins);
            },
            Mnemonic::INC | Mnemonic::DEC => {
                self.exec_step_operand(bus, ins);
            },
            Mnemonic::RLCA
            | Mnemonic::RRCA
            | Mnemonic::RLA
            | Mnemonic::RRA
            | Mnemonic::DAA
            | Mnemonic::CPL
            | Mnemonic::SCF
            | Mnemonic::CCF => {
                self.exec_accumulator(ins.mnemonic);
            },
            Mnemonic::JP
            | Mnemonic::JR
            | Mnemonic::CALL
            | Mnemonic::RET
            | Mnemonic::RETI
            | Mnemonic::RST => {
                return self.exec_jump(bus, ins);
            },
            Mnemonic::PUSH | Mnemonic::POP => {
                self.exec_stack(bus, ins);
            },
            Mnemonic::DI | Mnemonic::EI | Mnemonic::HALT => {
                self.exec_control(ins.mnemonic);
            },
            Mnemonic::ILLEGAL => {
                if self.decode_faults < u32::MAX {
                    self.decode_faults = self.decode_faults + 1;
                }
            },
            _ => {},
        }
        Flow { taken: true, jumped: false }
    }

    /// Runs the body of an instruction of the second table.
    fn execute_prefixed_body(&mut self, bus: &mut DataBus, ins: &Instruction)
        requires
            old(bus).wf(),
        ensures
            final(bus).wf(),
            (Machine { cpu: *final(self), bus: final(bus)@ }) == old(self).execute_prefixed(
                old(bus)@,
                *ins,
            ),
    {
        reveal(Cpu::execute_prefixed);
        let index: u8 = match ins.first {
            Operand::Bit(index) => if index < 8 {
                index
            } else {
                0
            },
            _ => 0,
        };
        match ins.mnemonic {
            Mnemonic::BIT => {
                let value: u8 = self.read_operand8(bus, ins.second);
                self.BIT(index, value);
            },
            Mnemonic::RES => {
                let value: u8 = self.read_operand8(bus, ins.second);
                let cleared: u8 = self.RES(index, value);
                self.write_operand8(bus, ins.second, cleared);
            },
            Mnemonic::SET => {
                let value: u8 = self.read_operand8(bus, ins.second);
                let raised: u8 = self.SET(index, value);
                self.write_operand8(bus, ins.second, raised);
            },
            Mnemonic::RLC
            | Mnemonic::RRC
            | Mnemonic::RL
            | Mnemonic::RR
            | Mnemonic::SLA
            | Mnemonic::SRA
            | Mnemonic::SRL
            | Mnemonic::SWAP => {
                let value: u8 = self.read_operand8(bus, ins.first);
                let result: u8 = match ins.mnemonic {
                    Mnemonic::RLC => self.RLC(value),
                    Mnemonic::RRC => self.RRC(value),
                    Mnemonic::RL => self.RL(value),
                    Mnemonic::RR => self.RR(value),
                    Mnemonic::SLA => self.SLA(value),
                    Mnemonic::SRA => self.SRA(value),
                    Mnemonic::SRL => self.SRL(value),
                    _ => self.SWAP(value),
                };
                self.write_operand8(bus, ins.first, result);
            },
            _ => {},
        }
    }

    /// Runs the instruction of the second table whose byte is
    /// `instruction_byte`, moves the program counter past that byte and
    /// returns the cycles that the byte costs.
    pub fn exec_prefixed_instruction(&mut self, bus: &mut DataBus, instruction_byte: u8) -> (cycles:
        u8)
        requires
            old(bus).wf(),
        ensures
            final(bus).wf(),
            (StepResult { cpu: *final(self), bus: final(bus)@, cycles }) == old(
                self,
            ).step_prefixed(old(bus)@, instruction_byte),
    {
        let ins = decode_prefixed(instruction_byte);
        self.execute_prefixed_body(bus, &ins);
        self.pc = self.pc.wrapping_add(ins.length as u16);
        ins.cycles
    }

    /// Runs the instruction whose first byte is `instruction_byte`, with its
    /// operand bytes read after the program counter, and returns the cycles
    /// that it cost.
    pub fn exec_instruction(&mut self, bus: &mut DataBus, instruction_byte: u8) -> (cycles: u8)
        requires
            old(bus).wf(),
        ensures
            final(bus).wf(),
            (StepResult { cpu: *final(self), bus: final(bus)@, cycles }) == old(self).step(
                old(bus)@,
                instruction_byte,
            ),
    {
        if self.IME_pending {
            self.IME = true;
            self.IME_pending = false;
        }
        let ins = decode(instruction_byte);
        if matches!(ins.mnemonic, Mnemonic::PREFIX) {
            let inner_byte: u8 = self.get_n8(bus);
            proof {
                law_table_bounds(instruction_byte, true);
                law_table_bounds(inner_byte, true);
            }
            let inner: u8 = self.exec_prefixed_instruction(bus, inner_byte);
            self.pc = self.pc.wrapping_add(ins.length as u16);
            ins.cycles + inner
        } else {
            let flow = self.execute_body(bus, &ins);
            if !flow.jumped {
                self.pc = self.pc.wrapping_add(ins.length as u16);
            }
            cycles_of(&ins, flow.taken)
        }
    }

    /// Accepts the pending interrupt of highest priority, if the master
    /// enable allows one, and returns the cycles charged: 20 for a dispatch,
    /// 0 when nothing was accepted.
    pub fn service_interrupts(&mut self, bus: &mut DataBus) -> (cycles: u8)
        requires
            old(bus).wf(),
        ensures
            final(bus).wf(),
            (StepResult { cpu: *final(self), bus: final(bus)@, cycles }) == old(
                self,
            ).accept_interrupt(old(bus)@),
    {
        let enabled: u8 = bus.read_memory(IE_ADDRESS);
        let requested: u8 = bus.read_memory(IF_ADDRESS);
        let pending: u8 = enabled & requested & 0x1F;
        if self.IME && pending != 0 {
            let source: u8 = if pending & 0x01 != 0 {
                0
            } else if pending & 0x02 != 0 {
                1
            } else if pending & 0x04 != 0 {
                2
            } else if pending & 0x08 != 0 {
                3
            } else {
                4
            };
            self.IME = false;
            bus.write_memory(requested & !(1u8 << source), IF_ADDRESS);
            let from: u16 = self.pc;
            self.PUSH(bus, from);
            self.pc = 0x40 + 8 * (source as u16);
            DISPATCH_CYCLES
        } else {
            0
        }
    }
}

/// How the tests of single bits of a byte read as shifts.
proof fn lemma_source_bits(pending: u8)
    by (bit_vector)
    ensures
        (pending & 0x01 != 0) == ((pending >> 0) & 1 == 1),
        (pending & 0x02 != 0) == ((pending >> 1) & 1 == 1),
        (pending & 0x04 != 0) == ((pending >> 2) & 1 == 1),
        (pending & 0x08 != 0) == ((pending >> 3) & 1 == 1),
        (pending & 0x10 != 0) == ((pending >> 4) & 1 == 1),
        pending & 0x1F != 0 ==> (pending & 0x01 != 0 || pending & 0x02 != 0 || pending & 0x04 != 0
            || pending & 0x08 != 0 || pending & 0x10 != 0),
        forall|index: u8| (pending >> index) & 1 == 0 || (pending >> index) & 1 == 1,
{
}

/// Among pending sources the one that is served is pending itself, and no
/// source below it is: the lowest bit has the highest priority.
pub proof fn law_interrupt_priority(pending: u8, lower: u8)
    requires
        pending & 0x1F != 0,
        lower < lowest_source(pending),
    ensures
        lowest_source(pending) <= 4,
        (pending >> lowest_source(pending)) & 1 == 1,
        (pending >> lower) & 1 == 0,
{
    lemma_source_bits(pending);
    if lower == 0 {
    } else if lower == 1 {
    } else if lower == 2 {
    } else {
        assert(lower == 3);
    }
}

/// The unconditional call: the address of the instruction after it is
/// pushed, high byte first, the stack pointer drops by two, the program
/// counter takes the immediate address, and 24 cycles are spent.
pub proof fn law_call(cpu: Cpu, bus: BusView)
    ensures
        cpu.step(bus, 0xCD).cpu.pc == cpu.immediate16(bus),
        cpu.step(bus, 0xCD).cpu.sp == wrap16(cpu.sp - 2),
        cpu.step(bus, 0xCD).bus == bus.write(
            high_byte(wrap16(cpu.pc + 3)),
            wrap16(cpu.sp - 1),
        ).write(low_byte(wrap16(cpu.pc + 3)), wrap16(cpu.sp - 2)),
        cpu.step(bus, 0xCD).cycles == 24,
{
    reveal(instruction_at);
    reveal(Cpu::execute);
}

/// With the stack in work RAM or in high RAM, a word that is pushed is the
/// word on top of the stack, and popping it puts the stack pointer back.
pub proof fn law_push_pop(cpu: Cpu, bus: BusView, value: u16)
    requires
        bus.wf(),
        0xC002 <= cpu.sp <= 0xDE00 || 0xFF82 <= cpu.sp <= 0xFFFF,
    ensures
        cpu.push(bus, value).cpu.stack_top(cpu.push(bus, value).bus) == value,
        cpu.push(bus, value).cpu.popped().sp == cpu.sp,
{
    reveal(BusView::read);
    reveal(BusView::write);
    lemma_div_mod(cpu.sp - 2, 65536, 0, cpu.sp - 2);
    lemma_div_mod(cpu.sp - 1, 65536, 0, cpu.sp - 1);
    lemma_div_mod(cpu.sp as int, 65536, 0, cpu.sp as int);
}

/// `base` plus the signed offset byte `e`, modulo 65536.
pub fn displaced(base: u16, e: u8) -> (target: u16)
    ensures
        target == wrap16(base + signed(e)),
{
    if e < 128 {
        let target: u16 = base.wrapping_add(e as u16);
        proof {
            let wrapped: int = if base + e > 65535 { 1 } else { 0 };
            lemma_div_mod(base + e, 65536, wrapped, target as int);
        }
        target
    } else {
        let target: u16 = base.wrapping_sub(256 - e as u16);
        proof {
            let wrapped: int = if base < 256 - e { -1 } else { 0 };
            lemma_div_mod(base + e - 256, 65536, wrapped, target as int);
        }
        target
    }
}

/// The stack pointer plus a signed offset byte, with the flags of the
/// unsigned addition on its low byte.
pub fn offset_sum(sp: u16, e: u8) -> (out: WideOut)
    ensures
        out == add_offset(sp, e),
{
    proof {
        lemma_word_bits(sp, 0, 0);
        lemma_byte_bits(e);
    }
    let half = (sp & 0x000F) + ((e & 0x0F) as u16) > 0x000F;
    let carry = (sp & 0x00FF) + (e as u16) > 0x00FF;
    WideOut { value: displaced(sp, e), flags: Flags { z: false, n: false, h: half, c: carry } }
}

} // verus!
