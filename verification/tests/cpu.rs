use gameooy::cpu::Cpu;
use gameooy::databus::DataBus;
use gameooy::instructions::{cycles_of, decode, decode_prefixed, Mnemonic};

const CODE: u16 = 0xC000;

fn machine(code: &[u8]) -> (Cpu, DataBus) {
    let mut bus = DataBus::new();
    for (i, byte) in code.iter().enumerate() {
        bus.write_memory(*byte, CODE + i as u16);
    }
    let mut cpu = Cpu::new();
    cpu.pc = CODE;
    cpu.F = 0;
    (cpu, bus)
}

fn run(cpu: &mut Cpu, bus: &mut DataBus) -> u8 {
    let opcode = bus.read_memory(cpu.pc);
    cpu.exec_instruction(bus, opcode)
}

#[test]
fn power_on_registers() {
    let cpu = Cpu::new();
    assert_eq!((cpu.A, cpu.F, cpu.B, cpu.C), (0x01, 0xB0, 0x00, 0x13));
    assert_eq!((cpu.D, cpu.E, cpu.H, cpu.L), (0x00, 0xD8, 0x01, 0x4D));
    assert_eq!((cpu.sp, cpu.pc), (0xFFFE, 0x0100));
    assert!(!cpu.IME && !cpu.IME_pending && !cpu.is_halted);
    assert_eq!(cpu.decode_faults, 0);
}

#[test]
fn add_a_b_sets_zero_half_and_carry() {
    let (mut cpu, mut bus) = machine(&[0x80]);
    cpu.A = 0x3A;
    cpu.B = 0xC6;
    cpu.F = 0x00;
    let cycles = run(&mut cpu, &mut bus);
    assert_eq!(cpu.A, 0x00);
    assert_eq!(cpu.F, 0xB0);
    assert_eq!(cpu.pc, CODE + 1);
    assert_eq!(cycles, 4);
}

#[test]
fn sbc_immediate_borrows_through_the_carry() {
    let (mut cpu, mut bus) = machine(&[0xDE, 0x0F]);
    cpu.A = 0x3E;
    cpu.F = 0x10;
    let cycles = run(&mut cpu, &mut bus);
    assert_eq!(cpu.A, 0x2E);
    assert_eq!(cpu.F, 0x60);
    assert_eq!(cpu.pc, CODE + 2);
    assert_eq!(cycles, 8);
}

#[test]
fn add_hl_bc_carries_out_of_bit_eleven() {
    for zero in [false, true] {
        let (mut cpu, mut bus) = machine(&[0x09]);
        cpu.H = 0x8A;
        cpu.L = 0x23;
        cpu.B = 0x06;
        cpu.C = 0x05;
        cpu.F = if zero { 0x80 } else { 0x00 };
        let cycles = run(&mut cpu, &mut bus);
        assert_eq!(cpu.get_HL(), 0x9028);
        assert!(cpu.get_h());
        assert!(!cpu.get_c());
        assert!(!cpu.get_n());
        assert_eq!(cpu.get_z(), zero);
        assert_eq!(cycles, 8);
    }
}

#[test]
fn call_pushes_the_return_address() {
    let mut bus = DataBus::new();
    bus.load_boot_rom(0x0100, 0xCD);
    bus.load_boot_rom(0x0101, 0x34);
    bus.load_boot_rom(0x0102, 0x12);
    let mut cpu = Cpu::new();
    cpu.sp = 0xFFFE;
    cpu.pc = 0x0100;
    let cycles = run(&mut cpu, &mut bus);
    assert_eq!(cpu.sp, 0xFFFC);
    assert_eq!(bus.read_memory(0xFFFD), 0x01);
    assert_eq!(bus.read_memory(0xFFFC), 0x03);
    assert_eq!(cpu.pc, 0x1234);
    assert_eq!(cycles, 24);
}

#[test]
fn add_and_adc_flags_for_every_pair() {
    for a in 0..=255u16 {
        for b in 0..=255u16 {
            for c in 0..=1u16 {
                let mut cpu = Cpu::new();
                cpu.A = a as u8;
                cpu.F = if c == 1 { 0x10 } else { 0x00 };
                cpu.ADC(b as u8);
                let sum = a + b + c;
                assert_eq!(cpu.A, (sum & 0xFF) as u8);
                assert_eq!(cpu.get_z(), sum & 0xFF == 0);
                assert!(!cpu.get_n());
                assert_eq!(cpu.get_h(), (a & 0xF) + (b & 0xF) + c > 0xF);
                assert_eq!(cpu.get_c(), sum > 0xFF);
                assert_eq!(cpu.F & 0x0F, 0);
            }
            let mut cpu = Cpu::new();
            cpu.A = a as u8;
            cpu.F = 0x10;
            cpu.ADD(b as u8);
            let sum = a + b;
            assert_eq!(cpu.A, (sum & 0xFF) as u8);
            assert_eq!(cpu.get_z(), sum & 0xFF == 0);
            assert!(!cpu.get_n());
            assert_eq!(cpu.get_h(), (a & 0xF) + (b & 0xF) > 0xF);
            assert_eq!(cpu.get_c(), sum > 0xFF);
        }
    }
}

#[test]
fn sub_sbc_and_cp_flags_for_every_pair() {
    for a in 0..=255i32 {
        for b in 0..=255i32 {
            for c in 0..=1i32 {
                let mut cpu = Cpu::new();
                cpu.A = a as u8;
                cpu.F = if c == 1 { 0x10 } else { 0x00 };
                let result = cpu.SBC(b as u8);
                let difference = a - b - c;
                assert_eq!(result, (difference & 0xFF) as u8);
                assert_eq!(cpu.A, a as u8);
                assert_eq!(cpu.get_z(), difference & 0xFF == 0);
                assert!(cpu.get_n());
                assert_eq!(cpu.get_h(), (a & 0xF) - (b & 0xF) - c < 0);
                assert_eq!(cpu.get_c(), difference < 0);
            }
            let mut cpu = Cpu::new();
            cpu.A = a as u8;
            cpu.F = 0x10;
            let result = cpu.SUB(b as u8);
            assert_eq!(result, ((a - b) & 0xFF) as u8);
            assert_eq!(cpu.get_z(), a == b);
            assert!(cpu.get_n());
            assert_eq!(cpu.get_h(), (a & 0xF) < (b & 0xF));
            assert_eq!(cpu.get_c(), a < b);
            let mut cpu = Cpu::new();
            cpu.A = a as u8;
            cpu.F = 0x00;
            cpu.CP(b as u8);
            assert_eq!(cpu.A, a as u8);
            assert_eq!(cpu.get_z(), a == b);
            assert!(cpu.get_n());
            assert_eq!(cpu.get_h(), (a & 0xF) < (b & 0xF));
            assert_eq!(cpu.get_c(), a < b);
        }
    }
}

#[test]
fn logic_flags_for_every_pair() {
    for a in 0..=255u8 {
        for b in 0..=255u8 {
            let mut cpu = Cpu::new();
            cpu.A = a;
            cpu.F = 0xF0;
            cpu.AND(b);
            assert_eq!(cpu.A, a & b);
            assert_eq!(cpu.F, if a & b == 0 { 0xA0 } else { 0x20 });
            let mut cpu = Cpu::new();
            cpu.A = a;
            cpu.F = 0xF0;
            let or = cpu.OR(b);
            assert_eq!(or, a | b);
            assert_eq!(cpu.F, if a | b == 0 { 0x80 } else { 0x00 });
            let mut cpu = Cpu::new();
            cpu.A = a;
            cpu.F = 0xF0;
            let xor = cpu.XOR(b);
            assert_eq!(xor, a ^ b);
            assert_eq!(cpu.F, if a ^ b == 0 { 0x80 } else { 0x00 });
        }
    }
}

#[test]
fn inc_and_dec_keep_the_carry() {
    for v in 0..=255u8 {
        for carry in [false, true] {
            let mut cpu = Cpu::new();
            cpu.F = if carry { 0x10 } else { 0x00 };
            let up = cpu.INC(v);
            assert_eq!(up, v.wrapping_add(1));
            assert_eq!(cpu.get_z(), up == 0);
            assert!(!cpu.get_n());
            assert_eq!(cpu.get_h(), v & 0x0F == 0x0F);
            assert_eq!(cpu.get_c(), carry);
            let mut cpu = Cpu::new();
            cpu.F = if carry { 0x10 } else { 0x00 };
            let down = cpu.DEC(v);
            assert_eq!(down, v.wrapping_sub(1));
            assert_eq!(cpu.get_z(), down == 0);
            assert!(cpu.get_n());
            assert_eq!(cpu.get_h(), v & 0x0F == 0x00);
            assert_eq!(cpu.get_c(), carry);
        }
    }
    let mut cpu = Cpu::new();
    assert_eq!(cpu.INC_16bit(0xFFFF), 0x0000);
    assert_eq!(cpu.DEC_16bit(0x0000), 0xFFFF);
    assert_eq!(cpu.F, 0xB0);
}

#[test]
fn add_16bit_flags() {
    let mut cpu = Cpu::new();
    cpu.H = 0xFF;
    cpu.L = 0xFF;
    cpu.F = 0x80;
    cpu.ADD_16bit(0x0001);
    assert_eq!(cpu.get_HL(), 0x0000);
    assert_eq!(cpu.F, 0xB0);
    let mut cpu = Cpu::new();
    cpu.H = 0x0F;
    cpu.L = 0xFF;
    cpu.F = 0x00;
    cpu.ADD_16bit(0x0001);
    assert_eq!(cpu.get_HL(), 0x1000);
    assert_eq!(cpu.F, 0x20);
}

fn packed(n: u8) -> u8 {
    (n / 10) * 16 + n % 10
}

#[test]
fn daa_after_add_gives_the_decimal_sum() {
    for a in 0..=99u8 {
        for b in 0..=99u8 {
            let mut cpu = Cpu::new();
            cpu.A = packed(a);
            cpu.F = 0;
            cpu.ADD(packed(b));
            cpu.DAA();
            assert_eq!(cpu.A, packed((a + b) % 100));
            assert_eq!(cpu.get_c(), a + b > 99);
            assert!(!cpu.get_h());
            assert_eq!(cpu.get_z(), (a + b) % 100 == 0);
        }
    }
}

#[test]
fn daa_after_sub_gives_the_decimal_difference() {
    for a in 0..=99u8 {
        for b in 0..=a {
            let mut cpu = Cpu::new();
            cpu.A = packed(a);
            cpu.F = 0;
            cpu.A = cpu.SUB(packed(b));
            cpu.DAA();
            assert_eq!(cpu.A, packed(a - b));
            assert!(cpu.get_n());
        }
    }
}

#[test]
fn rotates_and_swap_undo_each_other() {
    for r in 0..=255u8 {
        let mut cpu = Cpu::new();
        let right = cpu.RRC(r);
        assert_eq!(cpu.RLC(right), r);
        let left = cpu.RLC(r);
        assert_eq!(cpu.RRC(left), r);
        let swapped = cpu.SWAP(r);
        assert_eq!(cpu.SWAP(swapped), r);
        for carry in [false, true] {
            let mut cpu = Cpu::new();
            cpu.set_c_to(carry);
            let through = cpu.RL(r);
            assert_eq!(cpu.RR(through), r);
            assert_eq!(cpu.get_c(), carry);
        }
    }
}

#[test]
fn rotate_and_shift_values_and_flags() {
    let mut cpu = Cpu::new();
    cpu.F = 0x00;
    assert_eq!(cpu.RLC(0x85), 0x0B);
    assert_eq!(cpu.F, 0x10);
    assert_eq!(cpu.RRC(0x01), 0x80);
    assert_eq!(cpu.F, 0x10);
    cpu.F = 0x00;
    assert_eq!(cpu.RL(0x80), 0x00);
    assert_eq!(cpu.F, 0x90);
    assert_eq!(cpu.RR(0x00), 0x80);
    assert_eq!(cpu.F, 0x00);
    assert_eq!(cpu.SLA(0xC1), 0x82);
    assert_eq!(cpu.F, 0x10);
    assert_eq!(cpu.SRA(0x81), 0xC0);
    assert_eq!(cpu.F, 0x10);
    assert_eq!(cpu.SRL(0x81), 0x40);
    assert_eq!(cpu.F, 0x10);
    assert_eq!(cpu.SWAP(0xA5), 0x5A);
    assert_eq!(cpu.F, 0x00);
    assert_eq!(cpu.SWAP(0x00), 0x00);
    assert_eq!(cpu.F, 0x80);
}

#[test]
fn bit_res_and_set() {
    let mut cpu = Cpu::new();
    cpu.F = 0x10;
    cpu.BIT(3, 0x08);
    assert_eq!(cpu.F, 0x30);
    cpu.BIT(3, 0xF7);
    assert_eq!(cpu.F, 0xB0);
    assert_eq!(cpu.RES(7, 0xFF), 0x7F);
    assert_eq!(cpu.SET(0, 0x00), 0x01);
    assert_eq!(cpu.F, 0xB0);
}

#[test]
fn flag_setters_clear_the_low_nibble() {
    let mut cpu = Cpu::new();
    cpu.F = 0x0F;
    cpu.set_z_to(true);
    assert_eq!(cpu.F, 0x80);
    cpu.set_n_to(true);
    assert_eq!(cpu.F, 0xC0);
    cpu.set_h_to(true);
    assert_eq!(cpu.F, 0xE0);
    cpu.set_c_to(true);
    assert_eq!(cpu.F, 0xF0);
    cpu.flip_z();
    assert_eq!(cpu.F, 0x70);
    cpu.flip_n();
    assert_eq!(cpu.F, 0x30);
    cpu.flip_h();
    assert_eq!(cpu.F, 0x10);
    cpu.flip_c();
    assert_eq!(cpu.F, 0x00);
    cpu.set_flags(true, false, true, false);
    assert_eq!(cpu.F, 0xA0);
    assert!(cpu.get_z() && !cpu.get_n() && cpu.get_h() && !cpu.get_c());
}

#[test]
fn register_pairs_are_big_endian() {
    let mut cpu = Cpu::new();
    cpu.A = 0x12;
    cpu.F = 0x30;
    cpu.B = 0x34;
    cpu.C = 0x56;
    cpu.D = 0x78;
    cpu.E = 0x9A;
    cpu.H = 0xBC;
    cpu.L = 0xDE;
    assert_eq!(cpu.get_AF(), 0x1230);
    assert_eq!(cpu.get_BC(), 0x3456);
    assert_eq!(cpu.get_DE(), 0x789A);
    assert_eq!(cpu.get_HL(), 0xBCDE);
}

#[test]
fn immediates_follow_the_program_counter() {
    let (cpu, bus) = machine(&[0x00, 0x34, 0x92]);
    assert_eq!(cpu.get_n8(&bus), 0x34);
    assert_eq!(cpu.get_e8(&bus), 0x34);
    assert_eq!(cpu.get_n16(&bus), 0x9234);
    assert_eq!(cpu.get_a16(&bus), 0x9234);
    assert_eq!(cpu.get_n16_bytes(&bus), [0x92, 0x34]);
    let (cpu, bus) = machine(&[0x00, 0xFE]);
    assert_eq!(cpu.get_e8(&bus), -2);
}

#[test]
fn push_and_pop_order_of_bytes() {
    let mut bus = DataBus::new();
    let mut cpu = Cpu::new();
    cpu.sp = 0xD000;
    cpu.PUSH(&mut bus, 0xABCD);
    assert_eq!(cpu.sp, 0xCFFE);
    assert_eq!(bus.read_memory(0xCFFF), 0xAB);
    assert_eq!(bus.read_memory(0xCFFE), 0xCD);
    assert_eq!(cpu.POP(&bus), (0xAB, 0xCD));
    assert_eq!(cpu.sp, 0xD000);
}

#[test]
fn pop_af_masks_the_low_nibble() {
    let (mut cpu, mut bus) = machine(&[0xF1]);
    cpu.sp = 0xD000;
    bus.write_memory(0xFF, 0xD000);
    bus.write_memory(0x12, 0xD001);
    let cycles = run(&mut cpu, &mut bus);
    assert_eq!(cpu.A, 0x12);
    assert_eq!(cpu.F, 0xF0);
    assert_eq!(cpu.sp, 0xD002);
    assert_eq!(cycles, 12);
}

#[test]
fn push_af_writes_both_bytes() {
    let (mut cpu, mut bus) = machine(&[0xF5]);
    cpu.sp = 0xD000;
    cpu.A = 0x9C;
    cpu.F = 0x50;
    let cycles = run(&mut cpu, &mut bus);
    assert_eq!(bus.read_memory(0xCFFF), 0x9C);
    assert_eq!(bus.read_memory(0xCFFE), 0x50);
    assert_eq!(cycles, 16);
}

#[test]
fn jr_adds_the_length_and_the_offset() {
    let (mut cpu, mut bus) = machine(&[0x18, 0x05]);
    assert_eq!(run(&mut cpu, &mut bus), 12);
    assert_eq!(cpu.pc, CODE + 7);
    let (mut cpu, mut bus) = machine(&[0x18, 0xFE]);
    run(&mut cpu, &mut bus);
    assert_eq!(cpu.pc, CODE);
}

#[test]
fn conditional_jumps_cost_less_when_not_taken() {
    let (mut cpu, mut bus) = machine(&[0x20, 0x10]);
    cpu.F = 0x80;
    assert_eq!(run(&mut cpu, &mut bus), 8);
    assert_eq!(cpu.pc, CODE + 2);
    let (mut cpu, mut bus) = machine(&[0x20, 0x10]);
    cpu.F = 0x00;
    assert_eq!(run(&mut cpu, &mut bus), 12);
    assert_eq!(cpu.pc, CODE + 0x12);
    let (mut cpu, mut bus) = machine(&[0xDA, 0x00, 0xD0]);
    cpu.F = 0x10;
    assert_eq!(run(&mut cpu, &mut bus), 16);
    assert_eq!(cpu.pc, 0xD000);
    let (mut cpu, mut bus) = machine(&[0xDA, 0x00, 0xD0]);
    cpu.F = 0x00;
    assert_eq!(run(&mut cpu, &mut bus), 12);
    assert_eq!(cpu.pc, CODE + 3);
    let (mut cpu, mut bus) = machine(&[0xC4, 0x00, 0xD0]);
    cpu.F = 0x80;
    cpu.sp = 0xDFF0;
    assert_eq!(run(&mut cpu, &mut bus), 12);
    assert_eq!((cpu.pc, cpu.sp), (CODE + 3, 0xDFF0));
    let (mut cpu, mut bus) = machine(&[0xC8]);
    cpu.F = 0x00;
    cpu.sp = 0xDFF0;
    assert_eq!(run(&mut cpu, &mut bus), 8);
    assert_eq!((cpu.pc, cpu.sp), (CODE + 1, 0xDFF0));
}

#[test]
fn jp_hl_and_ret_and_reti() {
    let (mut cpu, mut bus) = machine(&[0xE9]);
    cpu.H = 0x12;
    cpu.L = 0x34;
    assert_eq!(run(&mut cpu, &mut bus), 4);
    assert_eq!(cpu.pc, 0x1234);
    let (mut cpu, mut bus) = machine(&[0xC9]);
    cpu.sp = 0xD000;
    bus.write_memory(0x78, 0xD000);
    bus.write_memory(0x56, 0xD001);
    assert_eq!(run(&mut cpu, &mut bus), 16);
    assert_eq!((cpu.pc, cpu.sp), (0x5678, 0xD002));
    assert!(!cpu.IME);
    let (mut cpu, mut bus) = machine(&[0xD9]);
    cpu.sp = 0xD000;
    bus.write_memory(0x78, 0xD000);
    bus.write_memory(0x56, 0xD001);
    assert_eq!(run(&mut cpu, &mut bus), 16);
    assert_eq!((cpu.pc, cpu.sp), (0x5678, 0xD002));
    assert!(cpu.IME);
}

#[test]
fn rst_pushes_the_program_counter_itself() {
    let (mut cpu, mut bus) = machine(&[0xEF]);
    cpu.sp = 0xD000;
    assert_eq!(run(&mut cpu, &mut bus), 16);
    assert_eq!(cpu.pc, 0x0028);
    assert_eq!(cpu.sp, 0xCFFE);
    assert_eq!(bus.read_memory(0xCFFF), 0xC0);
    assert_eq!(bus.read_memory(0xCFFE), 0x00);
}

#[test]
fn loads_through_hl_move_hl() {
    let (mut cpu, mut bus) = machine(&[0x22, 0x3A]);
    cpu.A = 0x77;
    cpu.H = 0xD0;
    cpu.L = 0xFF;
    assert_eq!(run(&mut cpu, &mut bus), 8);
    assert_eq!(bus.read_memory(0xD0FF), 0x77);
    assert_eq!(cpu.get_HL(), 0xD100);
    bus.write_memory(0x99, 0xD100);
    assert_eq!(run(&mut cpu, &mut bus), 8);
    assert_eq!(cpu.A, 0x99);
    assert_eq!(cpu.get_HL(), 0xD0FF);
}

#[test]
fn loads_through_the_high_page() {
    let (mut cpu, mut bus) = machine(&[0xE0, 0x80, 0xE2, 0xF0, 0x81, 0xF2]);
    cpu.A = 0x5A;
    cpu.C = 0x81;
    assert_eq!(run(&mut cpu, &mut bus), 12);
    assert_eq!(bus.read_memory(0xFF80), 0x5A);
    cpu.A = 0xA5;
    assert_eq!(run(&mut cpu, &mut bus), 8);
    assert_eq!(bus.read_memory(0xFF81), 0xA5);
    cpu.A = 0;
    assert_eq!(run(&mut cpu, &mut bus), 12);
    assert_eq!(cpu.A, 0xA5);
    cpu.C = 0x80;
    assert_eq!(run(&mut cpu, &mut bus), 8);
    assert_eq!(cpu.A, 0x5A);
    assert_eq!(cpu.pc, CODE + 6);
}

#[test]
fn sixteen_bit_loads() {
    let (mut cpu, mut bus) = machine(&[0x01, 0x34, 0x12, 0x08, 0x00, 0xD0, 0xF9, 0xF8, 0xFF]);
    assert_eq!(run(&mut cpu, &mut bus), 12);
    assert_eq!(cpu.get_BC(), 0x1234);
    cpu.sp = 0xBEEF;
    assert_eq!(run(&mut cpu, &mut bus), 20);
    assert_eq!(bus.read_memory(0xD000), 0xEF);
    assert_eq!(bus.read_memory(0xD001), 0xBE);
    cpu.H = 0x00;
    cpu.L = 0x0F;
    assert_eq!(run(&mut cpu, &mut bus), 8);
    assert_eq!(cpu.sp, 0x000F);
    cpu.F = 0xF0;
    assert_eq!(run(&mut cpu, &mut bus), 12);
    assert_eq!(cpu.get_HL(), 0x000E);
    assert_eq!(cpu.F, 0x30);
}

#[test]
fn add_sp_offset_uses_the_low_byte_for_flags() {
    let (mut cpu, mut bus) = machine(&[0xE8, 0x01]);
    cpu.sp = 0x00FF;
    cpu.F = 0xC0;
    assert_eq!(run(&mut cpu, &mut bus), 16);
    assert_eq!(cpu.sp, 0x0100);
    assert_eq!(cpu.F, 0x30);
    let (mut cpu, mut bus) = machine(&[0xE8, 0xFF]);
    cpu.sp = 0x0000;
    run(&mut cpu, &mut bus);
    assert_eq!(cpu.sp, 0xFFFF);
    assert_eq!(cpu.F, 0x00);
}

#[test]
fn increments_of_pairs_and_memory() {
    let (mut cpu, mut bus) = machine(&[0x03, 0x34, 0x35, 0x3B]);
    cpu.B = 0x00;
    cpu.C = 0xFF;
    cpu.F = 0xF0;
    assert_eq!(run(&mut cpu, &mut bus), 8);
    assert_eq!(cpu.get_BC(), 0x0100);
    assert_eq!(cpu.F, 0xF0);
    cpu.H = 0xD0;
    cpu.L = 0x00;
    bus.write_memory(0xFF, 0xD000);
    assert_eq!(run(&mut cpu, &mut bus), 12);
    assert_eq!(bus.read_memory(0xD000), 0x00);
    assert_eq!(cpu.F, 0xB0);
    assert_eq!(run(&mut cpu, &mut bus), 12);
    assert_eq!(bus.read_memory(0xD000), 0xFF);
    assert_eq!(cpu.F, 0x70);
    cpu.sp = 0x0000;
    assert_eq!(run(&mut cpu, &mut bus), 8);
    assert_eq!(cpu.sp, 0xFFFF);
}

#[test]
fn accumulator_rotates_clear_zero() {
    let (mut cpu, mut bus) = machine(&[0x07, 0x17, 0x0F, 0x1F]);
    cpu.A = 0x80;
    cpu.F = 0x80;
    assert_eq!(run(&mut cpu, &mut bus), 4);
    assert_eq!((cpu.A, cpu.F), (0x01, 0x10));
    cpu.A = 0x80;
    cpu.F = 0x00;
    run(&mut cpu, &mut bus);
    assert_eq!((cpu.A, cpu.F), (0x00, 0x10));
    cpu.A = 0x01;
    run(&mut cpu, &mut bus);
    assert_eq!((cpu.A, cpu.F), (0x80, 0x10));
    cpu.A = 0x00;
    run(&mut cpu, &mut bus);
    assert_eq!((cpu.A, cpu.F), (0x80, 0x00));
}

#[test]
fn complement_and_carry_instructions() {
    let (mut cpu, mut bus) = machine(&[0x2F, 0x37, 0x3F, 0x3F]);
    cpu.A = 0x35;
    cpu.F = 0x80;
    run(&mut cpu, &mut bus);
    assert_eq!((cpu.A, cpu.F), (0xCA, 0xE0));
    run(&mut cpu, &mut bus);
    assert_eq!(cpu.F, 0x90);
    run(&mut cpu, &mut bus);
    assert_eq!(cpu.F, 0x80);
    run(&mut cpu, &mut bus);
    assert_eq!(cpu.F, 0x90);
}

#[test]
fn prefixed_instructions_take_two_bytes() {
    let (mut cpu, mut bus) = machine(&[0xCB, 0x37, 0xCB, 0x7E, 0xCB, 0x86, 0xCB, 0xFE, 0xCB, 0x3F]);
    cpu.A = 0xF1;
    assert_eq!(run(&mut cpu, &mut bus), 8);
    assert_eq!(cpu.A, 0x1F);
    assert_eq!(cpu.pc, CODE + 2);
    cpu.H = 0xD0;
    cpu.L = 0x00;
    bus.write_memory(0x81, 0xD000);
    cpu.F = 0x10;
    assert_eq!(run(&mut cpu, &mut bus), 12);
    assert_eq!(cpu.F, 0x30);
    assert_eq!(run(&mut cpu, &mut bus), 16);
    assert_eq!(bus.read_memory(0xD000), 0x80);
    bus.write_memory(0x00, 0xD000);
    assert_eq!(run(&mut cpu, &mut bus), 16);
    assert_eq!(bus.read_memory(0xD000), 0x80);
    cpu.A = 0x01;
    assert_eq!(run(&mut cpu, &mut bus), 8);
    assert_eq!((cpu.A, cpu.F), (0x00, 0x90));
    assert_eq!(cpu.pc, CODE + 10);
}

#[test]
fn prefixed_byte_alone() {
    let (mut cpu, mut bus) = machine(&[]);
    cpu.B = 0x0F;
    let cycles = cpu.exec_prefixed_instruction(&mut bus, 0x30);
    assert_eq!(cycles, 4);
    assert_eq!(cpu.B, 0xF0);
    assert_eq!(cpu.pc, CODE + 1);
}

#[test]
fn enable_takes_effect_after_the_next_instruction() {
    let (mut cpu, mut bus) = machine(&[0xFB, 0x00, 0xF3, 0xFB, 0xF3]);
    run(&mut cpu, &mut bus);
    assert!(!cpu.IME && cpu.IME_pending);
    run(&mut cpu, &mut bus);
    assert!(cpu.IME && !cpu.IME_pending);
    run(&mut cpu, &mut bus);
    assert!(!cpu.IME);
    run(&mut cpu, &mut bus);
    run(&mut cpu, &mut bus);
    assert!(!cpu.IME && !cpu.IME_pending);
}

#[test]
fn halt_needs_the_master_enable() {
    let (mut cpu, mut bus) = machine(&[0x76, 0x76]);
    cpu.IME = false;
    assert_eq!(run(&mut cpu, &mut bus), 4);
    assert!(!cpu.is_halted);
    cpu.IME = true;
    run(&mut cpu, &mut bus);
    assert!(cpu.is_halted);
}

#[test]
fn undefined_opcode_runs_as_one_byte_and_is_counted() {
    let (mut cpu, mut bus) = machine(&[0xD3]);
    let before = cpu;
    assert_eq!(run(&mut cpu, &mut bus), 4);
    assert_eq!(cpu.pc, CODE + 1);
    assert_eq!(cpu.decode_faults, 1);
    assert_eq!((cpu.A, cpu.F, cpu.sp), (before.A, before.F, before.sp));
    cpu.decode_faults = u32::MAX;
    cpu.pc = CODE;
    run(&mut cpu, &mut bus);
    assert_eq!(cpu.decode_faults, u32::MAX);
}

#[test]
fn lowest_pending_interrupt_is_accepted() {
    let mut bus = DataBus::new();
    let mut cpu = Cpu::new();
    bus.write_memory(0x1F, 0xFFFF);
    bus.write_memory(0x14, 0xFF0F);
    cpu.IME = true;
    cpu.sp = 0xD000;
    cpu.pc = 0x1234;
    let cycles = cpu.service_interrupts(&mut bus);
    assert_eq!(cycles, 20);
    assert!(!cpu.IME);
    assert_eq!(bus.read_memory(0xFF0F), 0x10);
    assert_eq!(cpu.sp, 0xCFFE);
    assert_eq!(cpu.pc, 0x0050);
    assert_eq!(bus.read_memory(0xCFFF), 0x12);
    assert_eq!(bus.read_memory(0xCFFE), 0x34);
}

#[test]
fn lcd_interrupt_goes_before_joypad() {
    let mut bus = DataBus::new();
    let mut cpu = Cpu::new();
    bus.write_memory(0x1F, 0xFFFF);
    bus.write_memory(0x12, 0xFF0F);
    cpu.IME = true;
    cpu.sp = 0xD000;
    assert_eq!(cpu.service_interrupts(&mut bus), 20);
    assert_eq!(bus.read_memory(0xFF0F), 0x10);
    assert_eq!(cpu.sp, 0xCFFE);
    assert_eq!(cpu.pc, 0x0048);
}

#[test]
fn every_interrupt_vector() {
    for source in 0..5u8 {
        let mut bus = DataBus::new();
        let mut cpu = Cpu::new();
        bus.write_memory(0xFF, 0xFFFF);
        bus.write_memory(0xE0 | (1 << source), 0xFF0F);
        cpu.IME = true;
        assert_eq!(cpu.service_interrupts(&mut bus), 20);
        assert_eq!(cpu.pc, 0x40 + 8 * source as u16);
        assert_eq!(bus.read_memory(0xFF0F), 0xE0);
    }
}

#[test]
fn interrupts_wait_for_enable_and_request() {
    let mut bus = DataBus::new();
    let mut cpu = Cpu::new();
    bus.write_memory(0x1F, 0xFFFF);
    bus.write_memory(0x01, 0xFF0F);
    cpu.IME = false;
    assert_eq!(cpu.service_interrupts(&mut bus), 0);
    assert_eq!((cpu.pc, cpu.sp), (0x0100, 0xFFFE));
    assert_eq!(bus.read_memory(0xFF0F), 0x01);
    cpu.IME = true;
    bus.write_memory(0x1E, 0xFFFF);
    assert_eq!(cpu.service_interrupts(&mut bus), 0);
    assert!(cpu.IME);
    bus.write_memory(0xE0, 0xFF0F);
    bus.write_memory(0xFF, 0xFFFF);
    assert_eq!(cpu.service_interrupts(&mut bus), 0);
}

#[test]
fn pushed_word_is_on_top_of_the_stack() {
    for sp in [0xC002u16, 0xD123, 0xDE00, 0xFF82, 0xFFFE, 0xFFFF] {
        for value in [0x0000u16, 0x1234, 0xFF00, 0x00FF, 0xFFFF] {
            let mut bus = DataBus::new();
            let mut cpu = Cpu::new();
            cpu.sp = sp;
            cpu.PUSH(&mut bus, value);
            assert_eq!(cpu.sp, sp - 2);
            let (msb, lsb) = cpu.POP(&bus);
            assert_eq!(((msb as u16) << 8) | lsb as u16, value);
            assert_eq!(cpu.sp, sp);
        }
    }
}

#[test]
fn stack_pointer_wraps() {
    let mut bus = DataBus::new();
    let mut cpu = Cpu::new();
    cpu.sp = 0x0001;
    cpu.PUSH(&mut bus, 0xBEEF);
    assert_eq!(cpu.sp, 0xFFFF);
    assert_eq!(bus.read_memory(0xFFFF), 0xEF);
    cpu.sp = 0xFFFF;
    let (_, lsb) = cpu.POP(&bus);
    assert_eq!(lsb, 0xEF);
    assert_eq!(cpu.sp, 0x0001);
}

#[test]
fn every_opcode_costs_what_its_row_says() {
    for opcode in 0..=255u8 {
        for flags in [0x00u8, 0xF0] {
            let (mut cpu, mut bus) = machine(&[opcode, 0x10, 0xD0]);
            cpu.F = flags;
            cpu.sp = 0xD800;
            cpu.H = 0xD0;
            cpu.L = 0x00;
            let row = decode(opcode);
            let cycles = cpu.exec_instruction(&mut bus, opcode);
            if row.mnemonic == Mnemonic::PREFIX {
                assert_eq!(cycles, 4 + decode_prefixed(0x10).cycles);
                assert_eq!(cpu.pc, CODE + 2);
            } else {
                assert!(cycles == cycles_of(&row, true) || cycles == cycles_of(&row, false));
                let jumps = matches!(
                    row.mnemonic,
                    Mnemonic::JP | Mnemonic::JR | Mnemonic::CALL | Mnemonic::RET | Mnemonic::RETI | Mnemonic::RST
                );
                if !jumps {
                    assert_eq!(cpu.pc, CODE + row.length as u16);
                }
            }
        }
    }
}
