use gameooy::apu::{Apu, Channel};
use gameooy::cartridge::{parse_header, CartridgeError, CartridgeHeader};
use gameooy::databus::MbcKind;
use gameooy::gameboy::GameBoy;
use gameooy::memory::Memory;

fn image(kind: u8, rom_code: u8, ram_code: u8, len: usize) -> Vec<u8> {
    let mut bytes = vec![0u8; len];
    if len > 0x149 {
        bytes[0x147] = kind;
        bytes[0x148] = rom_code;
        bytes[0x149] = ram_code;
    }
    bytes
}

#[test]
fn header_of_every_supported_cartridge_type() {
    for (code, kind) in [
        (0x00u8, MbcKind::RomOnly),
        (0x01, MbcKind::Mbc1),
        (0x02, MbcKind::Mbc1),
        (0x03, MbcKind::Mbc1),
        (0x05, MbcKind::Mbc2),
        (0x06, MbcKind::Mbc2),
        (0x08, MbcKind::RomOnly),
        (0x0D, MbcKind::RomOnly),
    ] {
        let parsed = parse_header(&image(code, 0, 0, 0x8000));
        assert_eq!(parsed, Ok(CartridgeHeader { kind, rom_banks: 2, ram_banks: 0 }));
    }
}

#[test]
fn header_sizes() {
    for code in 0..=8u8 {
        let parsed = parse_header(&image(0x01, code, 0, 0x150)).unwrap();
        assert_eq!(parsed.rom_banks, 2u32 << code);
    }
    for (code, banks) in [(0u8, 0u8), (1, 0), (2, 1), (3, 4), (4, 16), (5, 8)] {
        let parsed = parse_header(&image(0x01, 0, code, 0x150)).unwrap();
        assert_eq!(parsed.ram_banks, banks);
    }
}

#[test]
fn header_errors() {
    assert_eq!(parse_header(&image(0, 0, 0, 0)), Err(CartridgeError::Truncated));
    assert_eq!(parse_header(&image(0, 0, 0, 0x149)), Err(CartridgeError::Truncated));
    assert!(parse_header(&image(0, 0, 0, 0x14A)).is_ok());
    for code in [0x04u8, 0x07, 0x0E, 0x0F, 0x19, 0xFF] {
        assert_eq!(parse_header(&image(code, 0, 0, 0x150)), Err(CartridgeError::UnsupportedController));
    }
    assert_eq!(parse_header(&image(0x01, 9, 0, 0x150)), Err(CartridgeError::UnsupportedRomSize));
    assert_eq!(parse_header(&image(0x01, 0xFF, 0, 0x150)), Err(CartridgeError::UnsupportedRomSize));
    assert_eq!(parse_header(&image(0x01, 0, 6, 0x150)), Err(CartridgeError::UnsupportedRamSize));
    assert_eq!(parse_header(&image(0xFF, 9, 6, 0x150)), Err(CartridgeError::UnsupportedController));
    assert_eq!(parse_header(&image(0x01, 9, 6, 0x150)), Err(CartridgeError::UnsupportedRomSize));
}

#[test]
fn refused_image_leaves_the_machine_alone() {
    let mut gameboy = GameBoy::new();
    assert_eq!(gameboy.load_rom(&image(0x04, 0, 0, 0x8000)), Err(CartridgeError::UnsupportedController));
    assert_eq!(gameboy.load_rom(&vec![0u8; 16]), Err(CartridgeError::Truncated));
    assert_eq!(gameboy.databus().read_memory(0x0147), 0x00);
    assert_eq!(gameboy.databus().current_rom_bank(), 1);
}

#[test]
fn image_is_loaded_into_memory_and_banks() {
    let mut bytes = image(0x01, 1, 2, 0x10000);
    for (i, byte) in bytes.iter_mut().enumerate() {
        if !(0x147..=0x149).contains(&i) {
            *byte = (i % 253) as u8 ^ (i >> 14) as u8;
        }
    }
    let mut gameboy = GameBoy::new();
    assert_eq!(gameboy.load_rom(&bytes), Ok(()));
    let bus = gameboy.databus();
    for addr in [0x0000usize, 0x0100, 0x0147, 0x3FFF, 0x4000, 0x7FFF] {
        assert_eq!(bus.read_memory(addr as u16), bytes[addr]);
    }
    assert_eq!(bus.read_memory(0x8000), 0x00);
    assert_eq!(bus.current_rom_bank(), 1);
    assert!(!bus.ram_enabled());
}

#[test]
fn short_image_is_loaded_as_far_as_it_goes() {
    let mut bytes = image(0x00, 0, 0, 0x200);
    bytes[0x1FF] = 0x77;
    let mut gameboy = GameBoy::new();
    assert_eq!(gameboy.load_rom(&bytes), Ok(()));
    assert_eq!(gameboy.databus().read_memory(0x01FF), 0x77);
    assert_eq!(gameboy.databus().read_memory(0x0200), 0x00);
}

#[test]
fn one_update_is_one_frame() {
    let mut gameboy = GameBoy::new();
    gameboy.update();
    assert_eq!(gameboy.ppu().frames_presented(), 1);
    assert_eq!(gameboy.cycles_this_frame(), 0);
    assert_eq!(gameboy.cpu().pc, 0x0100 + (70224u32 / 4) as u16);
    assert_eq!(gameboy.databus().read_memory(0xFF44), 0);
    assert_eq!(gameboy.databus().read_memory(0xFF0F) & 0x01, 0x01);
    assert_eq!(gameboy.databus().read_memory(0xFF04), (70224 / 256) as u8);
    gameboy.update();
    assert_eq!(gameboy.ppu().frames_presented(), 2);
}

fn program(code: &[u8]) -> Vec<u8> {
    let mut bytes = image(0x00, 0, 0, 0x8000);
    bytes[0x150..0x150 + code.len()].copy_from_slice(code);
    // Entry point: jump to 0x0150.
    bytes[0x100] = 0xC3;
    bytes[0x101] = 0x50;
    bytes[0x102] = 0x01;
    // Interrupt handlers: count in high memory and return.
    for (vector, counter) in [(0x40usize, 0x80u8), (0x50, 0x81), (0x60, 0x82)] {
        let handler = [0xF5, 0xF0, counter, 0x3C, 0xE0, counter, 0xF1, 0xD9];
        bytes[vector..vector + handler.len()].copy_from_slice(&handler);
    }
    bytes
}

#[test]
fn vertical_blank_interrupt_wakes_a_halted_processor() {
    // LD A,1; LDH [FF],A; XOR A; LDH [0F],A; EI; HALT; JR -3
    let code = [0x3E, 0x01, 0xE0, 0xFF, 0xAF, 0xE0, 0x0F, 0xFB, 0x76, 0x18, 0xFD];
    let mut gameboy = GameBoy::new();
    assert_eq!(gameboy.load_rom(&program(&code)), Ok(()));
    for frame in 1..=3u8 {
        gameboy.update();
        assert_eq!(gameboy.databus().read_memory(0xFF80), frame);
    }
    assert_eq!(gameboy.databus().read_memory(0xFF81), 0);
    assert_eq!(gameboy.ppu().frames_presented(), 3);
}

#[test]
fn timer_interrupt_is_served_by_a_running_program() {
    // LD A,4; LDH [FF],A; XOR A; LDH [0F],A; LDH [05],A; LDH [06],A; LD A,5; LDH [07],A; EI; JR -2
    let code = [
        0x3E, 0x04, 0xE0, 0xFF, 0xAF, 0xE0, 0x0F, 0xE0, 0x05, 0xE0, 0x06, 0x3E, 0x05, 0xE0, 0x07,
        0xFB, 0x18, 0xFE,
    ];
    let mut gameboy = GameBoy::new();
    assert_eq!(gameboy.load_rom(&program(&code)), Ok(()));
    gameboy.update();
    let served = gameboy.databus().read_memory(0xFF81);
    assert!((15..=18).contains(&served));
    assert_eq!(gameboy.databus().read_memory(0xFF80), 0);
}

#[test]
fn key_press_interrupts_when_its_row_is_selected() {
    let mut gameboy = GameBoy::new();
    assert_eq!(gameboy.databus().joypad_selection(), 0x00);
    let clear = |gameboy: &GameBoy| gameboy.databus().read_memory(0xFF0F) & 0x10;
    assert_eq!(clear(&gameboy), 0x00);
    gameboy.key_pressed(2);
    assert_eq!(gameboy.databus().joypad_state(), 0xFB);
    assert_eq!(clear(&gameboy), 0x10);
    gameboy.key_released(2);
    assert_eq!(gameboy.databus().joypad_state(), 0xFF);
    gameboy.key_pressed(7);
    assert_eq!(gameboy.databus().joypad_state(), 0x7F);
    gameboy.key_released(7);
    gameboy.key_released(7);
    assert_eq!(gameboy.databus().joypad_state(), 0xFF);
}

#[test]
fn held_key_does_not_interrupt_again() {
    // LD A,3; LDH [00],A; XOR A; LDH [0F],A; JR -2: deselect both rows, clear requests.
    let code = [0x3E, 0x03, 0xE0, 0x00, 0xAF, 0xE0, 0x0F, 0x18, 0xFE];
    let mut gameboy = GameBoy::new();
    assert_eq!(gameboy.load_rom(&program(&code)), Ok(()));
    gameboy.update();
    assert_eq!(gameboy.databus().joypad_selection(), 0x30);
    let before = gameboy.databus().read_memory(0xFF0F) & 0x10;
    assert_eq!(before, 0);
    gameboy.key_pressed(0);
    gameboy.key_pressed(5);
    assert_eq!(gameboy.databus().read_memory(0xFF0F) & 0x10, 0);
    assert_eq!(gameboy.databus().joypad_state(), 0b1101_1110);
}

#[test]
fn selected_rows_decide_which_keys_interrupt() {
    for (select, key, interrupts) in [
        (0x02u8, 1u8, true),
        (0x02, 4, false),
        (0x01, 1, false),
        (0x01, 4, true),
        (0x00, 3, true),
        (0x00, 6, true),
    ] {
        // LD A,select; LDH [00],A; XOR A; LDH [0F],A; JR -2
        let code = [0x3E, select, 0xE0, 0x00, 0xAF, 0xE0, 0x0F, 0x18, 0xFE];
        let mut gameboy = GameBoy::new();
        assert_eq!(gameboy.load_rom(&program(&code)), Ok(()));
        gameboy.update();
        gameboy.key_pressed(key);
        assert_eq!(gameboy.databus().read_memory(0xFF0F) & 0x10 != 0, interrupts);
        let requested = gameboy.databus().read_memory(0xFF0F);
        gameboy.key_pressed(key);
        assert_eq!(gameboy.databus().read_memory(0xFF0F), requested);
    }
}

#[test]
fn start_up_program_is_replaced_at_the_entry_point() {
    let mut bytes = image(0x00, 0, 0, 0x8000);
    for i in 0..0x100 {
        bytes[i] = 0xA0 ^ i as u8;
    }
    bytes[0x100] = 0x18;
    bytes[0x101] = 0xFE;
    let boot: Vec<u8> = (0..0x100).map(|i| 0x0B ^ i as u8).collect();
    let mut gameboy = GameBoy::new();
    assert_eq!(gameboy.load_rom(&bytes), Ok(()));
    gameboy.load_boot_rom(&boot);
    assert_eq!(gameboy.databus().read_memory(0x0000), 0x0B);
    assert_eq!(gameboy.databus().read_memory(0x00FF), 0x0B ^ 0xFF);
    assert_eq!(gameboy.databus().read_memory(0x0100), 0x18);
    gameboy.update();
    for i in 0..0x100u16 {
        assert_eq!(gameboy.databus().read_memory(i), 0xA0 ^ i as u8);
    }
    assert_eq!(gameboy.cpu().pc, 0x0100);
}

#[test]
fn undefined_opcodes_are_counted_and_skipped() {
    let code = [0xD3, 0xE3, 0x18, 0xFE];
    let mut gameboy = GameBoy::new();
    assert_eq!(gameboy.load_rom(&program(&code)), Ok(()));
    gameboy.update();
    assert_eq!(gameboy.cpu().decode_faults, 2);
    assert_eq!(gameboy.cpu().pc, 0x0152);
}

#[test]
fn bare_memory_is_zeroed() {
    let memory = Memory::new();
    assert_eq!(memory.entire_memory.len(), 65535);
    assert!(memory.entire_memory.iter().all(|b| *b == 0));
}

#[test]
fn sound_unit_has_four_channels() {
    let apu = Apu::new();
    assert_eq!(apu, Apu { CH1: Channel, CH2: Channel, CH3: Channel, CH4: Channel });
}
