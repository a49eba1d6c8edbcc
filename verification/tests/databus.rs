use gameooy::databus::{DataBus, MbcKind};

fn image(banks: usize) -> Vec<u8> {
    (0..banks * 0x4000).map(|i| ((i >> 14) as u8).wrapping_mul(16).wrapping_add((i % 251) as u8)).collect()
}

fn cartridge(kind: MbcKind, rom_banks: u32, ram_banks: u8) -> (DataBus, Vec<u8>) {
    let mut bus = DataBus::new();
    bus.insert_cartridge(kind, rom_banks, ram_banks);
    let bytes = image(rom_banks as usize);
    for (i, byte) in bytes.iter().enumerate() {
        bus.load_rom(i, *byte);
    }
    (bus, bytes)
}

#[test]
fn power_on_registers_of_the_bus() {
    let bus = DataBus::new();
    assert_eq!(bus.read_memory(0xFF02), 0x7E);
    assert_eq!(bus.read_memory(0xFF06), 0xAB);
    assert_eq!(bus.read_memory(0xFF07), 0xFF);
    assert_eq!(bus.read_memory(0xFF0F), 0xE1);
    assert_eq!(bus.read_memory(0xFF26), 0xF1);
    assert_eq!(bus.read_memory(0xFF40), 0x91);
    assert_eq!(bus.read_memory(0xFF41), 0x85);
    assert_eq!(bus.read_memory(0xFF47), 0xFC);
    assert_eq!(bus.read_memory(0xFF44), 0x00);
    assert_eq!(bus.read_memory(0xFFFF), 0x00);
    assert_eq!(bus.read_memory(0xC000), 0x00);
    assert_eq!(bus.current_rom_bank(), 1);
    assert_eq!(bus.current_ram_bank(), 0);
    assert_eq!(bus.banking_mode(), 1);
    assert_eq!(bus.joypad_state(), 0xFF);
    assert!(!bus.ram_enabled());
}

#[test]
fn ram_enable_latch_on_the_first_controller() {
    for latch in [0x0000u16, 0x0100, 0x1234, 0x1FFF] {
        let (mut bus, _) = cartridge(MbcKind::Mbc1, 4, 1);
        bus.write_memory(0x2A, latch);
        assert!(bus.ram_enabled());
        bus.write_memory(0x5C, 0xA123);
        assert_eq!(bus.read_memory(0xA123), 0x5C);
        bus.write_memory(0x00, latch);
        assert!(!bus.ram_enabled());
        for window in [0xA000u16, 0xA123, 0xBFFF] {
            assert_eq!(bus.read_memory(window), 0xFF);
        }
        bus.write_memory(0x77, 0xA123);
        bus.write_memory(0x0A, latch);
        assert_eq!(bus.read_memory(0xA123), 0x5C);
    }
}

#[test]
fn ram_enable_needs_a_controller_and_ram() {
    let (mut bus, _) = cartridge(MbcKind::RomOnly, 2, 1);
    bus.write_memory(0x0A, 0x0000);
    assert!(!bus.ram_enabled());
    let (mut bus, _) = cartridge(MbcKind::Mbc1, 2, 0);
    bus.write_memory(0x0A, 0x0000);
    assert!(!bus.ram_enabled());
}

#[test]
fn second_controller_ignores_latch_writes_with_bit_eight() {
    let (mut bus, _) = cartridge(MbcKind::Mbc2, 4, 1);
    bus.write_memory(0x0A, 0x0100);
    assert!(!bus.ram_enabled());
    bus.write_memory(0x0A, 0x0000);
    assert!(bus.ram_enabled());
    bus.write_memory(0x00, 0x1100);
    assert!(bus.ram_enabled());
    bus.write_memory(0x1F, 0x2000);
    assert_eq!(bus.current_rom_bank(), 0x0F);
    bus.write_memory(0x10, 0x2000);
    assert_eq!(bus.current_rom_bank(), 1);
}

#[test]
fn bank_zero_selects_bank_one() {
    let (mut bus, bytes) = cartridge(MbcKind::Mbc1, 4, 0);
    bus.write_memory(0x02, 0x2000);
    assert_eq!(bus.current_rom_bank(), 2);
    bus.write_memory(0x00, 0x2000);
    assert_eq!(bus.current_rom_bank(), 1);
    assert_eq!(bus.read_memory(0x4000), bytes[0x4000]);
    assert_eq!(bus.read_memory(0x7FFF), bytes[0x7FFF]);
}

#[test]
fn switchable_window_shows_the_selected_bank() {
    let (mut bus, bytes) = cartridge(MbcKind::Mbc1, 8, 0);
    for bank in 1..8usize {
        bus.write_memory(bank as u8, 0x2100);
        assert_eq!(bus.current_rom_bank(), bank as u8);
        for offset in [0usize, 1, 0x1234, 0x3FFF] {
            assert_eq!(bus.read_memory(0x4000 + offset as u16), bytes[bank * 0x4000 + offset]);
        }
        assert_eq!(bus.read_memory(0x0150), bytes[0x0150]);
    }
    bus.write_memory(0x1F, 0x2000);
    assert_eq!(bus.current_rom_bank(), 0x1F);
    assert_eq!(bus.read_memory(0x4000), 0xFF);
}

#[test]
fn rom_bank_number_keeps_its_top_bits() {
    let (mut bus, _) = cartridge(MbcKind::Mbc1, 64, 4);
    assert_eq!(bus.banking_mode(), 1);
    bus.write_memory(0x05, 0x2000);
    bus.write_memory(0x20, 0x4000);
    assert_eq!(bus.current_rom_bank(), 0x25);
    bus.write_memory(0x03, 0x3FFF);
    assert_eq!(bus.current_rom_bank(), 0x23);
    bus.write_memory(0x00, 0x4000);
    assert_eq!(bus.current_rom_bank(), 0x03);
    bus.write_memory(0x00, 0x6000);
    assert_eq!(bus.banking_mode(), 0);
    bus.write_memory(0x07, 0x5FFF);
    assert_eq!(bus.current_ram_bank(), 3);
    assert_eq!(bus.current_rom_bank(), 0x03);
    bus.write_memory(0xFF, 0x7FFF);
    assert_eq!(bus.banking_mode(), 1);
}

#[test]
fn top_bits_need_more_than_thirty_two_banks() {
    let (mut bus, _) = cartridge(MbcKind::Mbc1, 32, 0);
    bus.write_memory(0x20, 0x4000);
    assert_eq!(bus.current_rom_bank(), 1);
}

#[test]
fn ram_banks_are_separate() {
    let (mut bus, _) = cartridge(MbcKind::Mbc1, 4, 4);
    bus.write_memory(0x0A, 0x0000);
    bus.write_memory(0x00, 0x6000);
    for bank in 0..4u8 {
        bus.write_memory(bank, 0x4000);
        bus.write_memory(0x10 + bank, 0xA000);
    }
    for bank in 0..4u8 {
        bus.write_memory(bank, 0x4000);
        assert_eq!(bus.read_memory(0xA000), 0x10 + bank);
    }
}

#[test]
fn ram_bank_past_the_end_reads_open() {
    let (mut bus, _) = cartridge(MbcKind::Mbc1, 4, 1);
    bus.write_memory(0x0A, 0x0000);
    bus.write_memory(0x00, 0x6000);
    bus.write_memory(0x01, 0x4000);
    bus.write_memory(0x33, 0xA000);
    assert_eq!(bus.read_memory(0xA000), 0xFF);
    bus.write_memory(0x00, 0x4000);
    assert_eq!(bus.read_memory(0xA000), 0x00);
}

#[test]
fn echo_mirrors_work_ram() {
    let mut bus = DataBus::new();
    bus.write_memory(0xAB, 0xC050);
    assert_eq!(bus.read_memory(0xE050), 0xAB);
    bus.write_memory(0x77, 0xE060);
    assert_eq!(bus.read_memory(0xC060), 0x77);
    assert_eq!(bus.read_memory(0xE060), 0x77);
    bus.write_memory(0x11, 0xDDFF);
    assert_eq!(bus.read_memory(0xFDFF), 0x11);
    bus.write_memory(0x22, 0xE000);
    assert_eq!(bus.read_memory(0xC000), 0x22);
}

#[test]
fn dma_copies_into_the_sprite_table() {
    let mut bus = DataBus::new();
    for i in 0..0xA0u16 {
        bus.write_memory((i as u8) ^ 0x5A, 0xC200 + i);
    }
    bus.write_memory(0xEE, 0xC2A0);
    bus.write_memory(0xC2, 0xFF46);
    for i in 0..0xA0u16 {
        assert_eq!(bus.read_memory(0xFE00 + i), (i as u8) ^ 0x5A);
        assert_eq!(bus.read_memory(0xC200 + i), (i as u8) ^ 0x5A);
    }
    assert_eq!(bus.read_memory(0xFEA0), 0xFF);
    assert_eq!(bus.read_memory(0xFF46), 0xFF);
}

#[test]
fn dma_from_the_cartridge() {
    let (mut bus, bytes) = cartridge(MbcKind::Mbc1, 4, 0);
    bus.write_memory(0x03, 0x2000);
    bus.write_memory(0x40, 0xFF46);
    for i in 0..0xA0usize {
        assert_eq!(bus.read_memory(0xFE00 + i as u16), bytes[3 * 0x4000 + i]);
    }
}

#[test]
fn prohibited_range_discards_writes() {
    let mut bus = DataBus::new();
    assert_eq!(bus.address_faults(), 0);
    for addr in [0xFEA0u16, 0xFEC3, 0xFEFF] {
        assert_eq!(bus.read_memory(addr), 0xFF);
        bus.write_memory(0x12, addr);
        assert_eq!(bus.read_memory(addr), 0xFF);
    }
    assert_eq!(bus.address_faults(), 3);
    bus.load_boot_rom(0xFEA0, 0x12);
    assert_eq!(bus.read_memory(0xFEA0), 0xFF);
    bus.write_memory(0x12, 0xFE9F);
    assert_eq!(bus.read_memory(0xFE9F), 0x12);
    assert_eq!(bus.address_faults(), 3);
}

#[test]
fn joypad_register_shows_the_selected_row() {
    let mut bus = DataBus::new();
    bus.set_joypad_state(0b1010_0110);
    assert_eq!(bus.joypad_state(), 0xA6);
    bus.write_memory(0x03, 0xFF00);
    assert_eq!(bus.joypad_selection(), 0x30);
    assert_eq!(bus.read_memory(0xFF00), 0x0F);
    bus.write_memory(0x02, 0xFF00);
    assert_eq!(bus.joypad_selection(), 0x20);
    assert_eq!(bus.read_memory(0xFF00), 0x26);
    bus.write_memory(0x01, 0xFF00);
    assert_eq!(bus.joypad_selection(), 0x10);
    assert_eq!(bus.read_memory(0xFF00), 0x1A);
    bus.write_memory(0x00, 0xFF00);
    assert_eq!(bus.joypad_selection(), 0x00);
    assert_eq!(bus.read_memory(0xFF00), 0x06);
}

#[test]
fn joypad_write_keeps_the_other_bits() {
    let mut bus = DataBus::new();
    bus.load_boot_rom(0xFF00, 0xCF);
    bus.write_memory(0xFC, 0xFF00);
    assert_eq!(bus.joypad_selection(), 0x00);
    bus.load_boot_rom(0xFF00, 0x00);
    bus.write_memory(0xFF, 0xFF00);
    assert_eq!(bus.joypad_selection(), 0x30);
}

#[test]
fn divider_resets_on_any_write() {
    let mut bus = DataBus::new();
    bus.increment_div_timer();
    bus.increment_div_timer();
    assert_eq!(bus.read_memory(0xFF04), 2);
    bus.write_memory(0x9C, 0xFF04);
    assert_eq!(bus.read_memory(0xFF04), 0);
    for _ in 0..256 {
        bus.increment_div_timer();
    }
    assert_eq!(bus.read_memory(0xFF04), 0);
    bus.increment_div_timer();
    assert_eq!(bus.read_memory(0xFF04), 1);
}

#[test]
fn rom_area_is_not_writable() {
    let (mut bus, bytes) = cartridge(MbcKind::RomOnly, 2, 0);
    bus.write_memory(0x99, 0x0150);
    bus.write_memory(0x99, 0x2150);
    bus.write_memory(0x99, 0x4150);
    assert_eq!(bus.read_memory(0x0150), bytes[0x0150]);
    assert_eq!(bus.read_memory(0x2150), bytes[0x2150]);
    assert_eq!(bus.read_memory(0x4150), bytes[0x4150]);
    assert_eq!(bus.current_rom_bank(), 1);
    bus.write_memory(0x00, 0x6000);
    assert_eq!(bus.banking_mode(), 0);
}

#[test]
fn raw_loads_ignore_far_indices() {
    let mut bus = DataBus::new();
    bus.load_boot_rom(0x10000, 0x55);
    bus.load_boot_rom(0xFFFF, 0x55);
    assert_eq!(bus.read_memory(0xFFFF), 0x55);
    bus.load_rom(0x8000, 0x66);
    assert_eq!(bus.read_memory(0x8000), 0x00);
    bus.load_rom(0x7FFF, 0x66);
    assert_eq!(bus.read_memory(0x7FFF), 0x66);
    bus.load_rom(0x0000, 0x31);
    assert_eq!(bus.read_memory(0x0000), 0x31);
}

#[test]
fn plain_ranges_store_bytes() {
    let mut bus = DataBus::new();
    for addr in [0x8000u16, 0x9FFF, 0xC000, 0xDFFF, 0xFE00, 0xFF40, 0xFF80, 0xFFFE, 0xFFFF] {
        bus.write_memory(0x3C, addr);
        assert_eq!(bus.read_memory(addr), 0x3C);
    }
}
