use gameooy::databus::DataBus;
use gameooy::ppu::{background_pixel, color_index, request_interrupt, Ppu};

#[test]
fn power_on_picture() {
    let ppu = Ppu::new();
    assert_eq!(ppu.frame().len(), 160 * 144);
    assert!(ppu.frame().iter().all(|p| *p == 0));
    assert_eq!(ppu.mode(), 1);
    assert_eq!(ppu.frames_presented(), 0);
    assert_eq!(ppu.color(0), 0xFCEEE8);
    assert_eq!(ppu.color(1), 0xDC95A7);
    assert_eq!(ppu.color(2), 0x715A9B);
    assert_eq!(ppu.color(3), 0x101018);
}

#[test]
fn colour_index_takes_the_high_byte_as_upper_bit() {
    assert_eq!(color_index(0x80, 0x00, 7), 1);
    assert_eq!(color_index(0x00, 0x80, 7), 2);
    assert_eq!(color_index(0x80, 0x80, 7), 3);
    assert_eq!(color_index(0x7F, 0x7F, 7), 0);
    assert_eq!(color_index(0x01, 0x00, 0), 1);
}

#[test]
fn sprite_over_background_on_line_zero() {
    let mut bus = DataBus::new();
    let mut ppu = Ppu::new();
    bus.write_memory(0x10, 0xFE00);
    bus.write_memory(0x08, 0xFE01);
    bus.write_memory(0x00, 0xFE02);
    bus.write_memory(0x00, 0xFE03);
    for i in 0..16u16 {
        bus.write_memory(0xFF, 0x8000 + i);
    }
    bus.write_memory(0x93, 0xFF40);
    bus.write_memory(0x01, 0x9800);
    ppu.draw_scanline(&bus, 0);
    for x in 0..8u8 {
        assert_eq!(ppu.pixel(x, 0), 3);
    }
    for x in 0..160u8 {
        assert_eq!(ppu.pixel(x, 1), 0);
    }
    // Without the sprite layer the first tile of the map, which is blank, shows.
    bus.write_memory(0x91, 0xFF40);
    ppu.draw_scanline(&bus, 0);
    for x in 0..160u8 {
        assert_eq!(ppu.pixel(x, 0), if x < 8 { 0 } else { 3 });
    }
}

#[test]
fn background_follows_the_scroll_registers() {
    let mut bus = DataBus::new();
    let mut ppu = Ppu::new();
    bus.write_memory(0x91, 0xFF40);
    // Tile 1: colour 1 in its left half, colour 2 in its right half, on row 3 only.
    bus.write_memory(0xF0, 0x8010 + 6);
    bus.write_memory(0x0F, 0x8010 + 7);
    bus.write_memory(0x01, 0x9800 + 32 + 2);
    bus.write_memory(5, 0xFF42);
    bus.write_memory(3, 0xFF43);
    ppu.render_tiles(&bus, 6);
    for x in 0..160u8 {
        let expected = match x {
            13..=16 => 1,
            17..=20 => 2,
            _ => 0,
        };
        assert_eq!(ppu.pixel(x, 6), expected);
        assert_eq!(background_pixel(&bus, 6, x), expected);
    }
}

#[test]
fn signed_tile_numbers_count_from_the_middle_block() {
    let mut bus = DataBus::new();
    bus.write_memory(0x81, 0xFF40);
    bus.write_memory(0x80, 0x9800);
    bus.write_memory(0x7F, 0x9801);
    bus.write_memory(0xFF, 0x8800);
    bus.write_memory(0xFF, 0x97F1);
    assert_eq!(background_pixel(&bus, 0, 0), 1);
    assert_eq!(background_pixel(&bus, 0, 8), 2);
    assert_eq!(background_pixel(&bus, 0, 16), 0);
}

#[test]
fn second_map_is_chosen_by_bit_three() {
    let mut bus = DataBus::new();
    bus.write_memory(0x99, 0xFF40);
    bus.write_memory(0x01, 0x9C00);
    bus.write_memory(0xFF, 0x8010);
    assert_eq!(background_pixel(&bus, 0, 0), 1);
    bus.write_memory(0x91, 0xFF40);
    assert_eq!(background_pixel(&bus, 0, 0), 0);
}

#[test]
fn window_covers_the_background_from_its_corner() {
    let mut bus = DataBus::new();
    let mut ppu = Ppu::new();
    bus.write_memory(0xF1, 0xFF40);
    bus.write_memory(0x01, 0x9C00);
    bus.write_memory(0xFF, 0x8010);
    bus.write_memory(0xFF, 0x8011);
    bus.write_memory(4, 0xFF4A);
    bus.write_memory(7 + 20, 0xFF4B);
    ppu.render_tiles(&bus, 3);
    ppu.render_tiles(&bus, 4);
    for x in 0..160u8 {
        assert_eq!(ppu.pixel(x, 3), 0);
        assert_eq!(ppu.pixel(x, 4), if (20..28).contains(&x) { 3 } else { 0 });
    }
    bus.write_memory(3, 0xFF4B);
    assert_eq!(background_pixel(&bus, 4, 0), 3);
    assert_eq!(background_pixel(&bus, 4, 3), 3);
    assert_eq!(background_pixel(&bus, 4, 4), 0);
}

#[test]
fn sprites_flip_clip_and_stay_transparent() {
    let mut bus = DataBus::new();
    let mut ppu = Ppu::new();
    bus.write_memory(0x93, 0xFF40);
    // Tile 2, row 0: colours 3 2 1 0 0 0 0 1 from left to right.
    bus.write_memory(0b1010_0001, 0x8020);
    bus.write_memory(0b1100_0000, 0x8021);
    // Row 7: colour 1 everywhere.
    bus.write_memory(0xFF, 0x802E);
    let sprites: [[u8; 4]; 4] = [
        [16 + 10, 8 + 20, 2, 0x00],
        [16 + 10, 8 + 40, 2, 0x20],
        [16 + 10, 8 + 60, 2, 0x40],
        [16 + 10, 4, 2, 0x00],
    ];
    for (n, sprite) in sprites.iter().enumerate() {
        for (field, byte) in sprite.iter().enumerate() {
            bus.write_memory(*byte, 0xFE00 + 4 * n as u16 + field as u16);
        }
    }
    ppu.render_sprites(&bus, 10);
    let plain = [3, 2, 1, 0, 0, 0, 0, 1];
    for column in 0..8u8 {
        assert_eq!(ppu.pixel(20 + column, 10), plain[column as usize]);
        assert_eq!(ppu.pixel(40 + column, 10), plain[7 - column as usize]);
        assert_eq!(ppu.pixel(60 + column, 10), 1);
    }
    assert_eq!(ppu.pixel(0, 10), 0);
    assert_eq!(ppu.pixel(3, 10), 1);
    assert_eq!(ppu.pixel(4, 10), 0);
    assert!(ppu.frame()[..160 * 10].iter().all(|p| *p == 0));
    assert!(ppu.frame()[160 * 11..].iter().all(|p| *p == 0));
}

#[test]
fn later_sprite_is_drawn_over_an_earlier_one() {
    let mut bus = DataBus::new();
    let mut ppu = Ppu::new();
    bus.write_memory(0x00, 0x8010);
    bus.write_memory(0xFF, 0x8011);
    bus.write_memory(0xF0, 0x8020);
    for (n, tile) in [(0u16, 1u8), (1, 2)] {
        bus.write_memory(16, 0xFE00 + 4 * n);
        bus.write_memory(8, 0xFE01 + 4 * n);
        bus.write_memory(tile, 0xFE02 + 4 * n);
        bus.write_memory(0, 0xFE03 + 4 * n);
    }
    ppu.render_sprites(&bus, 0);
    for x in 0..8u8 {
        assert_eq!(ppu.pixel(x, 0), if x < 4 { 1 } else { 2 });
    }
}

#[test]
fn tall_sprites_ignore_the_low_bit_of_the_tile() {
    let mut bus = DataBus::new();
    let mut ppu = Ppu::new();
    bus.write_memory(0x97, 0xFF40);
    bus.write_memory(0xFF, 0x8040 + 2 * 12);
    bus.write_memory(16, 0xFE00);
    bus.write_memory(8, 0xFE01);
    bus.write_memory(5, 0xFE02);
    bus.write_memory(0, 0xFE03);
    ppu.render_sprites(&bus, 12);
    assert_eq!(ppu.pixel(0, 12), 1);
    bus.write_memory(0x40, 0xFE03);
    ppu.render_sprites(&bus, 3);
    assert_eq!(ppu.pixel(0, 3), 1);
}

#[test]
fn scanline_layers_follow_the_control_register() {
    let mut bus = DataBus::new();
    let mut ppu = Ppu::new();
    bus.write_memory(0xFF, 0x8000);
    bus.write_memory(0x90, 0xFF40);
    ppu.draw_scanline(&bus, 0);
    assert_eq!(ppu.pixel(0, 0), 0);
    bus.write_memory(0x91, 0xFF40);
    ppu.draw_scanline(&bus, 0);
    assert_eq!(ppu.pixel(0, 0), 1);
    bus.write_memory(0x00, 0x8000);
    bus.write_memory(0x90, 0xFF40);
    ppu.draw_scanline(&bus, 0);
    assert_eq!(ppu.pixel(0, 0), 1);
}

#[test]
fn one_frame_of_cycles_walks_every_line_once() {
    let mut bus = DataBus::new();
    let mut ppu = Ppu::new();
    bus.write_memory(0x00, 0xFF0F);
    let mut lines = vec![bus.read_memory(0xFF44)];
    let mut vblank_at = None;
    for step in 0..70224 / 4 {
        ppu.update_graphics(&mut bus, 4);
        let ly = bus.read_memory(0xFF44);
        if ly != *lines.last().unwrap() {
            lines.push(ly);
        }
        if vblank_at.is_none() && bus.read_memory(0xFF0F) & 0x01 != 0 {
            vblank_at = Some((step + 1) * 4);
        }
    }
    let mut expected: Vec<u8> = (0..=153).collect();
    expected.push(0);
    assert_eq!(lines, expected);
    assert_eq!(vblank_at, Some(144 * 456));
    assert_eq!(ppu.mode(), 2);
}

#[test]
fn modes_along_a_visible_line_and_below_the_screen() {
    let mut bus = DataBus::new();
    let mut ppu = Ppu::new();
    ppu.update_graphics(&mut bus, 0);
    assert_eq!(ppu.mode(), 2);
    assert_eq!(bus.read_memory(0xFF41) & 0x03, 2);
    ppu.update_graphics(&mut bus, 79);
    assert_eq!(ppu.mode(), 2);
    ppu.update_graphics(&mut bus, 1);
    assert_eq!(ppu.mode(), 3);
    ppu.update_graphics(&mut bus, 171);
    assert_eq!(ppu.mode(), 3);
    ppu.update_graphics(&mut bus, 1);
    assert_eq!(ppu.mode(), 0);
    ppu.update_graphics(&mut bus, 203);
    assert_eq!(ppu.mode(), 0);
    assert_eq!(bus.read_memory(0xFF44), 0);
    ppu.update_graphics(&mut bus, 1);
    assert_eq!(ppu.mode(), 2);
    assert_eq!(bus.read_memory(0xFF44), 1);
    ppu.update_graphics(&mut bus, 143 * 456);
    assert_eq!(bus.read_memory(0xFF44), 144);
    assert_eq!(ppu.mode(), 1);
    assert_eq!(bus.read_memory(0xFF41) & 0x03, 1);
    ppu.update_graphics(&mut bus, 10 * 456 - 1);
    assert_eq!(bus.read_memory(0xFF44), 153);
    assert_eq!(ppu.mode(), 1);
    ppu.update_graphics(&mut bus, 1);
    assert_eq!(bus.read_memory(0xFF44), 0);
    assert_eq!(ppu.mode(), 2);
}

fn run_to_line(ppu: &mut Ppu, bus: &mut DataBus, line: u8) {
    let mut guard = 0;
    while bus.read_memory(0xFF44) != line {
        ppu.update_graphics(bus, 4);
        guard += 1;
        assert!(guard < 40000);
    }
}

#[test]
fn line_compare_sets_its_bit_and_interrupts_when_enabled() {
    for enabled in [false, true] {
        let mut bus = DataBus::new();
        let mut ppu = Ppu::new();
        bus.write_memory(42, 0xFF45);
        bus.write_memory(if enabled { 0x40 } else { 0x00 }, 0xFF41);
        bus.write_memory(0x00, 0xFF0F);
        run_to_line(&mut ppu, &mut bus, 41);
        assert_eq!(bus.read_memory(0xFF41) & 0x04, 0);
        assert_eq!(bus.read_memory(0xFF0F) & 0x02, 0);
        run_to_line(&mut ppu, &mut bus, 42);
        assert_eq!(bus.read_memory(0xFF41) & 0x04, 0x04);
        assert_eq!(bus.read_memory(0xFF0F) & 0x02 != 0, enabled);
        bus.write_memory(0x00, 0xFF0F);
        ppu.update_graphics(&mut bus, 4);
        assert_eq!(bus.read_memory(0xFF44), 42);
        assert_eq!(bus.read_memory(0xFF0F) & 0x02, 0);
        run_to_line(&mut ppu, &mut bus, 43);
        assert_eq!(bus.read_memory(0xFF41) & 0x04, 0);
    }
}

#[test]
fn status_sources_interrupt_once_per_mode_change() {
    for (bit, mode) in [(0x08u8, 0u8), (0x10, 1), (0x20, 2)] {
        let mut bus = DataBus::new();
        let mut ppu = Ppu::new();
        bus.write_memory(200, 0xFF45);
        ppu.update_graphics(&mut bus, 0);
        bus.write_memory(bit, 0xFF41);
        bus.write_memory(0x00, 0xFF0F);
        let mut raised = 0;
        let mut entries = 0;
        let mut previous = ppu.mode();
        for _ in 0..70224 / 4 {
            ppu.update_graphics(&mut bus, 4);
            if ppu.mode() != previous && ppu.mode() == mode {
                entries += 1;
            }
            previous = ppu.mode();
            if bus.read_memory(0xFF0F) & 0x02 != 0 {
                raised += 1;
                let flags = bus.read_memory(0xFF0F);
                bus.write_memory(flags & !0x02, 0xFF0F);
            }
        }
        assert_eq!(raised, entries);
        assert_eq!(entries, if mode == 1 { 1 } else { 144 });
    }
}

#[test]
fn display_off_resets_the_line() {
    let mut bus = DataBus::new();
    let mut ppu = Ppu::new();
    ppu.update_graphics(&mut bus, 5 * 456 + 100);
    assert_eq!(bus.read_memory(0xFF44), 5);
    bus.write_memory(0x11, 0xFF40);
    bus.write_memory(0x00, 0xFF0F);
    ppu.update_graphics(&mut bus, 4);
    assert_eq!(bus.read_memory(0xFF44), 0);
    assert_eq!(ppu.mode(), 1);
    assert_eq!(bus.read_memory(0xFF41) & 0x03, 1);
    ppu.update_graphics(&mut bus, 4560);
    assert_eq!(bus.read_memory(0xFF44), 0);
    assert_eq!(bus.read_memory(0xFF0F), 0x00);
    bus.write_memory(0x91, 0xFF40);
    ppu.update_graphics(&mut bus, 456);
    assert_eq!(bus.read_memory(0xFF44), 1);
}

#[test]
fn lines_are_drawn_as_they_end() {
    let mut bus = DataBus::new();
    let mut ppu = Ppu::new();
    bus.write_memory(0xFF, 0x8000);
    bus.write_memory(0xFF, 0x8002);
    ppu.update_graphics(&mut bus, 455);
    assert_eq!(ppu.pixel(0, 0), 0);
    ppu.update_graphics(&mut bus, 1);
    assert_eq!(ppu.pixel(0, 0), 1);
    assert_eq!(ppu.pixel(0, 1), 0);
    ppu.update_graphics(&mut bus, 456);
    assert_eq!(ppu.pixel(0, 1), 1);
    assert_eq!(ppu.pixel(0, 2), 0);
}

#[test]
fn present_counts_frames() {
    let mut ppu = Ppu::new();
    ppu.present();
    ppu.present();
    assert_eq!(ppu.frames_presented(), 2);
}

#[test]
fn interrupt_requests_accumulate() {
    let mut bus = DataBus::new();
    bus.write_memory(0x00, 0xFF0F);
    request_interrupt(&mut bus, 0x04);
    request_interrupt(&mut bus, 0x01);
    assert_eq!(bus.read_memory(0xFF0F), 0x05);
}
