use crate::alu::{lemma_div_mod, signed};
use crate::cpu::IF_ADDRESS;
use crate::databus::{BusView, DataBus, MEMORY_SIZE};
use vstd::prelude::*;

verus! {

/// Width of the screen in pixels.
pub const SCREEN_WIDTH: usize = 160;

/// Height of the screen in pixels.
pub const SCREEN_HEIGHT: usize = 144;

/// Number of pixels on the screen.
pub const FRAME_SIZE: usize = 23040;

/// Cycles that one scanline takes.
pub const LINE_CYCLES: u32 = 456;

/// Address of the control register.
pub const LCDC_ADDRESS: u16 = 0xFF40;

/// Address of the status register.
pub const STAT_ADDRESS: u16 = 0xFF41;

/// Address of the vertical scroll register.
pub const SCY_ADDRESS: u16 = 0xFF42;

/// Address of the horizontal scroll register.
pub const SCX_ADDRESS: u16 = 0xFF43;

/// Address of the current-line register.
pub const LY_ADDRESS: u16 = 0xFF44;

/// Address of the line-compare register.
pub const LYC_ADDRESS: u16 = 0xFF45;

/// Address of the window's top line.
pub const WY_ADDRESS: u16 = 0xFF4A;

/// Address of the window's left edge, plus 7.
pub const WX_ADDRESS: u16 = 0xFF4B;

/// Address of the sprite attribute table.
pub const OAM_ADDRESS: u16 = 0xFE00;

/// Number of entries in the sprite attribute table.
pub const SPRITE_COUNT: u16 = 40;

/// The mathematical state of the picture unit.
pub struct PpuView {
    /// The four colours of the palette, as `0xRRGGBB`.
    pub colors: Seq<u32>,
    /// Cycles spent in the current scanline, below 456.
    pub line_cycles: u16,
    /// The rendering mode, 0 to 3.
    pub mode: u8,
    /// One colour index per pixel, row by row.
    pub frame: Seq<u8>,
    /// How many frames have been presented.
    pub frames_presented: u64,
}

/// The picture unit and the bus together.
pub struct Picture {
    pub ppu: PpuView,
    pub bus: BusView,
}

/// The colour of the palette at `index`.
pub open spec fn palette_color(index: int) -> u32 {
    if index == 0 {
        0xFCEEE8
    } else if index == 1 {
        0xDC95A7
    } else if index == 2 {
        0x715A9B
    } else {
        0x101018
    }
}

/// The colour index that bit `bit` of the two bytes of a tile row gives: the
/// bit of `high` is the upper bit.
pub open spec fn color_at(low: u8, high: u8, bit: u8) -> u8 {
    (((high >> bit) & 1) << 1) | ((low >> bit) & 1)
}

/// The rendering mode at a point of a line: 1 below the screen, then along
/// a visible line 2 up to cycle 79, 3 up to cycle 251, and 0 to the end.
pub open spec fn mode_at(ly: u8, line_cycles: u16) -> u8 {
    if ly >= 144 {
        1
    } else if line_cycles < 80 {
        2
    } else if line_cycles < 252 {
        3
    } else {
        0
    }
}

/// The line that follows `ly`: line 0 follows line 153.
pub open spec fn next_line(ly: u8) -> u8 {
    if ly >= 153 {
        0
    } else {
        (ly + 1) as u8
    }
}

/// The bus after the bits of `mask` are raised in the interrupt request
/// register.
pub open spec fn with_request(bus: BusView, mask: u8) -> BusView {
    bus.write(bus.read(IF_ADDRESS) | mask, IF_ADDRESS)
}

/// Whether the window covers pixel `x` of line `ly`.
pub open spec fn window_covers(bus: BusView, ly: u8, x: int) -> bool {
    bus.read(LCDC_ADDRESS) & 0x20 != 0 && bus.read(WY_ADDRESS) <= ly && x >= bus.read(WX_ADDRESS)
        - 7
}

/// The address of the tile map that a pixel is looked up in.
pub open spec fn tile_map_base(lcdc: u8, window: bool) -> int {
    if (window && lcdc & 0x40 != 0) || (!window && lcdc & 0x08 != 0) {
        0x9C00
    } else {
        0x9800
    }
}

/// The address of the data of tile `index`: counted up from `0x8000`, or,
/// with the index read as signed, from `0x9000`.
pub open spec fn tile_data_address(lcdc: u8, index: u8) -> int {
    if lcdc & 0x10 != 0 {
        0x8000 + index * 16
    } else {
        0x9000 + signed(index) * 16
    }
}

/// The colour index of the background or window at pixel `x` of line `ly`.
pub open spec fn background_color(bus: BusView, ly: u8, x: int) -> u8 {
    let lcdc = bus.read(LCDC_ADDRESS);
    let window = window_covers(bus, ly, x);
    let px = if window {
        x - (bus.read(WX_ADDRESS) - 7)
    } else {
        (x + bus.read(SCX_ADDRESS)) % 256
    };
    let py = if window {
        ly - bus.read(WY_ADDRESS)
    } else {
        (ly + bus.read(SCY_ADDRESS)) % 256
    };
    let index = bus.read((tile_map_base(lcdc, window) + py / 8 * 32 + px / 8 % 32) as u16);
    let row = tile_data_address(lcdc, index) + py % 8 * 2;
    color_at(bus.read(row as u16), bus.read((row + 1) as u16), (7 - px % 8) as u8)
}

/// The frame with line `ly` replaced by the background and window.
pub open spec fn with_background(frame: Seq<u8>, bus: BusView, ly: u8) -> Seq<u8> {
    Seq::new(
        frame.len(),
        |i: int|
            if ly * SCREEN_WIDTH <= i < ly * SCREEN_WIDTH + SCREEN_WIDTH {
                background_color(bus, ly, i - ly * SCREEN_WIDTH)
            } else {
                frame[i]
            },
    )
}

/// The height of every sprite: 16 lines or 8.
pub open spec fn sprite_height(bus: BusView) -> int {
    if bus.read(LCDC_ADDRESS) & 0x04 != 0 {
        16
    } else {
        8
    }
}

/// Byte `field` of entry `n` of the sprite attribute table: the vertical
/// position plus 16, the horizontal position plus 8, the tile, the
/// attributes.
pub open spec fn sprite_field(bus: BusView, n: int, field: int) -> u8 {
    bus.read((OAM_ADDRESS + 4 * n + field) as u16)
}

/// Whether sprite `n` has a line on scanline `ly`.
pub open spec fn sprite_on_line(bus: BusView, ly: u8, n: int) -> bool {
    sprite_field(bus, n, 0) - 16 <= ly < sprite_field(bus, n, 0) - 16 + sprite_height(bus)
}

/// The address of the two bytes of sprite `n` that scanline `ly` shows: the
/// low bit of the tile does not count for a tall sprite, and the lines run
/// bottom-up when bit 6 of the attributes is set.
pub open spec fn sprite_row_address(bus: BusView, ly: u8, n: int) -> int {
    let height = sprite_height(bus);
    let tile = if height == 16 {
        sprite_field(bus, n, 2) & 0xFE
    } else {
        sprite_field(bus, n, 2)
    };
    let line = ly - (sprite_field(bus, n, 0) - 16);
    0x8000 + tile * 16 + 2 * if sprite_field(bus, n, 3) & 0x40 != 0 {
        height - 1 - line
    } else {
        line
    }
}

/// The colour index of column `column` of the line of sprite `n` on
/// scanline `ly`; the columns run right to left when bit 5 of the attributes
/// is set.
pub open spec fn sprite_color(bus: BusView, ly: u8, n: int, column: int) -> u8 {
    let row = sprite_row_address(bus, ly, n);
    color_at(
        bus.read(row as u16),
        bus.read((row + 1) as u16),
        if sprite_field(bus, n, 3) & 0x20 != 0 {
            column as u8
        } else {
            (7 - column) as u8
        },
    )
}

/// The frame with the first `columns` columns of sprite `n` drawn on line
/// `ly`: a pixel takes the sprite's colour where the sprite has a line on
/// the scanline, the pixel is on the screen and the colour is not 0.
pub open spec fn with_sprite_columns(
    frame: Seq<u8>,
    bus: BusView,
    ly: u8,
    n: int,
    columns: int,
) -> Seq<u8> {
    Seq::new(
        frame.len(),
        |i: int|
            {
                let column = i - ly * SCREEN_WIDTH - (sprite_field(bus, n, 1) - 8);
                if ly * SCREEN_WIDTH <= i < ly * SCREEN_WIDTH + SCREEN_WIDTH && 0 <= column
                    < columns && sprite_on_line(bus, ly, n) && sprite_color(bus, ly, n, column)
                    != 0 {
                    sprite_color(bus, ly, n, column)
                } else {
                    frame[i]
                }
            },
    )
}

/// The frame with sprite `n` drawn on line `ly`.
pub open spec fn with_sprite(frame: Seq<u8>, bus: BusView, ly: u8, n: int) -> Seq<u8> {
    with_sprite_columns(frame, bus, ly, n, 8)
}

/// The frame with the first `count` sprites drawn on line `ly`, in the order
/// of the table, a later sprite over an earlier one.
pub open spec fn with_sprites(frame: Seq<u8>, bus: BusView, ly: u8, count: int) -> Seq<u8>
    decreases count,
{
    if count <= 0 {
        frame
    } else {
        with_sprite(with_sprites(frame, bus, ly, count - 1), bus, ly, count - 1)
    }
}

/// The frame with line `ly` drawn: the background and window when bit 0 of
/// the control register is set, then the sprites when bit 1 is set.
pub open spec fn with_scanline(frame: Seq<u8>, bus: BusView, ly: u8) -> Seq<u8> {
    let lcdc = bus.read(LCDC_ADDRESS);
    let below = if lcdc & 0x01 != 0 {
        with_background(frame, bus, ly)
    } else {
        frame
    };
    if lcdc & 0x02 != 0 {
        with_sprites(below, bus, ly, SPRITE_COUNT as int)
    } else {
        below
    }
}

impl PpuView {
    /// The invariant of the picture unit.
    pub open spec fn wf(self) -> bool {
        &&& self.colors.len() == 4
        &&& self.line_cycles < LINE_CYCLES
        &&& self.mode <= 3
        &&& self.frame.len() == FRAME_SIZE
        &&& forall|i: int| 0 <= i < FRAME_SIZE ==> #[trigger] self.frame[i] <= 3
    }

    /// The end of a scanline: a visible line is drawn, the line register
    /// moves on, and the vertical-blank interrupt is requested on entry to
    /// line 144.
    pub open spec fn finish_line(self, bus: BusView) -> Picture {
        let ly = bus.read(LY_ADDRESS);
        let moved = bus.write(next_line(ly), LY_ADDRESS);
        Picture {
            ppu: PpuView {
                frame: if ly < 144 {
                    with_scanline(self.frame, bus, ly)
                } else {
                    self.frame
                },
                ..self
            },
            bus: if next_line(ly) == 144 {
                with_request(moved, 0x01)
            } else {
                moved
            },
        }
    }

    /// The state after `count` scanlines have ended.
    pub open spec fn finish_lines(self, bus: BusView, count: int) -> Picture
        decreases count,
    {
        if count <= 0 {
            Picture { ppu: self, bus }
        } else {
            let before = self.finish_lines(bus, count - 1);
            before.ppu.finish_line(before.bus)
        }
    }

    /// The status register brought up to date: the mode and the
    /// line-compare bit are stored, and the status interrupt is requested
    /// when the mode changed into one whose source is enabled, or when the
    /// line-compare bit rose with its source enabled.
    pub open spec fn refresh_status(self, bus: BusView) -> Picture {
        let stat = bus.read(STAT_ADDRESS);
        let ly = bus.read(LY_ADDRESS);
        let mode = mode_at(ly, self.line_cycles);
        let equal = ly == bus.read(LYC_ADDRESS);
        let by_mode = mode != self.mode && ((mode == 0 && stat & 0x08 != 0) || (mode == 1 && stat
            & 0x10 != 0) || (mode == 2 && stat & 0x20 != 0));
        let by_line = equal && stat & 0x04 == 0 && stat & 0x40 != 0;
        let stored = bus.write(
            (stat & 0xF8) | (if equal {
                0x04u8
            } else {
                0x00u8
            }) | mode,
            STAT_ADDRESS,
        );
        Picture {
            ppu: PpuView { mode, ..self },
            bus: if by_mode || by_line {
                with_request(stored, 0x02)
            } else {
                stored
            },
        }
    }

    /// The state after `cycles` more cycles.  With the display off, the
    /// line counter and the line register go to 0 and the mode to 1.  With
    /// it on, every 456 cycles end a scanline, and the status register is
    /// brought up to date at the end.
    pub open spec fn update_graphics(self, bus: BusView, cycles: u32) -> Picture {
        if bus.read(LCDC_ADDRESS) & 0x80 == 0 {
            let cleared = bus.write(0, LY_ADDRESS);
            Picture {
                ppu: PpuView { line_cycles: 0, mode: 1, ..self },
                bus: cleared.write((cleared.read(STAT_ADDRESS) & 0xFC) | 0x01, STAT_ADDRESS),
            }
        } else {
            let total = self.line_cycles + cycles;
            let after = PpuView { line_cycles: (total % 456) as u16, ..self }.finish_lines(
                bus,
                total / 456,
            );
            after.ppu.refresh_status(after.bus)
        }
    }

    /// The state after the frame is handed over for display.
    pub open spec fn present(self) -> PpuView {
        PpuView {
            frames_presented: if self.frames_presented < u64::MAX {
                (self.frames_presented + 1) as u64
            } else {
                self.frames_presented
            },
            ..self
        }
    }
}

/// The power-on state of the picture unit: the start of line 0, a blank
/// frame, nothing presented.
pub open spec fn power_on_ppu() -> PpuView {
    PpuView {
        colors: Seq::new(4, |i: int| palette_color(i)),
        line_cycles: 0,
        mode: 1,
        frame: Seq::new(FRAME_SIZE as nat, |i: int| 0u8),
        frames_presented: 0,
    }
}

/// Ending scanlines changes neither the palette, nor the line counter, nor
/// the mode, nor the count of presented frames, nor the size of the flat
/// memory.
proof fn lemma_lines_keep(ppu: PpuView, bus: BusView, count: int)
    ensures
        bus.memory.len() == MEMORY_SIZE ==> ppu.finish_lines(bus, count).bus.memory.len()
            == MEMORY_SIZE,
        ppu.finish_lines(bus, count).ppu == (PpuView {
            frame: ppu.finish_lines(bus, count).ppu.frame,
            ..ppu
        }),
    decreases count,
{
    if count > 0 {
        lemma_lines_keep(ppu, bus, count - 1);
        let before = ppu.finish_lines(bus, count - 1);
        let moved = before.bus.write(next_line(before.bus.read(LY_ADDRESS)), LY_ADDRESS);
        if bus.memory.len() == MEMORY_SIZE {
            assert(moved.memory.len() == MEMORY_SIZE) by {
                reveal(BusView::write);
            }
            assert(with_request(moved, 0x01).memory.len() == MEMORY_SIZE) by {
                reveal(BusView::write);
            }
        }
    }
}

/// From a line on the screen or below it, ending `count` scanlines moves
/// the line register `count` lines on, around the 154 lines of a frame.
pub proof fn law_line_cadence(ppu: PpuView, bus: BusView, count: int)
    requires
        bus.wf(),
        count >= 0,
        bus.read(LY_ADDRESS) <= 153,
    ensures
        ppu.finish_lines(bus, count).bus.read(LY_ADDRESS) == (bus.read(LY_ADDRESS) + count) % 154,
    decreases count,
{
    let ly = bus.read(LY_ADDRESS) as int;
    if count > 0 {
        law_line_cadence(ppu, bus, count - 1);
        lemma_lines_keep(ppu, bus, count - 1);
        let before = ppu.finish_lines(bus, count - 1);
        let at = before.bus.read(LY_ADDRESS);
        assert(at == (ly + count - 1) % 154);
        assert(next_line(at) == (ly + count) % 154) by {
            let q = (ly + count - 1) / 154;
            if at == 153 {
                lemma_div_mod(ly + count, 154, q + 1, 0);
            } else {
                lemma_div_mod(ly + count, 154, q, at + 1);
            }
        }
        assert(before.ppu.finish_line(before.bus).bus.read(LY_ADDRESS) == next_line(at)) by {
            reveal(BusView::read);
            reveal(BusView::write);
        }
    } else {
        lemma_div_mod(ly, 154, 0, ly);
    }
}

/// Advancing the picture unit does not change the count of presented
/// frames.
pub proof fn law_update_keeps_presented(ppu: PpuView, bus: BusView, cycles: u32)
    ensures
        ppu.update_graphics(bus, cycles).ppu.frames_presented == ppu.frames_presented,
{
    let total = ppu.line_cycles + cycles;
    lemma_lines_keep(PpuView { line_cycles: (total % 456) as u16, ..ppu }, bus, total / 456);
}

/// How the status register's bits read once the mode and the line-compare
/// bit are stored.
proof fn lemma_status_bits(stat: u8, mode: u8, requested: u8)
    by (bit_vector)
    requires
        mode <= 3,
    ensures
        ((stat & 0xF8) | 0x04 | mode) & 0x04 != 0,
        ((stat & 0xF8) | 0x00 | mode) & 0x04 == 0,
        ((stat & 0xF8) | 0x04 | mode) & 0x03 == mode,
        ((stat & 0xF8) | 0x00 | mode) & 0x03 == mode,
        (requested | 0x02) & 0x02 != 0,
        stat & 0x3C == 0 ==> stat & 0x04 == 0 && stat & 0x08 == 0 && stat & 0x10 == 0 && stat
            & 0x20 == 0,
{
}

/// Bringing the status register up to date stores the mode in its two low
/// bits and sets its bit 2 exactly when the line register equals the
/// line-compare register.  Where the mode sources are disabled and bit 2
/// was clear, the status interrupt is requested exactly when the two
/// registers are equal and bit 6 is set; a request that stood before stays.
pub proof fn law_line_compare(ppu: PpuView, bus: BusView)
    requires
        ppu.wf(),
        bus.wf(),
    ensures
        (ppu.refresh_status(bus).bus.read(STAT_ADDRESS) & 0x04 != 0) == (bus.read(LY_ADDRESS)
            == bus.read(LYC_ADDRESS)),
        ppu.refresh_status(bus).bus.read(STAT_ADDRESS) & 0x03 == mode_at(
            bus.read(LY_ADDRESS),
            ppu.line_cycles,
        ),
        bus.read(STAT_ADDRESS) & 0x3C == 0 ==> (ppu.refresh_status(bus).bus.read(IF_ADDRESS) & 0x02
            != 0) == (bus.read(IF_ADDRESS) & 0x02 != 0 || (bus.read(LY_ADDRESS) == bus.read(
            LYC_ADDRESS,
        ) && bus.read(STAT_ADDRESS) & 0x40 != 0)),
{
    reveal(BusView::read);
    reveal(BusView::write);
    let stat = bus.read(STAT_ADDRESS);
    let mode = mode_at(bus.read(LY_ADDRESS), ppu.line_cycles);
    lemma_status_bits(stat, mode, bus.read(IF_ADDRESS));
}

/// A colour index has two bits.
proof fn lemma_color_range(low: u8, high: u8, bit: u8)
    by (bit_vector)
    requires
        bit < 8,
    ensures
        (((high >> bit) & 1) << 1) | ((low >> bit) & 1) <= 3,
{
}

/// Clearing the low bit of a tile number does not raise it.
proof fn lemma_tall_tile(tile: u8)
    by (bit_vector)
    ensures
        tile & 0xFE <= 254,
        tile & 0xFE <= tile,
{
}

/// The picture unit: the mode machine and the scanline renderer, drawing
/// into a frame of colour indices.
pub struct Ppu {
    colors: [u32; 4],
    current_line_cycles: u16,
    mode: u8,
    frame: Vec<u8>,
    frames_presented: u64,
}

impl View for Ppu {
    type V = PpuView;

    closed spec fn view(&self) -> PpuView {
        PpuView {
            colors: self.colors@,
            line_cycles: self.current_line_cycles,
            mode: self.mode,
            frame: self.frame@,
            frames_presented: self.frames_presented,
        }
    }
}

/// The colour index that bit `bit` of the two bytes of a tile row gives.
pub fn color_index(low: u8, high: u8, bit: u8) -> (color: u8)
    requires
        bit < 8,
    ensures
        color == color_at(low, high, bit),
        color <= 3,
{
    proof {
        lemma_color_range(low, high, bit);
    }
    (((high >> bit) & 1) << 1) | ((low >> bit) & 1)
}

/// The colour index of the background or window at pixel `x` of line `ly`.
pub fn background_pixel(bus: &DataBus, ly: u8, x: u8) -> (color: u8)
    requires
        bus.wf(),
        x < SCREEN_WIDTH,
    ensures
        color == background_color(bus@, ly, x as int),
        color <= 3,
{
    let lcdc: u8 = bus.read_memory(LCDC_ADDRESS);
    let scy: u8 = bus.read_memory(SCY_ADDRESS);
    let scx: u8 = bus.read_memory(SCX_ADDRESS);
    let wy: u8 = bus.read_memory(WY_ADDRESS);
    let wx: u8 = bus.read_memory(WX_ADDRESS);
    let window = (lcdc & 0x20) != 0 && wy <= ly && x as i16 >= wx as i16 - 7;
    let px: u16 = if window {
        (x as i16 - (wx as i16 - 7)) as u16
    } else {
        (x as u16 + scx as u16) % 256
    };
    let py: u16 = if window {
        (ly - wy) as u16
    } else {
        (ly as u16 + scy as u16) % 256
    };
    let map: u16 = if (window && (lcdc & 0x40) != 0) || (!window && (lcdc & 0x08) != 0) {
        0x9C00
    } else {
        0x9800
    };
    let index: u8 = bus.read_memory(map + py / 8 * 32 + px / 8 % 32);
    let data: u16 = if (lcdc & 0x10) != 0 {
        0x8000 + index as u16 * 16
    } else if index < 128 {
        0x9000 + index as u16 * 16
    } else {
        0x8800 + (index as u16 - 128) * 16
    };
    let row: u16 = data + py % 8 * 2;
    let low: u8 = bus.read_memory(row);
    let high: u8 = bus.read_memory(row + 1);
    color_index(low, high, (7 - px % 8) as u8)
}

impl Ppu {
    /// The invariant of the picture unit, stated on the view.
    pub open spec fn wf(&self) -> bool {
        self@.wf()
    }

    /// The picture unit at power-on.
    pub fn new() -> (ppu: Ppu)
        ensures
            ppu.wf(),
            ppu@ == power_on_ppu(),
    {
        let colors: [u32; 4] = [0xFCEEE8, 0xDC95A7, 0x715A9B, 0x101018];
        let frame: Vec<u8> = vec![0u8; FRAME_SIZE];
        let ppu = Ppu { colors, current_line_cycles: 0, mode: 1, frame, frames_presented: 0 };
        assert(ppu@.colors =~= power_on_ppu().colors);
        assert(ppu@.frame =~= power_on_ppu().frame);
        ppu
    }

    /// The colour of the palette at `index`, as `0xRRGGBB`.
    pub fn color(&self, index: u8) -> (rgb: u32)
        requires
            self.wf(),
            index < 4,
        ensures
            rgb == self@.colors[index as int],
    {
        self.colors[index as usize]
    }

    /// The frame: one colour index per pixel, row by row.
    pub fn frame(&self) -> (pixels: &Vec<u8>)
        ensures
            pixels@ == self@.frame,
    {
        &self.frame
    }

    /// The colour index of the pixel at column `x` of row `y`.
    pub fn pixel(&self, x: u8, y: u8) -> (color: u8)
        requires
            self.wf(),
            x < SCREEN_WIDTH,
            y < SCREEN_HEIGHT,
        ensures
            color == self@.frame[y * SCREEN_WIDTH + x],
            color <= 3,
    {
        self.frame[y as usize * SCREEN_WIDTH + x as usize]
    }

    /// The rendering mode, 0 to 3.
    pub fn mode(&self) -> (mode: u8)
        ensures
            mode == self@.mode,
    {
        self.mode
    }

    /// How many frames have been presented.
    pub fn frames_presented(&self) -> (count: u64)
        ensures
            count == self@.frames_presented,
    {
        self.frames_presented
    }

    /// Draws the background and window of line `ly`.
    pub fn render_tiles(&mut self, bus: &DataBus, ly: u8)
        requires
            old(self).wf(),
            bus.wf(),
            ly < SCREEN_HEIGHT,
        ensures
            final(self).wf(),
            final(self)@ == (PpuView {
                frame: with_background(old(self)@.frame, bus@, ly),
                ..old(self)@
            }),
    {
        let start: usize = ly as usize * SCREEN_WIDTH;
        let mut x: u8 = 0;
        while x < 160
            invariant
                0 <= x <= 160,
                start == ly * SCREEN_WIDTH,
                ly < SCREEN_HEIGHT,
                bus.wf(),
                self.wf(),
                self@ == (PpuView { frame: self@.frame, ..old(self)@ }),
                forall|i: int|
                    0 <= i < FRAME_SIZE && !(start <= i < start + x) ==> self@.frame[i] == old(
                        self,
                    )@.frame[i],
                forall|i: int|
                    start <= i < start + x ==> self@.frame[i] == background_color(
                        bus@,
                        ly,
                        i - start,
                    ),
            decreases 160 - x,
        {
            let color: u8 = background_pixel(bus, ly, x);
            self.frame[start + x as usize] = color;
            x = x + 1;
        }
        assert(self@.frame =~= with_background(old(self)@.frame, bus@, ly));
    }

    /// Draws sprite `n` on line `ly`.
    fn render_sprite(&mut self, bus: &DataBus, ly: u8, n: u16)
        requires
            old(self).wf(),
            bus.wf(),
            ly < SCREEN_HEIGHT,
            n < SPRITE_COUNT,
        ensures
            final(self).wf(),
            final(self)@ == (PpuView {
                frame: with_sprite(old(self)@.frame, bus@, ly, n as int),
                ..old(self)@
            }),
    {
        let entry: u16 = OAM_ADDRESS + 4 * n;
        let y_pos: u8 = bus.read_memory(entry);
        let x_pos: u8 = bus.read_memory(entry + 1);
        let tile_field: u8 = bus.read_memory(entry + 2);
        let attributes: u8 = bus.read_memory(entry + 3);
        let lcdc: u8 = bus.read_memory(LCDC_ADDRESS);
        let height: i16 = if (lcdc & 0x04) != 0 {
            16
        } else {
            8
        };
        let top: i16 = y_pos as i16 - 16;
        let left: i16 = x_pos as i16 - 8;
        let start: usize = ly as usize * SCREEN_WIDTH;
        if top <= ly as i16 && (ly as i16) < top + height {
            proof {
                lemma_tall_tile(tile_field);
            }
            let tile: u8 = if height == 16 {
                tile_field & 0xFE
            } else {
                tile_field
            };
            let line: i16 = ly as i16 - top;
            let shown: i16 = if (attributes & 0x40) != 0 {
                height - 1 - line
            } else {
                line
            };
            let row: u16 = 0x8000 + tile as u16 * 16 + 2 * (shown as u16);
            let low: u8 = bus.read_memory(row);
            let high: u8 = bus.read_memory(row + 1);
            let mirrored = (attributes & 0x20) != 0;
            let mut column: u8 = 0;
            assert(self@.frame =~= with_sprite_columns(old(self)@.frame, bus@, ly, n as int, 0));
            while column < 8
                invariant
                    0 <= column <= 8,
                    start == ly * SCREEN_WIDTH,
                    ly < SCREEN_HEIGHT,
                    n < SPRITE_COUNT,
                    bus.wf(),
                    self.wf(),
                    left == sprite_field(bus@, n as int, 1) - 8,
                    sprite_on_line(bus@, ly, n as int),
                    row == sprite_row_address(bus@, ly, n as int),
                    low == bus@.read(row),
                    high == bus@.read((row + 1) as u16),
                    mirrored == (sprite_field(bus@, n as int, 3) & 0x20 != 0),
                    self@ == (PpuView {
                        frame: with_sprite_columns(old(self)@.frame, bus@, ly, n as int, column as int),
                        ..old(self)@
                    }),
                decreases 8 - column,
            {
                let bit: u8 = if mirrored {
                    column
                } else {
                    7 - column
                };
                let color: u8 = color_index(low, high, bit);
                let x: i16 = left + column as i16;
                let ghost before = self@.frame;
                if color != 0 && 0 <= x && x < 160 {
                    self.frame[start + x as usize] = color;
                }
                assert(color == sprite_color(bus@, ly, n as int, column as int));
                assert(self@.frame =~= with_sprite_columns(
                    old(self)@.frame,
                    bus@,
                    ly,
                    n as int,
                    column + 1,
                ));
                column = column + 1;
            }
        } else {
            assert(self@.frame =~= with_sprite(old(self)@.frame, bus@, ly, n as int));
        }
    }

    /// Draws the sprites of line `ly`, in the order of the table.
    pub fn render_sprites(&mut self, bus: &DataBus, ly: u8)
        requires
            old(self).wf(),
            bus.wf(),
            ly < SCREEN_HEIGHT,
        ensures
            final(self).wf(),
            final(self)@ == (PpuView {
                frame: with_sprites(old(self)@.frame, bus@, ly, SPRITE_COUNT as int),
                ..old(self)@
            }),
    {
        let mut n: u16 = 0;
        while n < SPRITE_COUNT
            invariant
                0 <= n <= SPRITE_COUNT,
                ly < SCREEN_HEIGHT,
                bus.wf(),
                self.wf(),
                self@ == (PpuView {
                    frame: with_sprites(old(self)@.frame, bus@, ly, n as int),
                    ..old(self)@
                }),
            decreases SPRITE_COUNT - n,
        {
            self.render_sprite(bus, ly, n);
            n = n + 1;
        }
    }

    /// Draws line `ly`: the background and window, then the sprites, each
    /// when the control register enables it.
    pub fn draw_scanline(&mut self, bus: &DataBus, ly: u8)
        requires
            old(self).wf(),
            bus.wf(),
            ly < SCREEN_HEIGHT,
        ensures
            final(self).wf(),
            final(self)@ == (PpuView {
                frame: with_scanline(old(self)@.frame, bus@, ly),
                ..old(self)@
            }),
    {
        let lcdc: u8 = bus.read_memory(LCDC_ADDRESS);
        if (lcdc & 0x01) != 0 {
            self.render_tiles(bus, ly);
        }
        if (lcdc & 0x02) != 0 {
            self.render_sprites(bus, ly);
        }
    }

    /// Ends the current scanline.
    fn end_line(&mut self, bus: &mut DataBus)
        requires
            old(self).wf(),
            old(bus).wf(),
        ensures
            final(self).wf(),
            final(bus).wf(),
            (Picture { ppu: final(self)@, bus: final(bus)@ }) == old(self)@.finish_line(old(bus)@),
    {
        let ly: u8 = bus.read_memory(LY_ADDRESS);
        if ly < 144 {
            self.draw_scanline(bus, ly);
        }
        let next: u8 = if ly >= 153 {
            0
        } else {
            ly + 1
        };
        bus.write_memory(next, LY_ADDRESS);
        if next == 144 {
            request_interrupt(bus, 0x01);
        }
    }

    /// Brings the status register up to date.
    pub fn updated_STAT(&mut self, bus: &mut DataBus)
        requires
            old(self).wf(),
            old(bus).wf(),
        ensures
            final(self).wf(),
            final(bus).wf(),
            (Picture { ppu: final(self)@, bus: final(bus)@ }) == old(self)@.refresh_status(
                old(bus)@,
            ),
    {
        let stat: u8 = bus.read_memory(STAT_ADDRESS);
        let ly: u8 = bus.read_memory(LY_ADDRESS);
        let lyc: u8 = bus.read_memory(LYC_ADDRESS);
        let mode: u8 = if ly >= 144 {
            1
        } else if self.current_line_cycles < 80 {
            2
        } else if self.current_line_cycles < 252 {
            3
        } else {
            0
        };
        let equal = ly == lyc;
        let by_mode = mode != self.mode && ((mode == 0 && (stat & 0x08) != 0) || (mode == 1 && (
        stat & 0x10) != 0) || (mode == 2 && (stat & 0x20) != 0));
        let by_line = equal && (stat & 0x04) == 0 && (stat & 0x40) != 0;
        let flag: u8 = if equal {
            0x04
        } else {
            0x00
        };
        bus.write_memory((stat & 0xF8) | flag | mode, STAT_ADDRESS);
        self.mode = mode;
        if by_mode || by_line {
            request_interrupt(bus, 0x02);
        }
    }

    /// Advances the picture unit by `cycles` cycles.
    pub fn update_graphics(&mut self, bus: &mut DataBus, cycles: u32)
        requires
            old(self).wf(),
            old(bus).wf(),
        ensures
            final(self).wf(),
            final(bus).wf(),
            (Picture { ppu: final(self)@, bus: final(bus)@ }) == old(self)@.update_graphics(
                old(bus)@,
                cycles,
            ),
    {
        let lcdc: u8 = bus.read_memory(LCDC_ADDRESS);
        if (lcdc & 0x80) == 0 {
            self.current_line_cycles = 0;
            self.mode = 1;
            bus.write_memory(0, LY_ADDRESS);
            let stat: u8 = bus.read_memory(STAT_ADDRESS);
            bus.write_memory((stat & 0xFC) | 0x01, STAT_ADDRESS);
            return ;
        }
        let total: u64 = self.current_line_cycles as u64 + cycles as u64;
        let lines: u64 = total / 456;
        self.current_line_cycles = (total % 456) as u16;
        let ghost start = self@;
        let mut done: u64 = 0;
        while done < lines
            invariant
                0 <= done <= lines,
                self.wf(),
                bus.wf(),
                start == (PpuView { line_cycles: (total % 456) as u16, ..old(self)@ }),
                (Picture { ppu: self@, bus: bus@ }) == start.finish_lines(old(bus)@, done as int),
            decreases lines - done,
        {
            self.end_line(bus);
            done = done + 1;
        }
        self.updated_STAT(bus);
    }

    /// Hands the frame over for display: the count of presented frames goes
    /// up by one, up to `u64::MAX`.
    pub fn present(&mut self)
        ensures
            final(self)@ == old(self)@.present(),
    {
        if self.frames_presented < u64::MAX {
            self.frames_presented = self.frames_presented + 1;
        }
    }
}

/// Raises the bits of `mask` in the interrupt request register.
pub fn request_interrupt(bus: &mut DataBus, mask: u8)
    requires
        old(bus).wf(),
    ensures
        final(bus).wf(),
        final(bus)@ == with_request(old(bus)@, mask),
{
    let requested: u8 = bus.read_memory(IF_ADDRESS);
    bus.write_memory(requested | mask, IF_ADDRESS);
}

} // verus!
