use crate::cartridge::{header_of, parse_header, CartridgeError};
use crate::cpu::{power_on_cpu, Cpu, IE_ADDRESS, IF_ADDRESS};
use crate::databus::{power_on_bus, BusView, DataBus, JOYPAD_ADDRESS, MEMORY_SIZE};
use crate::execute::pending_interrupts;
use crate::instructions::law_table_bounds;
use crate::ppu::{
    law_update_keeps_presented, power_on_ppu, request_interrupt, with_request, Ppu, PpuView,
};
use crate::timer::Timers;
use vstd::prelude::*;

verus! {

/// Cycles in one frame.
pub const FRAME_CYCLES: u32 = 70224;

/// Cycles that pass in one round of the scheduler while the processor is
/// halted.
pub const HALT_CYCLES: u32 = 4;

/// The most that one round of the scheduler can add to the frame's cycles:
/// the longest instruction and a dispatch.
pub const ROUND_LIMIT: u32 = 44;

/// Number of bytes at the start of the address space that the start-up
/// program covers.
pub const BOOT_SIZE: usize = 0x100;

/// Address at which the cartridge's program starts.
pub const ENTRY_POINT: u16 = 0x0100;

/// Number of bytes of a cartridge image that are loaded into the flat memory.
pub const FIXED_SIZE: usize = 0x8000;

/// The mathematical state of the whole machine.
pub struct GbView {
    pub cpu: Cpu,
    pub ppu: PpuView,
    pub bus: BusView,
    pub timers: Timers,
    /// Cycles spent in the current frame.
    pub cycles_this_frame: u32,
    /// The first 256 bytes of the cartridge image.
    pub header: Seq<u8>,
    /// Whether the start-up program still covers the start of the cartridge.
    pub boot_rom_mapped: bool,
}

/// `memory` with its start replaced by the start of `bytes`, up to `limit`
/// bytes.
pub open spec fn overlay(memory: Seq<u8>, bytes: Seq<u8>, limit: int) -> Seq<u8> {
    Seq::new(
        memory.len(),
        |i: int|
            if i < bytes.len() && i < limit {
                bytes[i]
            } else {
                memory[i]
            },
    )
}

/// The bus after the first `count` bytes of a cartridge image are loaded:
/// the first two banks into the flat memory, every bank from the second on
/// into the ROM buffer.
pub open spec fn with_image(bus: BusView, image: Seq<u8>, count: int) -> BusView {
    BusView {
        memory: overlay(bus.memory, image.subrange(0, count), FIXED_SIZE as int),
        cartridge_rom: Seq::new(
            bus.cartridge_rom.len(),
            |j: int|
                if j + 0x4000 < count {
                    image[j + 0x4000]
                } else {
                    bus.cartridge_rom[j]
                },
        ),
        ..bus
    }
}

/// The joypad state after button `key_id` went down.
pub open spec fn pressed(state: u8, key_id: u8) -> u8 {
    state & !(1u8 << key_id)
}

/// The joypad state after button `key_id` came up.
pub open spec fn released(state: u8, key_id: u8) -> u8 {
    state | (1u8 << key_id)
}

/// Whether button `key_id` going down requests the joypad interrupt: it was
/// up before, and its row is selected in the joypad register.
pub open spec fn press_interrupts(bus: BusView, key_id: u8) -> bool {
    let selection = bus.memory[JOYPAD_ADDRESS as int] & 0x30;
    (bus.joypad_state >> key_id) & 0x01 != 0 && ((selection & 0x10 == 0 && key_id < 4) || (
    selection & 0x20 == 0 && key_id >= 4))
}

/// The machine at power-on, with no cartridge.
pub open spec fn power_on() -> GbView {
    GbView {
        cpu: power_on_cpu(),
        ppu: power_on_ppu(),
        bus: power_on_bus(),
        timers: Timers { divide_counter: 0, tima_counter: 0 },
        cycles_this_frame: 0,
        header: Seq::empty(),
        boot_rom_mapped: false,
    }
}

impl GbView {
    /// The invariant of the machine.
    pub open spec fn wf(self) -> bool {
        &&& self.ppu.wf()
        &&& self.bus.wf()
        &&& self.cycles_this_frame < FRAME_CYCLES + ROUND_LIMIT
    }

    /// The start-up program is taken off the bus: the first 256 bytes of the
    /// cartridge take its place.
    pub open spec fn unmap_boot_rom(self) -> GbView {
        GbView {
            bus: self.bus.with_memory(overlay(self.bus.memory, self.header, BOOT_SIZE as int)),
            boot_rom_mapped: false,
            ..self
        }
    }

    /// The timers and then the picture unit advance by `cycles`.
    pub open spec fn devices(self, cycles: u32) -> GbView {
        let timed = self.timers.update(self.bus, cycles);
        let drawn = self.ppu.update_graphics(timed.bus, cycles);
        GbView { timers: timed.timers, ppu: drawn.ppu, bus: drawn.bus, ..self }
    }

    /// An interrupt is accepted if one can be, and its cost is added to the
    /// frame's cycles.
    pub open spec fn interrupts(self) -> GbView {
        let served = self.cpu.accept_interrupt(self.bus);
        GbView {
            cpu: served.cpu,
            bus: served.bus,
            cycles_this_frame: (self.cycles_this_frame + served.cycles) as u32,
            ..self
        }
    }

    /// One instruction runs, and its cost is added to the frame's cycles.
    pub open spec fn instruction(self) -> GbView {
        let stepped = self.cpu.step(self.bus, self.bus.read(self.cpu.pc));
        GbView {
            cpu: stepped.cpu,
            bus: stepped.bus,
            cycles_this_frame: (self.cycles_this_frame + stepped.cycles) as u32,
            ..self
        }
    }

    /// What the instruction at the program counter costs.
    pub open spec fn instruction_cycles(self) -> u8 {
        self.cpu.step(self.bus, self.bus.read(self.cpu.pc)).cycles
    }

    /// One round of the scheduler.  While the processor is halted, the
    /// devices advance by 4 cycles, and a pending interrupt wakes the
    /// processor and is accepted.  Otherwise the start-up program is taken
    /// off the bus if the program counter has reached the cartridge's entry
    /// point, one instruction runs, the devices advance by its cost, and an
    /// interrupt is accepted if one can be.
    pub open spec fn tick(self) -> GbView {
        if self.cpu.is_halted {
            let waited = GbView {
                cycles_this_frame: (self.cycles_this_frame + HALT_CYCLES) as u32,
                ..self.devices(HALT_CYCLES)
            };
            if pending_interrupts(waited.bus) != 0 {
                GbView { cpu: Cpu { is_halted: false, ..waited.cpu }, ..waited }.interrupts()
            } else {
                waited
            }
        } else {
            let ready = if self.boot_rom_mapped && self.cpu.pc == ENTRY_POINT {
                self.unmap_boot_rom()
            } else {
                self
            };
            ready.instruction().devices(ready.instruction_cycles() as u32).interrupts()
        }
    }

    /// Rounds of the scheduler until the frame's cycles are spent.
    pub open spec fn run_to_frame_end(self) -> GbView
        decreases
            if self.cycles_this_frame < FRAME_CYCLES {
                FRAME_CYCLES - self.cycles_this_frame
            } else {
                0
            },
    {
        let next = self.tick();
        if self.cycles_this_frame >= FRAME_CYCLES {
            self
        } else if next.cycles_this_frame <= self.cycles_this_frame {
            next
        } else {
            next.run_to_frame_end()
        }
    }

    /// One frame: rounds of the scheduler until 70224 cycles are spent, then
    /// the frame is presented and the count starts again from 0.
    pub open spec fn update(self) -> GbView {
        let end = self.run_to_frame_end();
        GbView { ppu: end.ppu.present(), cycles_this_frame: 0, ..end }
    }

    /// A start-up program is put at the start of the address space.
    pub open spec fn load_boot_rom(self, boot_rom: Seq<u8>) -> GbView {
        GbView {
            bus: self.bus.with_memory(overlay(self.bus.memory, boot_rom, MEMORY_SIZE as int)),
            boot_rom_mapped: true,
            ..self
        }
    }

    /// A cartridge image is inserted: the bus is fitted as its header
    /// declares and the image is loaded.
    pub open spec fn load_rom(self, image: Seq<u8>) -> GbView {
        let header = header_of(image)->Ok_0;
        GbView {
            bus: with_image(
                self.bus.insert_cartridge(header.kind, header.rom_banks, header.ram_banks),
                image,
                image.len() as int,
            ),
            header: image.subrange(0, BOOT_SIZE as int),
            ..self
        }
    }

    /// Button `key_id` goes down.
    pub open spec fn key_pressed(self, key_id: u8) -> GbView {
        let held = BusView { joypad_state: pressed(self.bus.joypad_state, key_id), ..self.bus };
        GbView {
            bus: if press_interrupts(self.bus, key_id) {
                with_request(held, 0x10)
            } else {
                held
            },
            ..self
        }
    }

    /// Button `key_id` comes up.
    pub open spec fn key_released(self, key_id: u8) -> GbView {
        GbView {
            bus: BusView { joypad_state: released(self.bus.joypad_state, key_id), ..self.bus },
            ..self
        }
    }
}

/// Every round of the scheduler adds between 4 and 44 cycles to the frame's
/// count.
pub proof fn law_tick_advances(state: GbView)
    requires
        state.cycles_this_frame < FRAME_CYCLES,
    ensures
        state.cycles_this_frame + 4 <= state.tick().cycles_this_frame <= state.cycles_this_frame
            + ROUND_LIMIT,
{
    let ready = if state.boot_rom_mapped && state.cpu.pc == ENTRY_POINT {
        state.unmap_boot_rom()
    } else {
        state
    };
    let opcode = ready.bus.read(ready.cpu.pc);
    let cpu = ready.cpu.enable_pending();
    law_table_bounds(opcode, true);
    law_table_bounds(opcode, false);
    law_table_bounds(cpu.immediate8(ready.bus), true);
    assert(4 <= ready.instruction_cycles() <= 24);
    if state.cpu.is_halted {
        let waited = GbView {
            cycles_this_frame: (state.cycles_this_frame + HALT_CYCLES) as u32,
            ..state.devices(HALT_CYCLES)
        };
        assert(waited.cycles_this_frame == state.cycles_this_frame + 4);
    } else {
        let ran = ready.instruction();
        assert(ran.cycles_this_frame == state.cycles_this_frame + ready.instruction_cycles());
        let fed = ran.devices(ready.instruction_cycles() as u32);
        assert(fed.cycles_this_frame == ran.cycles_this_frame);
    }
}

/// Once an image is loaded, the switchable window shows the bank that is
/// selected: the byte read at `addr` is the byte of the image at
/// `bank * 0x4000 + (addr - 0x4000)`, for bank 1 as for every later bank
/// that the image holds.
pub proof fn law_window_shows_bank(bus: BusView, image: Seq<u8>, addr: u16)
    requires
        bus.wf(),
        0x4000 <= addr <= 0x7FFF,
        image.len() <= bus.rom_banks_count * 0x4000,
        bus.current_rom_bank * 0x4000 + (addr - 0x4000) < image.len(),
    ensures
        with_image(bus, image, image.len() as int).read(addr) == image[bus.current_rom_bank
            * 0x4000 + (addr - 0x4000)],
{
    reveal(BusView::read);
}

/// A round of the scheduler does not change the count of presented frames.
proof fn lemma_tick_keeps_presented(state: GbView)
    ensures
        state.tick().ppu.frames_presented == state.ppu.frames_presented,
{
    if state.cpu.is_halted {
        let timed = state.timers.update(state.bus, HALT_CYCLES);
        law_update_keeps_presented(state.ppu, timed.bus, HALT_CYCLES);
    } else {
        let ready = if state.boot_rom_mapped && state.cpu.pc == ENTRY_POINT {
            state.unmap_boot_rom()
        } else {
            state
        };
        let ran = ready.instruction();
        let cycles = ready.instruction_cycles() as u32;
        let timed = ran.timers.update(ran.bus, cycles);
        law_update_keeps_presented(ran.ppu, timed.bus, cycles);
    }
}

/// One frame presents exactly one frame: the rounds of the scheduler leave
/// the count of presented frames alone and run until the frame's 70224
/// cycles are spent, and the end of the frame adds one to the count and
/// starts the frame's cycles again from 0.
pub proof fn law_frame_presented_once(state: GbView)
    ensures
        state.run_to_frame_end().ppu.frames_presented == state.ppu.frames_presented,
        state.run_to_frame_end().cycles_this_frame >= FRAME_CYCLES,
        state.update().ppu.frames_presented == state.ppu.present().frames_presented,
        state.update().cycles_this_frame == 0,
    decreases
        if state.cycles_this_frame < FRAME_CYCLES {
            FRAME_CYCLES - state.cycles_this_frame
        } else {
            0
        },
{
    if state.cycles_this_frame < FRAME_CYCLES {
        law_tick_advances(state);
        lemma_tick_keeps_presented(state);
        law_frame_presented_once(state.tick());
    }
}

/// The whole machine: the processor, the picture unit, the bus, the timers
/// and the scheduler's count of cycles.
pub struct GameBoy {
    cycles_this_frame: u32,
    timers: Timers,
    cpu: Cpu,
    ppu: Ppu,
    databus: DataBus,
    cartridge_header: Vec<u8>,
    boot_rom_mapped: bool,
}

impl View for GameBoy {
    type V = GbView;

    closed spec fn view(&self) -> GbView {
        GbView {
            cpu: self.cpu,
            ppu: self.ppu@,
            bus: self.databus@,
            timers: self.timers,
            cycles_this_frame: self.cycles_this_frame,
            header: self.cartridge_header@,
            boot_rom_mapped: self.boot_rom_mapped,
        }
    }
}

impl GameBoy {
    /// The invariant of the machine, stated on the view.
    pub open spec fn wf(&self) -> bool {
        self@.wf()
    }

    /// The machine at power-on, with no cartridge.
    pub fn new() -> (gameboy: GameBoy)
        ensures
            gameboy.wf(),
            gameboy@ == power_on(),
    {
        GameBoy {
            cycles_this_frame: 0,
            timers: Timers::new(),
            cpu: Cpu::new(),
            ppu: Ppu::new(),
            databus: DataBus::new(),
            cartridge_header: Vec::new(),
            boot_rom_mapped: false,
        }
    }

    /// The processor.
    pub fn cpu(&self) -> (cpu: &Cpu)
        ensures
            *cpu == self@.cpu,
    {
        &self.cpu
    }

    /// The picture unit.
    pub fn ppu(&self) -> (ppu: &Ppu)
        ensures
            ppu@ == self@.ppu,
    {
        &self.ppu
    }

    /// The bus.
    pub fn databus(&self) -> (bus: &DataBus)
        ensures
            bus@ == self@.bus,
    {
        &self.databus
    }

    /// Cycles spent in the current frame.
    pub fn cycles_this_frame(&self) -> (cycles: u32)
        ensures
            cycles == self@.cycles_this_frame,
    {
        self.cycles_this_frame
    }

    /// Runs the instruction at the program counter and returns its cost.
    fn exec_next_instruction(&mut self) -> (cycles: u8)
        requires
            old(self).wf(),
            old(self)@.cycles_this_frame < FRAME_CYCLES,
        ensures
            final(self).wf(),
            final(self)@ == old(self)@.instruction(),
            cycles == old(self)@.instruction_cycles(),
            4 <= cycles <= 24,
    {
        let instruction_byte: u8 = self.databus.read_memory(self.cpu.pc);
        proof {
            let cpu = self.cpu.enable_pending();
            law_table_bounds(instruction_byte, true);
            law_table_bounds(instruction_byte, false);
            law_table_bounds(cpu.immediate8(self.databus@), true);
        }
        let cycles: u8 = self.cpu.exec_instruction(&mut self.databus, instruction_byte);
        self.cycles_this_frame = self.cycles_this_frame + cycles as u32;
        cycles
    }

    /// Advances the timers and the picture unit by `cycles`.
    fn update_devices(&mut self, cycles: u32)
        requires
            old(self).wf(),
        ensures
            final(self).wf(),
            final(self)@ == old(self)@.devices(cycles),
    {
        self.timers.update_timers(&mut self.databus, cycles);
        self.ppu.update_graphics(&mut self.databus, cycles);
    }

    /// Accepts an interrupt if one can be accepted.
    fn do_interrupts(&mut self)
        requires
            old(self).wf(),
            old(self)@.cycles_this_frame < FRAME_CYCLES + 24,
        ensures
            final(self).wf(),
            final(self)@ == old(self)@.interrupts(),
    {
        let charged: u8 = self.cpu.service_interrupts(&mut self.databus);
        self.cycles_this_frame = self.cycles_this_frame + charged as u32;
    }

    /// Takes the start-up program off the bus.
    fn overwrite_boot_rom(&mut self)
        requires
            old(self).wf(),
        ensures
            final(self).wf(),
            final(self)@ == old(self)@.unmap_boot_rom(),
    {
        let mut index: usize = 0;
        assert(self@.bus.memory =~= overlay(old(self)@.bus.memory, self@.header, 0));
        while index < BOOT_SIZE && index < self.cartridge_header.len()
            invariant
                0 <= index <= BOOT_SIZE,
                self.wf(),
                self@ == (GbView {
                    bus: old(self)@.bus.with_memory(
                        overlay(old(self)@.bus.memory, old(self)@.header, index as int),
                    ),
                    ..old(self)@
                }),
            decreases BOOT_SIZE - index,
        {
            let byte: u8 = self.cartridge_header[index];
            self.databus.load_rom(index, byte);
            assert(self@.bus.memory =~= overlay(
                old(self)@.bus.memory,
                old(self)@.header,
                index + 1,
            ));
            index = index + 1;
        }
        self.boot_rom_mapped = false;
        assert(self@.bus.memory =~= overlay(
            old(self)@.bus.memory,
            old(self)@.header,
            BOOT_SIZE as int,
        ));
    }

    /// One round of the scheduler.
    fn tick(&mut self)
        requires
            old(self).wf(),
            old(self)@.cycles_this_frame < FRAME_CYCLES,
        ensures
            final(self).wf(),
            final(self)@ == old(self)@.tick(),
    {
        if self.cpu.is_halted {
            self.update_devices(HALT_CYCLES);
            self.cycles_this_frame = self.cycles_this_frame + HALT_CYCLES;
            let enabled: u8 = self.databus.read_memory(IE_ADDRESS);
            let requested: u8 = self.databus.read_memory(IF_ADDRESS);
            if (enabled & requested & 0x1F) != 0 {
                self.cpu.is_halted = false;
                self.do_interrupts();
            }
        } else {
            if self.boot_rom_mapped && self.cpu.pc == ENTRY_POINT {
                self.overwrite_boot_rom();
            }
            let cycles: u8 = self.exec_next_instruction();
            self.update_devices(cycles as u32);
            self.do_interrupts();
        }
    }

    /// Runs one frame: rounds of the scheduler until 70224 cycles are
    /// spent, then the frame is presented.
    pub fn update(&mut self)
        requires
            old(self).wf(),
        ensures
            final(self).wf(),
            final(self)@ == old(self)@.update(),
    {
        while self.cycles_this_frame < FRAME_CYCLES
            invariant
                self.wf(),
                self@.run_to_frame_end() == old(self)@.run_to_frame_end(),
            decreases FRAME_CYCLES + ROUND_LIMIT - self.cycles_this_frame,
        {
            proof {
                law_tick_advances(self@);
            }
            self.tick();
        }
        self.ppu.present();
        self.cycles_this_frame = 0;
    }

    /// Puts a start-up program at the start of the address space; it stays
    /// until the program counter reaches the cartridge's entry point.
    pub fn load_boot_rom(&mut self, boot_rom: &Vec<u8>)
        requires
            old(self).wf(),
        ensures
            final(self).wf(),
            final(self)@ == old(self)@.load_boot_rom(boot_rom@),
    {
        let mut index: usize = 0;
        assert(self@.bus.memory =~= overlay(old(self)@.bus.memory, boot_rom@, 0));
        while index < boot_rom.len()
            invariant
                0 <= index <= boot_rom.len(),
                self.wf(),
                self@ == (GbView {
                    bus: old(self)@.bus.with_memory(
                        overlay(old(self)@.bus.memory, boot_rom@, index as int),
                    ),
                    ..old(self)@
                }),
            decreases boot_rom.len() - index,
        {
            self.databus.load_boot_rom(index, boot_rom[index]);
            assert(self@.bus.memory =~= overlay(old(self)@.bus.memory, boot_rom@, index + 1));
            index = index + 1;
        }
        self.boot_rom_mapped = true;
        assert(self@.bus.memory =~= overlay(
            old(self)@.bus.memory,
            boot_rom@,
            MEMORY_SIZE as int,
        ));
    }

    /// Inserts a cartridge image.  An image whose header cannot be run is
    /// refused with the reason, and the machine stays as it was.
    pub fn load_rom(&mut self, image: &Vec<u8>) -> (loaded: Result<(), CartridgeError>)
        requires
            old(self).wf(),
        ensures
            final(self).wf(),
            match header_of(image@) {
                Ok(_) => loaded is Ok && final(self)@ == old(self)@.load_rom(image@),
                Err(reason) => loaded == Err::<(), CartridgeError>(reason) && final(self)@ == old(
                    self,
                )@,
            },
    {
        let header = match parse_header(image) {
            Ok(header) => header,
            Err(reason) => {
                return Err(reason);
            },
        };
        self.databus.insert_cartridge(header.kind, header.rom_banks, header.ram_banks);
        let ghost fitted = self.databus@;
        let mut index: usize = 0;
        assert(self@.bus.memory =~= with_image(fitted, image@, 0).memory);
        assert(self@.bus.cartridge_rom =~= with_image(fitted, image@, 0).cartridge_rom);
        while index < image.len()
            invariant
                0 <= index <= image.len(),
                self.wf(),
                fitted.wf(),
                self@ == (GbView { bus: with_image(fitted, image@, index as int), ..old(self)@ }),
            decreases image.len() - index,
        {
            self.databus.load_rom(index, image[index]);
            assert(self@.bus.memory =~= with_image(fitted, image@, index + 1).memory);
            assert(self@.bus.cartridge_rom =~= with_image(
                fitted,
                image@,
                index + 1,
            ).cartridge_rom);
            index = index + 1;
        }
        let mut first: Vec<u8> = Vec::new();
        let mut copied: usize = 0;
        while copied < BOOT_SIZE
            invariant
                0 <= copied <= BOOT_SIZE,
                image.len() > BOOT_SIZE,
                first@ == image@.subrange(0, copied as int),
            decreases BOOT_SIZE - copied,
        {
            first.push(image[copied]);
            assert(first@ =~= image@.subrange(0, copied + 1));
            copied = copied + 1;
        }
        self.cartridge_header = first;
        Ok(())
    }

    /// Button `key_id` goes down: its bit of the joypad state is cleared,
    /// and the joypad interrupt is requested if the button was up and its
    /// row is selected.
    pub fn key_pressed(&mut self, key_id: u8)
        requires
            old(self).wf(),
            key_id < 8,
        ensures
            final(self).wf(),
            final(self)@ == old(self)@.key_pressed(key_id),
    {
        let selection: u8 = self.databus.joypad_selection();
        let state: u8 = self.databus.joypad_state();
        let was_up = (state >> key_id) & 0x01 != 0;
        self.databus.set_joypad_state(state & !(1u8 << key_id));
        if was_up && (((selection & 0x10) == 0 && key_id < 4) || ((selection & 0x20) == 0
            && key_id >= 4)) {
            request_interrupt(&mut self.databus, 0x10);
        }
    }

    /// Button `key_id` comes up: its bit of the joypad state is set.
    pub fn key_released(&mut self, key_id: u8)
        requires
            old(self).wf(),
            key_id < 8,
        ensures
            final(self).wf(),
            final(self)@ == old(self)@.key_released(key_id),
    {
        let state: u8 = self.databus.joypad_state();
        self.databus.set_joypad_state(state | (1u8 << key_id));
    }
}

} // verus!
