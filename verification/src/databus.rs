use vstd::prelude::*;

verus! {

/// Number of bytes in the flat address space.
pub const MEMORY_SIZE: usize = 0x10000;

/// Number of bytes in one cartridge ROM bank.
pub const ROM_BANK_SIZE: usize = 0x4000;

/// Number of bytes in one cartridge RAM bank.
pub const RAM_BANK_SIZE: usize = 0x2000;

/// Address of the joypad register.
pub const JOYPAD_ADDRESS: u16 = 0xFF00;

/// Address of the divider register.
pub const DIV_ADDRESS: u16 = 0xFF04;

/// Address of the register that starts a sprite-table transfer.
pub const DMA_ADDRESS: u16 = 0xFF46;

/// The bank controller that sits on the cartridge.
#[derive(Clone, Copy, PartialEq, Eq, Structural, Debug)]
pub enum MbcKind {
    RomOnly,
    Mbc1,
    Mbc2,
}

/// The mathematical state of the bus: the flat memory, the two cartridge
/// buffers and the bank controller's latches.
///
/// `cartridge_rom` holds the cartridge image from its byte `0x4000` on, so
/// that bank 1 starts at index 0 of the buffer.
pub struct BusView {
    pub memory: Seq<u8>,
    pub cartridge_rom: Seq<u8>,
    pub cartridge_ram: Seq<u8>,
    pub mbc: MbcKind,
    pub rom_banks_count: u32,
    pub ram_banks_count: u8,
    pub current_rom_bank: u8,
    pub current_ram_bank: u8,
    pub ram_enabled: bool,
    pub banking_mode: u8,
    pub joypad_state: u8,
    pub address_faults: u32,
}

/// Whether `n` is one of the ROM bank counts a cartridge header can declare:
/// a power of two from 2 to 512.
pub open spec fn valid_rom_banks(n: u32) -> bool {
    n == 2 || n == 4 || n == 8 || n == 16 || n == 32 || n == 64 || n == 128 || n == 256 || n
        == 512
}

/// Whether `n` is one of the RAM bank counts a cartridge header can declare.
pub open spec fn valid_ram_banks(n: u8) -> bool {
    n == 0 || n == 1 || n == 4 || n == 8 || n == 16
}

/// The byte that the flat memory holds at `addr` at power-on.
pub open spec fn power_on_byte(addr: int) -> u8 {
    if addr == 0xFF00 {
        0xCF
    } else if addr == 0xFF02 {
        0x7E
    } else if addr == 0xFF06 {
        0xAB
    } else if addr == 0xFF07 {
        0xFF
    } else if addr == 0xFF0F {
        0xE1
    } else if addr == 0xFF10 {
        0x80
    } else if addr == 0xFF11 {
        0xBF
    } else if addr == 0xFF12 {
        0xF3
    } else if addr == 0xFF13 {
        0xF3
    } else if addr == 0xFF14 {
        0xBF
    } else if addr == 0xFF16 {
        0x3F
    } else if addr == 0xFF18 {
        0xFF
    } else if addr == 0xFF19 {
        0xBF
    } else if addr == 0xFF1A {
        0x7F
    } else if addr == 0xFF1B {
        0xFF
    } else if addr == 0xFF1C {
        0x9F
    } else if addr == 0xFF1D {
        0xFF
    } else if addr == 0xFF1E {
        0xBF
    } else if addr == 0xFF20 {
        0xFF
    } else if addr == 0xFF23 {
        0xBF
    } else if addr == 0xFF24 {
        0x77
    } else if addr == 0xFF25 {
        0xF3
    } else if addr == 0xFF26 {
        0xF1
    } else if addr == 0xFF40 {
        0x91
    } else if addr == 0xFF41 {
        0x85
    } else if addr == 0xFF46 {
        0xFF
    } else if addr == 0xFF47 {
        0xFC
    } else {
        0x00
    }
}

/// The state of the bus at power-on, before a cartridge is inserted.
pub open spec fn power_on_bus() -> BusView {
    BusView {
        memory: Seq::new(MEMORY_SIZE as nat, |a: int| power_on_byte(a)),
        cartridge_rom: Seq::new(ROM_BANK_SIZE as nat, |a: int| 0u8),
        cartridge_ram: Seq::empty(),
        mbc: MbcKind::RomOnly,
        rom_banks_count: 2,
        ram_banks_count: 0,
        current_rom_bank: 1,
        current_ram_bank: 0,
        ram_enabled: false,
        banking_mode: 1,
        joypad_state: 0xFF,
        address_faults: 0,
    }
}

impl BusView {
    /// The invariant of the bus: buffer sizes agree with the bank counts, and
    /// the latches stay in their ranges.
    pub open spec fn wf(self) -> bool {
        &&& self.memory.len() == MEMORY_SIZE
        &&& valid_rom_banks(self.rom_banks_count)
        &&& valid_ram_banks(self.ram_banks_count)
        &&& self.cartridge_rom.len() == (self.rom_banks_count - 1) * ROM_BANK_SIZE
        &&& self.cartridge_ram.len() == self.ram_banks_count * RAM_BANK_SIZE
        &&& self.current_rom_bank >= 1
        &&& self.current_ram_bank <= 3
        &&& self.banking_mode <= 1
    }

    /// Index into `cartridge_rom` of the byte that the switchable window
    /// shows at `addr`.
    pub open spec fn rom_window_index(self, addr: u16) -> int {
        (addr - 0x4000) + (self.current_rom_bank - 1) * ROM_BANK_SIZE
    }

    /// Index into `cartridge_ram` of the byte that the RAM window shows at
    /// `addr`.
    pub open spec fn ram_window_index(self, addr: u16) -> int {
        (addr - 0xA000) + self.current_ram_bank * RAM_BANK_SIZE
    }

    /// What a read of the joypad register returns: the stored selection bits
    /// and, in the low nibble, the selected row of buttons.
    pub open spec fn joypad_register(self) -> u8 {
        let stored = self.memory[JOYPAD_ADDRESS as int];
        if (stored >> 4) & 0x03 == 3 {
            0x0F
        } else if (stored >> 4) & 0x01 == 0 {
            (stored & 0x30) | (self.joypad_state & 0x0F)
        } else {
            (stored & 0x30) | (self.joypad_state >> 4)
        }
    }

    /// The byte that a read at `addr` returns.
    #[verifier::opaque]
    pub open spec fn read(self, addr: u16) -> u8 {
        if 0x4000 <= addr <= 0x7FFF {
            if self.current_rom_bank >= 2 {
                if self.rom_window_index(addr) < self.cartridge_rom.len() {
                    self.cartridge_rom[self.rom_window_index(addr)]
                } else {
                    0xFF
                }
            } else {
                self.memory[addr as int]
            }
        } else if 0xA000 <= addr <= 0xBFFF {
            if self.ram_enabled && self.ram_window_index(addr) < self.cartridge_ram.len() {
                self.cartridge_ram[self.ram_window_index(addr)]
            } else {
                0xFF
            }
        } else if 0xE000 <= addr <= 0xFDFF {
            self.memory[addr - 0x2000]
        } else if 0xFEA0 <= addr <= 0xFEFF {
            0xFF
        } else if addr == JOYPAD_ADDRESS {
            self.joypad_register()
        } else {
            self.memory[addr as int]
        }
    }

    /// The state with the flat memory replaced.
    pub open spec fn with_memory(self, memory: Seq<u8>) -> BusView {
        BusView { memory, ..self }
    }

    /// The state with the ROM bank latch replaced, a zero bank read as bank 1.
    pub open spec fn with_rom_bank(self, bank: u8) -> BusView {
        BusView { current_rom_bank: if bank == 0 { 1u8 } else { bank }, ..self }
    }

    /// A write into `0x0000..=0x1FFF`: the RAM enable latch.
    pub open spec fn write_ram_enable(self, data: u8, addr: u16) -> BusView {
        if self.mbc != MbcKind::RomOnly && self.ram_banks_count > 0 {
            if self.mbc == MbcKind::Mbc2 && addr & 0x100 != 0 {
                self
            } else {
                BusView { ram_enabled: data & 0x0F == 0x0A, ..self }
            }
        } else {
            self
        }
    }

    /// A write into `0x2000..=0x3FFF`: the ROM bank number.
    pub open spec fn write_rom_bank(self, data: u8) -> BusView {
        match self.mbc {
            MbcKind::Mbc1 => self.with_rom_bank((self.current_rom_bank & 0xE0) | (data & 0x1F)),
            MbcKind::Mbc2 => self.with_rom_bank(data & 0x0F),
            MbcKind::RomOnly => self,
        }
    }

    /// A write into `0x4000..=0x5FFF`: the RAM bank number, or the top bits
    /// of the ROM bank number.
    pub open spec fn write_bank_high(self, data: u8) -> BusView {
        if self.mbc == MbcKind::Mbc1 {
            if self.banking_mode == 0 {
                if self.ram_banks_count > 0 {
                    BusView { current_ram_bank: data & 0x03, ..self }
                } else {
                    self
                }
            } else if self.rom_banks_count > 32 {
                self.with_rom_bank((self.current_rom_bank & 0x1F) | (data & 0xE0))
            } else {
                self
            }
        } else {
            self
        }
    }

    /// A write into `0xA000..=0xBFFF`: cartridge RAM, when it is enabled.
    pub open spec fn write_cartridge_ram(self, data: u8, addr: u16) -> BusView {
        if self.ram_enabled && self.ram_window_index(addr) < self.cartridge_ram.len() {
            BusView {
                cartridge_ram: self.cartridge_ram.update(self.ram_window_index(addr), data),
                ..self
            }
        } else {
            self
        }
    }

    /// The address that the `i`-th byte of a sprite-table transfer started
    /// with `page` is read from.
    pub open spec fn dma_source(page: u8, i: int) -> u16 {
        (page * 256 + i) as u16
    }

    /// A write of `page` to the transfer register: the 160 bytes read from
    /// `page * 256` on land in the sprite table.
    pub open spec fn write_dma(self, page: u8) -> BusView {
        self.with_memory(
            Seq::new(
                MEMORY_SIZE as nat,
                |a: int|
                    if 0xFE00 <= a < 0xFEA0 {
                        self.read(Self::dma_source(page, a - 0xFE00))
                    } else {
                        self.memory[a]
                    },
            ),
        )
    }

    /// The state after a write of `data` at `addr`.
    #[verifier::opaque]
    pub open spec fn write(self, data: u8, addr: u16) -> BusView {
        if addr <= 0x1FFF {
            self.write_ram_enable(data, addr)
        } else if addr <= 0x3FFF {
            self.write_rom_bank(data)
        } else if addr <= 0x5FFF {
            self.write_bank_high(data)
        } else if addr <= 0x7FFF {
            BusView { banking_mode: data & 0x01, ..self }
        } else if 0xA000 <= addr <= 0xBFFF {
            self.write_cartridge_ram(data, addr)
        } else if 0xE000 <= addr <= 0xFDFF {
            self.with_memory(self.memory.update(addr as int, data).update(addr - 0x2000, data))
        } else if 0xFEA0 <= addr <= 0xFEFF {
            BusView {
                address_faults: if self.address_faults < u32::MAX {
                    (self.address_faults + 1) as u32
                } else {
                    self.address_faults
                },
                ..self
            }
        } else if addr == JOYPAD_ADDRESS {
            self.with_memory(
                self.memory.update(
                    addr as int,
                    (self.memory[addr as int] & 0xCF) | ((data & 0x03) << 4),
                ),
            )
        } else if addr == DIV_ADDRESS {
            self.with_memory(self.memory.update(addr as int, 0))
        } else if addr == DMA_ADDRESS {
            self.write_dma(data)
        } else {
            self.with_memory(self.memory.update(addr as int, data))
        }
    }

    /// The state after a raw store of `data` into the flat memory at `index`;
    /// an index past the end stores nothing.
    pub open spec fn load_boot_rom(self, index: int, data: u8) -> BusView {
        if 0 <= index < MEMORY_SIZE {
            self.with_memory(self.memory.update(index, data))
        } else {
            self
        }
    }

    /// The state after byte `index` of a cartridge image is loaded: the first
    /// two banks land in the flat memory, every bank from the second on in
    /// the ROM buffer; a byte past the declared size is dropped.
    pub open spec fn load_rom(self, index: int, data: u8) -> BusView {
        BusView {
            memory: if 0 <= index < 0x8000 {
                self.memory.update(index, data)
            } else {
                self.memory
            },
            cartridge_rom: if 0x4000 <= index < 0x4000 + self.cartridge_rom.len() {
                self.cartridge_rom.update(index - 0x4000, data)
            } else {
                self.cartridge_rom
            },
            ..self
        }
    }

    /// The state after one tick of the divider.
    pub open spec fn increment_div_timer(self) -> BusView {
        self.with_memory(
            self.memory.update(
                DIV_ADDRESS as int,
                if self.memory[DIV_ADDRESS as int] == 255 {
                    0u8
                } else {
                    (self.memory[DIV_ADDRESS as int] + 1) as u8
                },
            ),
        )
    }

    /// The state after a cartridge with the given controller and bank counts
    /// is inserted: fresh zeroed buffers, the latches at their reset values.
    pub open spec fn insert_cartridge(self, mbc: MbcKind, rom_banks: u32, ram_banks: u8) -> BusView {
        BusView {
            cartridge_rom: Seq::new(((rom_banks - 1) * ROM_BANK_SIZE) as nat, |a: int| 0u8),
            cartridge_ram: Seq::new((ram_banks * RAM_BANK_SIZE) as nat, |a: int| 0u8),
            mbc,
            rom_banks_count: rom_banks,
            ram_banks_count: ram_banks,
            current_rom_bank: 1,
            current_ram_bank: 0,
            ram_enabled: false,
            ..self
        }
    }
}

/// Ranges of the masked bytes that the bank latches take.
proof fn lemma_latch_ranges(data: u8, bank: u8)
    by (bit_vector)
    ensures
        data & 0x01 <= 1,
        data & 0x03 <= 3,
{
}

/// The address bus with everything attached to it: the flat memory, the
/// cartridge's ROM and RAM and its bank controller, and the joypad lines.
pub struct DataBus {
    memory: Vec<u8>,
    cartridge_rom: Vec<u8>,
    cartridge_ram: Vec<u8>,
    mbc: MbcKind,
    rom_banks_count: u32,
    current_rom_bank: u8,
    joypad_state: u8,
    ram_banks_count: u8,
    current_ram_bank: u8,
    ram_banks_enabled: bool,
    banking_mode: u8,
    address_faults: u32,
}

impl View for DataBus {
    type V = BusView;

    closed spec fn view(&self) -> BusView {
        BusView {
            memory: self.memory@,
            cartridge_rom: self.cartridge_rom@,
            cartridge_ram: self.cartridge_ram@,
            mbc: self.mbc,
            rom_banks_count: self.rom_banks_count,
            ram_banks_count: self.ram_banks_count,
            current_rom_bank: self.current_rom_bank,
            current_ram_bank: self.current_ram_bank,
            ram_enabled: self.ram_banks_enabled,
            banking_mode: self.banking_mode,
            joypad_state: self.joypad_state,
            address_faults: self.address_faults,
        }
    }
}

impl DataBus {
    /// The bus invariant, stated on the view.
    pub open spec fn wf(&self) -> bool {
        self@.wf()
    }

    /// The bus at power-on: the hardware registers at their initial values,
    /// every other byte zero, one empty switchable ROM bank.
    pub fn new() -> (bus: DataBus)
        ensures
            bus.wf(),
            bus@ == power_on_bus(),
    {
        let mut memory: Vec<u8> = vec![0u8; MEMORY_SIZE];
        memory[0xFF00] = 0xCF;
        memory[0xFF02] = 0x7E;
        memory[0xFF06] = 0xAB;
        memory[0xFF07] = 0xFF;
        memory[0xFF0F] = 0xE1;
        memory[0xFF10] = 0x80;
        memory[0xFF11] = 0xBF;
        memory[0xFF12] = 0xF3;
        memory[0xFF13] = 0xF3;
        memory[0xFF14] = 0xBF;
        memory[0xFF16] = 0x3F;
        memory[0xFF18] = 0xFF;
        memory[0xFF19] = 0xBF;
        memory[0xFF1A] = 0x7F;
        memory[0xFF1B] = 0xFF;
        memory[0xFF1C] = 0x9F;
        memory[0xFF1D] = 0xFF;
        memory[0xFF1E] = 0xBF;
        memory[0xFF20] = 0xFF;
        memory[0xFF23] = 0xBF;
        memory[0xFF24] = 0x77;
        memory[0xFF25] = 0xF3;
        memory[0xFF26] = 0xF1;
        memory[0xFF40] = 0x91;
        memory[0xFF41] = 0x85;
        memory[0xFF46] = 0xFF;
        memory[0xFF47] = 0xFC;
        let cartridge_rom: Vec<u8> = vec![0u8; ROM_BANK_SIZE];
        let cartridge_ram: Vec<u8> = Vec::new();
        let bus = DataBus {
            memory,
            cartridge_rom,
            cartridge_ram,
            mbc: MbcKind::RomOnly,
            rom_banks_count: 2,
            current_rom_bank: 1,
            joypad_state: 0xFF,
            ram_banks_count: 0,
            current_ram_bank: 0,
            ram_banks_enabled: false,
            banking_mode: 1,
            address_faults: 0,
        };
        assert(bus@.memory =~= power_on_bus().memory);
        assert(bus@.cartridge_rom =~= power_on_bus().cartridge_rom);
        assert(bus@.cartridge_ram =~= power_on_bus().cartridge_ram);
        bus
    }

    /// Fits the bus with a cartridge: the controller kind and the bank counts
    /// that its header declares, and zeroed buffers of the matching sizes.
    pub fn insert_cartridge(&mut self, mbc: MbcKind, rom_banks: u32, ram_banks: u8)
        requires
            old(self).wf(),
            valid_rom_banks(rom_banks),
            valid_ram_banks(ram_banks),
        ensures
            final(self).wf(),
            final(self)@ == old(self)@.insert_cartridge(mbc, rom_banks, ram_banks),
    {
        let rom_len: usize = (rom_banks as usize - 1) * ROM_BANK_SIZE;
        let ram_len: usize = ram_banks as usize * RAM_BANK_SIZE;
        self.cartridge_rom = vec![0u8; rom_len];
        self.cartridge_ram = vec![0u8; ram_len];
        self.mbc = mbc;
        self.rom_banks_count = rom_banks;
        self.ram_banks_count = ram_banks;
        self.current_rom_bank = 1;
        self.current_ram_bank = 0;
        self.ram_banks_enabled = false;
        proof {
            let target = old(self)@.insert_cartridge(mbc, rom_banks, ram_banks);
            assert(self@.cartridge_rom =~= target.cartridge_rom);
            assert(self@.cartridge_ram =~= target.cartridge_ram);
        }
    }

    /// Stores `data` at `index` of the flat memory, with no side effect; an
    /// index past the end stores nothing.
    pub fn load_boot_rom(&mut self, index: usize, data: u8)
        requires
            old(self).wf(),
        ensures
            final(self).wf(),
            final(self)@ == old(self)@.load_boot_rom(index as int, data),
    {
        if index < MEMORY_SIZE {
            self.memory[index] = data;
        }
    }

    /// Loads byte `index` of a cartridge image: into the flat memory when it
    /// belongs to the first two banks, into the ROM buffer when it belongs to
    /// the second bank or a later one.
    pub fn load_rom(&mut self, index: usize, data: u8)
        requires
            old(self).wf(),
        ensures
            final(self).wf(),
            final(self)@ == old(self)@.load_rom(index as int, data),
    {
        if index < 0x8000 {
            self.memory[index] = data;
        }
        if index >= ROM_BANK_SIZE && index - ROM_BANK_SIZE < self.cartridge_rom.len() {
            self.cartridge_rom[index - ROM_BANK_SIZE] = data;
        }
    }

    /// Advances the divider register by one, wrapping at 255.
    pub fn increment_div_timer(&mut self)
        requires
            old(self).wf(),
        ensures
            final(self).wf(),
            final(self)@ == old(self)@.increment_div_timer(),
    {
        let div: u8 = self.memory[0xFF04];
        self.memory[0xFF04] = div.wrapping_add(1);
    }

    /// Reads the byte at `addr`, through the bank windows, the echo of work
    /// RAM and the joypad register.
    pub fn read_memory(&self, addr: u16) -> (value: u8)
        requires
            self.wf(),
        ensures
            value == self@.read(addr),
    {
        reveal(BusView::read);
        if 0x4000 <= addr && addr <= 0x7FFF {
            if self.current_rom_bank >= 2 {
                let index: usize = (addr as usize - 0x4000) + (self.current_rom_bank as usize - 1)
                    * ROM_BANK_SIZE;
                if index < self.cartridge_rom.len() {
                    self.cartridge_rom[index]
                } else {
                    0xFF
                }
            } else {
                self.memory[addr as usize]
            }
        } else if 0xA000 <= addr && addr <= 0xBFFF {
            let index: usize = (addr as usize - 0xA000) + self.current_ram_bank as usize
                * RAM_BANK_SIZE;
            if self.ram_banks_enabled && index < self.cartridge_ram.len() {
                self.cartridge_ram[index]
            } else {
                0xFF
            }
        } else if 0xE000 <= addr && addr <= 0xFDFF {
            self.memory[addr as usize - 0x2000]
        } else if 0xFEA0 <= addr && addr <= 0xFEFF {
            0xFF
        } else if addr == JOYPAD_ADDRESS {
            let stored: u8 = self.memory[0xFF00];
            if (stored >> 4) & 0x03 == 3 {
                0x0F
            } else if (stored >> 4) & 0x01 == 0 {
                (stored & 0x30) | (self.joypad_state & 0x0F)
            } else {
                (stored & 0x30) | (self.joypad_state >> 4)
            }
        } else {
            self.memory[addr as usize]
        }
    }

    /// Sets the ROM bank latch, reading a zero bank as bank 1.
    fn select_rom_bank(&mut self, bank: u8)
        requires
            old(self).wf(),
        ensures
            final(self).wf(),
            final(self)@ == old(self)@.with_rom_bank(bank),
    {
        if bank == 0 {
            self.current_rom_bank = 1;
        } else {
            self.current_rom_bank = bank;
        }
    }

    /// Carries out a sprite-table transfer from `page * 256`.
    fn dma_transfer(&mut self, page: u8)
        requires
            old(self).wf(),
        ensures
            final(self).wf(),
            final(self)@ == old(self)@.write_dma(page),
    {
        reveal(BusView::read);
        let source: u16 = (page as u16) << 8;
        assert(source == page * 256) by (bit_vector)
            requires
                source == (page as u16) << 8,
        ;
        let mut i: u16 = 0;
        while i < 0xA0
            invariant
                0 <= i <= 0xA0,
                source == page * 256,
                self.wf(),
                self@.with_memory(old(self)@.memory) == old(self)@,
                forall|a: int|
                    0 <= a < MEMORY_SIZE && !(0xFE00 <= a < 0xFE00 + i) ==> self@.memory[a] == old(
                        self,
                    )@.memory[a],
                forall|a: int|
                    0xFE00 <= a < 0xFE00 + i ==> self@.memory[a] == old(self)@.read(
                        BusView::dma_source(page, a - 0xFE00),
                    ),
            decreases 0xA0 - i,
        {
            let value: u8 = self.read_memory(source + i);
            proof {
                reveal(BusView::read);
            }
            assert(value == old(self)@.read(BusView::dma_source(page, i as int)));
            self.memory[0xFE00 + i as usize] = value;
            i = i + 1;
        }
        assert(self@.memory =~= old(self)@.write_dma(page).memory);
    }

    /// Writes `data` at `addr`: into the controller's latches below `0x8000`,
    /// into cartridge RAM when it is enabled, into work RAM and its echo, and
    /// with the side effects of the joypad, divider and transfer registers.
    pub fn write_memory(&mut self, data: u8, addr: u16)
        requires
            old(self).wf(),
        ensures
            final(self).wf(),
            final(self)@ == old(self)@.write(data, addr),
    {
        reveal(BusView::write);
        proof {
            lemma_latch_ranges(data, self.current_rom_bank);
        }
        if addr <= 0x1FFF {
            if !matches!(self.mbc, MbcKind::RomOnly) && self.ram_banks_count > 0 {
                if matches!(self.mbc, MbcKind::Mbc2) && (addr & 0x100) != 0 {
                } else {
                    self.ram_banks_enabled = data & 0x0F == 0x0A;
                }
            }
        } else if addr <= 0x3FFF {
            match self.mbc {
                MbcKind::Mbc1 => {
                    let bank: u8 = (self.current_rom_bank & 0xE0) | (data & 0x1F);
                    self.select_rom_bank(bank);
                },
                MbcKind::Mbc2 => {
                    self.select_rom_bank(data & 0x0F);
                },
                MbcKind::RomOnly => {},
            }
        } else if addr <= 0x5FFF {
            if matches!(self.mbc, MbcKind::Mbc1) {
                if self.banking_mode == 0 {
                    if self.ram_banks_count > 0 {
                        self.current_ram_bank = data & 0x03;
                    }
                } else if self.rom_banks_count > 32 {
                    let bank: u8 = (self.current_rom_bank & 0x1F) | (data & 0xE0);
                    self.select_rom_bank(bank);
                }
            }
        } else if addr <= 0x7FFF {
            self.banking_mode = data & 0x01;
        } else if 0xA000 <= addr && addr <= 0xBFFF {
            let index: usize = (addr as usize - 0xA000) + self.current_ram_bank as usize
                * RAM_BANK_SIZE;
            if self.ram_banks_enabled && index < self.cartridge_ram.len() {
                self.cartridge_ram[index] = data;
            }
        } else if 0xE000 <= addr && addr <= 0xFDFF {
            self.memory[addr as usize] = data;
            self.memory[addr as usize - 0x2000] = data;
        } else if 0xFEA0 <= addr && addr <= 0xFEFF {
            if self.address_faults < u32::MAX {
                self.address_faults = self.address_faults + 1;
            }
        } else if addr == JOYPAD_ADDRESS {
            let stored: u8 = self.memory[0xFF00];
            self.memory[0xFF00] = (stored & 0xCF) | ((data & 0x03) << 4);
        } else if addr == DIV_ADDRESS {
            self.memory[0xFF04] = 0;
        } else if addr == DMA_ADDRESS {
            self.dma_transfer(data);
        } else {
            self.memory[addr as usize] = data;
        }
    }

    /// The two row-selection bits that the joypad register stores, in bits
    /// 4 and 5: a clear bit 4 selects the direction pad, a clear bit 5 the
    /// buttons.
    pub fn joypad_selection(&self) -> (bits: u8)
        requires
            self.wf(),
        ensures
            bits == self@.memory[JOYPAD_ADDRESS as int] & 0x30,
    {
        self.memory[0xFF00] & 0x30
    }

    /// The 8-bit joypad state: one bit per button, 1 for released.
    pub fn joypad_state(&self) -> (state: u8)
        ensures
            state == self@.joypad_state,
    {
        self.joypad_state
    }

    /// Replaces the joypad state.
    pub fn set_joypad_state(&mut self, state: u8)
        ensures
            final(self)@ == (BusView { joypad_state: state, ..old(self)@ }),
    {
        self.joypad_state = state;
    }

    /// The number of the ROM bank that the switchable window shows.
    pub fn current_rom_bank(&self) -> (bank: u8)
        ensures
            bank == self@.current_rom_bank,
    {
        self.current_rom_bank
    }

    /// The number of the RAM bank that the RAM window shows.
    pub fn current_ram_bank(&self) -> (bank: u8)
        ensures
            bank == self@.current_ram_bank,
    {
        self.current_ram_bank
    }

    /// Whether cartridge RAM is enabled.
    pub fn ram_enabled(&self) -> (enabled: bool)
        ensures
            enabled == self@.ram_enabled,
    {
        self.ram_banks_enabled
    }

    /// The banking mode latch, 0 or 1.
    pub fn banking_mode(&self) -> (mode: u8)
        ensures
            mode == self@.banking_mode,
    {
        self.banking_mode
    }

    /// How many writes into the prohibited range have been discarded so far,
    /// up to `u32::MAX`.
    pub fn address_faults(&self) -> (count: u32)
        ensures
            count == self@.address_faults,
    {
        self.address_faults
    }
}

/// On a cartridge with the first controller and with RAM, a write of `0x2A`
/// anywhere in `0x0000..=0x1FFF` enables cartridge RAM and a write of `0x00`
/// disables it; while it is disabled, every read in `0xA000..=0xBFFF` gives
/// `0xFF` and every write there leaves the bus as it was.
pub proof fn law_ram_gate(bus: BusView, latch: u16, window: u16, data: u8)
    requires
        bus.wf(),
        bus.mbc == MbcKind::Mbc1,
        bus.ram_banks_count > 0,
        latch <= 0x1FFF,
        0xA000 <= window <= 0xBFFF,
    ensures
        bus.write(0x2A, latch).ram_enabled,
        !bus.write(0x00, latch).ram_enabled,
        bus.write(0x00, latch).read(window) == 0xFF,
        bus.write(0x00, latch).write(data, window) == bus.write(0x00, latch),
{
    reveal(BusView::read);
    reveal(BusView::write);
    assert(0x2Au8 & 0x0F == 0x0A && 0x00u8 & 0x0F != 0x0A) by (bit_vector);
}

/// A bank number of zero reads as one.
proof fn lemma_bank_zero(bank: u8)
    by (bit_vector)
    requires
        bank < 0x20,
    ensures
        (bank & 0xE0) | (0x00u8 & 0x1F) == 0,
{
}

/// On a cartridge with the first controller whose ROM bank number is below
/// 32, a write of `0x00` anywhere in `0x2000..=0x3FFF` selects bank 1, not
/// bank 0, and the switchable window then shows the flat memory, which
/// holds bank 1 once an image is loaded.
pub proof fn law_bank_zero_is_bank_one(bus: BusView, latch: u16, window: u16)
    requires
        bus.wf(),
        bus.mbc == MbcKind::Mbc1,
        bus.current_rom_bank < 0x20,
        0x2000 <= latch <= 0x3FFF,
        0x4000 <= window <= 0x7FFF,
    ensures
        bus.write(0x00, latch).current_rom_bank == 1,
        bus.write(0x00, latch).read(window) == bus.memory[window as int],
{
    reveal(BusView::read);
    reveal(BusView::write);
    lemma_bank_zero(bus.current_rom_bank);
}

/// Work RAM and its echo show the same bytes: a byte written at an address in
/// `0xC000..=0xDDFF` is read back `0x2000` above it, and a byte written at an
/// address in `0xE000..=0xFDFF` is read back `0x2000` below it.
pub proof fn law_echo_mirror(bus: BusView, addr: u16, data: u8)
    requires
        bus.wf(),
        0xC000 <= addr <= 0xDDFF,
    ensures
        bus.write(data, addr).read((addr + 0x2000) as u16) == data,
        bus.write(data, (addr + 0x2000) as u16).read(addr) == data,
        bus.write(data, (addr + 0x2000) as u16).read((addr + 0x2000) as u16) == data,
{
    reveal(BusView::read);
    reveal(BusView::write);
}

/// A write of `page` to the transfer register copies the 160 bytes that are
/// read from `page * 256` on into the sprite table at `0xFE00..=0xFE9F`, and
/// changes no other byte of the flat memory.
pub proof fn law_dma_copies(bus: BusView, page: u8, i: u16)
    requires
        bus.wf(),
        i < 0xA0,
    ensures
        bus.write(page, DMA_ADDRESS).read((0xFE00 + i) as u16) == bus.read(
            (page * 256 + i) as u16,
        ),
        forall|a: int|
            0 <= a < MEMORY_SIZE && !(0xFE00 <= a < 0xFEA0) ==> bus.write(
                page,
                DMA_ADDRESS,
            ).memory[a] == bus.memory[a],
{
    reveal(BusView::read);
    reveal(BusView::write);
}

/// The prohibited range `0xFEA0..=0xFEFF` reads `0xFF`, and a write into it
/// changes no byte that can be read.
pub proof fn law_prohibited_range(bus: BusView, addr: u16, data: u8, at: u16)
    requires
        bus.wf(),
        0xFEA0 <= addr <= 0xFEFF,
    ensures
        bus.read(addr) == 0xFF,
        bus.write(data, addr).read(at) == bus.read(at),
{
    reveal(BusView::read);
    reveal(BusView::write);
}

} // verus!
