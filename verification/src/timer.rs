use crate::alu::lemma_div_mod;
use crate::cpu::IF_ADDRESS;
use crate::databus::{BusView, DataBus, DIV_ADDRESS};
use crate::ppu::{request_interrupt, with_request};
use vstd::prelude::*;

verus! {

/// Address of the timer counter.
pub const TIMA_ADDRESS: u16 = 0xFF05;

/// Address of the value that the timer counter restarts from.
pub const TMA_ADDRESS: u16 = 0xFF06;

/// Address of the timer control register.
pub const TAC_ADDRESS: u16 = 0xFF07;

/// Cycles between two ticks of the divider.
pub const DIV_PERIOD: u32 = 256;

/// The two timers' tallies of cycles not yet turned into ticks.
#[derive(Clone, Copy, PartialEq, Eq, Structural, Debug)]
pub struct Timers {
    pub divide_counter: u32,
    pub tima_counter: u32,
}

/// The timers and the bus together.
pub struct Timed {
    pub timers: Timers,
    pub bus: BusView,
}

/// Cycles between two ticks of the timer counter, by the two low bits of
/// the control register.
pub open spec fn clock_period(tac: u8) -> u32 {
    if tac & 0x03 == 0 {
        1024
    } else if tac & 0x03 == 1 {
        16
    } else if tac & 0x03 == 2 {
        64
    } else {
        256
    }
}

/// The bus after `ticks` ticks of the divider: the register has advanced by
/// `ticks` modulo 256.
pub open spec fn with_div_ticks(bus: BusView, ticks: int) -> BusView {
    bus.with_memory(
        bus.memory.update(
            DIV_ADDRESS as int,
            ((bus.memory[DIV_ADDRESS as int] + ticks) % 256) as u8,
        ),
    )
}

/// The bus after one tick of the timer counter: the counter goes up by one,
/// or, from 255, restarts from the modulo register and requests the timer
/// interrupt.
pub open spec fn tima_tick(bus: BusView) -> BusView {
    if bus.read(TIMA_ADDRESS) == 255 {
        with_request(bus.write(bus.read(TMA_ADDRESS), TIMA_ADDRESS), 0x04)
    } else {
        bus.write((bus.read(TIMA_ADDRESS) + 1) as u8, TIMA_ADDRESS)
    }
}

/// The bus after `ticks` ticks of the timer counter.
pub open spec fn tima_ticks(bus: BusView, ticks: int) -> BusView
    decreases ticks,
{
    if ticks <= 0 {
        bus
    } else {
        tima_tick(tima_ticks(bus, ticks - 1))
    }
}

impl Timers {
    /// The divider after `cycles` more cycles: one tick for every 256
    /// cycles tallied.
    pub open spec fn update_div(self, bus: BusView, cycles: u32) -> Timed {
        Timed {
            timers: Timers {
                divide_counter: ((self.divide_counter + cycles) % 256) as u32,
                ..self
            },
            bus: with_div_ticks(bus, (self.divide_counter + cycles) / 256),
        }
    }

    /// The timer counter after `cycles` more cycles: nothing while bit 2 of
    /// the control register is clear, else one tick for every period
    /// tallied, the period being the one that the control register selects
    /// now.
    pub open spec fn update_tima(self, bus: BusView, cycles: u32) -> Timed {
        let tac = bus.read(TAC_ADDRESS);
        if tac & 0x04 == 0 {
            Timed { timers: self, bus }
        } else {
            Timed {
                timers: Timers {
                    tima_counter: ((self.tima_counter + cycles) % (clock_period(tac) as int)) as u32,
                    ..self
                },
                bus: tima_ticks(bus, (self.tima_counter + cycles) / (clock_period(tac) as int)),
            }
        }
    }

    /// Both timers after `cycles` more cycles: the divider first.
    pub open spec fn update(self, bus: BusView, cycles: u32) -> Timed {
        let divided = self.update_div(bus, cycles);
        divided.timers.update_tima(divided.bus, cycles)
    }

    /// The timers at power-on: nothing tallied.
    pub fn new() -> (timers: Timers)
        ensures
            timers == (Timers { divide_counter: 0, tima_counter: 0 }),
    {
        Timers { divide_counter: 0, tima_counter: 0 }
    }

    /// Advances the divider by `cycles` cycles.
    pub fn update_div_timer(&mut self, bus: &mut DataBus, cycles: u32)
        requires
            old(bus).wf(),
        ensures
            final(bus).wf(),
            (Timed { timers: *final(self), bus: final(bus)@ }) == old(self).update_div(
                old(bus)@,
                cycles,
            ),
    {
        let total: u64 = self.divide_counter as u64 + cycles as u64;
        let ticks: u64 = total / 256;
        self.divide_counter = (total % 256) as u32;
        let steps: u64 = ticks % 256;
        let mut done: u64 = 0;
        assert(bus@.memory =~= with_div_ticks(old(bus)@, 0).memory);
        while done < steps
            invariant
                0 <= done <= steps < 256,
                bus.wf(),
                old(bus).wf(),
                bus@ == with_div_ticks(old(bus)@, done as int),
            decreases steps - done,
        {
            let ghost start: int = old(bus)@.memory[DIV_ADDRESS as int] as int;
            proof {
                lemma_div_mod(
                    start + done + 1,
                    256,
                    (start + done) / 256 + if (start + done) % 256 == 255 { 1int } else { 0int },
                    if (start + done) % 256 == 255 { 0int } else { (start + done) % 256 + 1 },
                );
            }
            bus.increment_div_timer();
            assert(bus@.memory =~= with_div_ticks(old(bus)@, done + 1).memory);
            done = done + 1;
        }
        proof {
            let start: int = old(bus)@.memory[DIV_ADDRESS as int] as int;
            lemma_same_residue(start + steps, ticks as int / 256);
            assert(start + ticks == start + steps + (ticks as int / 256) * 256);
        }
    }

    /// The period that the control register selects.
    pub fn update_clock_frequency(tac: u8) -> (period: u32)
        ensures
            period == clock_period(tac),
    {
        let select: u8 = tac & 0x03;
        if select == 0 {
            1024
        } else if select == 1 {
            16
        } else if select == 2 {
            64
        } else {
            256
        }
    }

    /// Advances both timers by `cycles` cycles.
    pub fn update_timers(&mut self, bus: &mut DataBus, cycles: u32)
        requires
            old(bus).wf(),
        ensures
            final(bus).wf(),
            (Timed { timers: *final(self), bus: final(bus)@ }) == old(self).update(
                old(bus)@,
                cycles,
            ),
    {
        self.update_div_timer(bus, cycles);
        let ghost divided = bus@;
        let tac: u8 = bus.read_memory(TAC_ADDRESS);
        if (tac & 0x04) != 0 {
            let period: u64 = Self::update_clock_frequency(tac) as u64;
            let total: u64 = self.tima_counter as u64 + cycles as u64;
            let ticks: u64 = total / period;
            self.tima_counter = (total % period) as u32;
            let mut done: u64 = 0;
            while done < ticks
                invariant
                    0 <= done <= ticks,
                    bus.wf(),
                    bus@ == tima_ticks(divided, done as int),
                decreases ticks - done,
            {
                let counter: u8 = bus.read_memory(TIMA_ADDRESS);
                if counter == 255 {
                    let restart: u8 = bus.read_memory(TMA_ADDRESS);
                    bus.write_memory(restart, TIMA_ADDRESS);
                    request_interrupt(bus, 0x04);
                } else {
                    bus.write_memory(counter + 1, TIMA_ADDRESS);
                }
                done = done + 1;
            }
        }
    }
}

/// While the timer counter stays below its overflow, `ticks` ticks add
/// `ticks` to it and change neither the modulo register nor the interrupt
/// requests.
proof fn lemma_count_up(bus: BusView, ticks: int)
    requires
        bus.wf(),
        0 <= ticks,
        bus.read(TIMA_ADDRESS) + ticks <= 255,
    ensures
        tima_ticks(bus, ticks).wf(),
        tima_ticks(bus, ticks).read(TIMA_ADDRESS) == bus.read(TIMA_ADDRESS) + ticks,
        tima_ticks(bus, ticks).read(TMA_ADDRESS) == bus.read(TMA_ADDRESS),
        tima_ticks(bus, ticks).read(IF_ADDRESS) == bus.read(IF_ADDRESS),
    decreases ticks,
{
    if ticks > 0 {
        lemma_count_up(bus, ticks - 1);
        reveal(BusView::read);
        reveal(BusView::write);
    }
}

/// The bit that the timer requests is set once it is raised.
proof fn lemma_timer_bit(requested: u8)
    by (bit_vector)
    ensures
        (requested | 0x04) & 0x04 != 0,
{
}

/// With the timer running and nothing tallied, as many periods as the
/// counter is short of 256 make it overflow: it restarts from the modulo
/// register, the timer interrupt is requested, and nothing stays tallied.
pub proof fn law_timer_overflow(timers: Timers, bus: BusView, cycles: u32)
    requires
        bus.wf(),
        timers.tima_counter == 0,
        bus.read(TAC_ADDRESS) & 0x04 != 0,
        cycles == clock_period(bus.read(TAC_ADDRESS)) * (256 - bus.read(TIMA_ADDRESS)),
    ensures
        timers.update(bus, cycles).bus.read(TIMA_ADDRESS) == bus.read(TMA_ADDRESS),
        timers.update(bus, cycles).bus.read(IF_ADDRESS) & 0x04 != 0,
        timers.update(bus, cycles).timers.tima_counter == 0,
{
    let divided = timers.update_div(bus, cycles);
    assert(divided.bus.wf() && divided.bus.read(TAC_ADDRESS) == bus.read(TAC_ADDRESS)
        && divided.bus.read(TIMA_ADDRESS) == bus.read(TIMA_ADDRESS) && divided.bus.read(
        TMA_ADDRESS,
    ) == bus.read(TMA_ADDRESS)) by {
        reveal(BusView::read);
    }
    let period = clock_period(bus.read(TAC_ADDRESS)) as int;
    let short = 256 - bus.read(TIMA_ADDRESS);
    assert(period == 1024 || period == 16 || period == 64 || period == 256);
    lemma_div_mod(cycles as int, period, short, 0);
    lemma_count_up(divided.bus, short - 1);
    let full = tima_ticks(divided.bus, short - 1);
    assert(tima_ticks(divided.bus, short) == tima_tick(full));
    lemma_timer_bit(full.write(full.read(TMA_ADDRESS), TIMA_ADDRESS).read(IF_ADDRESS));
    assert(tima_tick(full).read(TIMA_ADDRESS) == bus.read(TMA_ADDRESS) && tima_tick(full).read(
        IF_ADDRESS,
    ) & 0x04 != 0) by {
        reveal(BusView::read);
        reveal(BusView::write);
    }
}

/// Adding a multiple of 256 does not change a residue modulo 256.
proof fn lemma_same_residue(x: int, k: int)
    requires
        x >= 0,
        k >= 0,
    ensures
        (x + k * 256) % 256 == x % 256,
{
    lemma_div_mod(x + k * 256, 256, x / 256 + k, x % 256);
}

} // verus!
