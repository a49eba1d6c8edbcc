use gameooy::databus::DataBus;
use gameooy::timer::Timers;

fn timer_bus(tac: u8, tima: u8, tma: u8) -> DataBus {
    let mut bus = DataBus::new();
    bus.write_memory(tac, 0xFF07);
    bus.write_memory(tima, 0xFF05);
    bus.write_memory(tma, 0xFF06);
    bus.write_memory(0x00, 0xFF0F);
    bus
}

#[test]
fn timer_overflow_reloads_and_interrupts() {
    let mut bus = timer_bus(0b101, 0x00, 0x42);
    let mut timers = Timers::new();
    timers.update_timers(&mut bus, 16 * 256);
    assert_eq!(bus.read_memory(0xFF05), 0x42);
    assert_eq!(bus.read_memory(0xFF0F) & 0x04, 0x04);
}

#[test]
fn timer_overflow_in_small_steps() {
    let mut bus = timer_bus(0b101, 0x00, 0x42);
    let mut timers = Timers::new();
    for step in 0..1024 {
        assert_eq!(bus.read_memory(0xFF0F) & 0x04, 0);
        assert_eq!(bus.read_memory(0xFF05), (step / 4) as u8);
        timers.update_timers(&mut bus, 4);
    }
    assert_eq!(bus.read_memory(0xFF05), 0x42);
    assert_eq!(bus.read_memory(0xFF0F), 0x04);
    assert_eq!(timers.tima_counter, 0);
}

#[test]
fn every_clock_period() {
    for (select, period) in [(0u8, 1024u32), (1, 16), (2, 64), (3, 256)] {
        assert_eq!(Timers::update_clock_frequency(select), period);
        assert_eq!(Timers::update_clock_frequency(select | 0xFC), period);
        let mut bus = timer_bus(0x04 | select, 0x10, 0x00);
        let mut timers = Timers::new();
        timers.update_timers(&mut bus, period - 1);
        assert_eq!(bus.read_memory(0xFF05), 0x10);
        assert_eq!(timers.tima_counter, period - 1);
        timers.update_timers(&mut bus, 1);
        assert_eq!(bus.read_memory(0xFF05), 0x11);
        assert_eq!(timers.tima_counter, 0);
        timers.update_timers(&mut bus, 3 * period + 5);
        assert_eq!(bus.read_memory(0xFF05), 0x14);
        assert_eq!(timers.tima_counter, 5);
    }
}

#[test]
fn stopped_timer_does_not_count() {
    let mut bus = timer_bus(0b001, 0x10, 0x00);
    let mut timers = Timers::new();
    timers.update_timers(&mut bus, 5000);
    assert_eq!(bus.read_memory(0xFF05), 0x10);
    assert_eq!(timers.tima_counter, 0);
    assert_eq!(bus.read_memory(0xFF0F), 0x00);
}

#[test]
fn divider_ticks_every_256_cycles() {
    let mut bus = timer_bus(0x00, 0, 0);
    let mut timers = Timers::new();
    timers.update_timers(&mut bus, 255);
    assert_eq!(bus.read_memory(0xFF04), 0);
    timers.update_timers(&mut bus, 1);
    assert_eq!(bus.read_memory(0xFF04), 1);
    assert_eq!(timers.divide_counter, 0);
    timers.update_div_timer(&mut bus, 256 * 300 + 7);
    assert_eq!(bus.read_memory(0xFF04), 45);
    assert_eq!(timers.divide_counter, 7);
    bus.write_memory(0x55, 0xFF04);
    assert_eq!(bus.read_memory(0xFF04), 0);
}

#[test]
fn period_change_applies_to_the_next_tick() {
    let mut bus = timer_bus(0b111, 0x00, 0x00);
    let mut timers = Timers::new();
    timers.update_timers(&mut bus, 100);
    assert_eq!(bus.read_memory(0xFF05), 0);
    bus.write_memory(0b110, 0xFF07);
    timers.update_timers(&mut bus, 4);
    assert_eq!(bus.read_memory(0xFF05), 1);
    assert_eq!(timers.tima_counter, 40);
}
