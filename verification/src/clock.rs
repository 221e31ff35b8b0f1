//! Clock rates, computed from the fields of the system configuration
//! registers.

use vstd::prelude::*;

verus! {

/// Rate of the internal oscillator, which also feeds the PLL, in Hz.
pub const OSCILLATOR_RATE: u32 = 12_000_000;

/// Rates of the watchdog oscillator in Hz, by its frequency selector.
pub const WDT_OSC_RATE: [u32; 16] = [
    0x00000000,
    0x000927C0,
    0x00100590,
    0x00155CC0,
    0x001AB3F0,
    0x00200B20,
    0x00249F00,
    0x002932E0,
    0x002DC6C0,
    0x00319750,
    0x003567E0,
    0x00393870,
    0x003D0900,
    0x00401640,
    0x00432380,
    0x004630C0,
];

/// What drives the main clock.
#[derive(Clone, Copy, Debug, PartialEq, Eq, Structural)]
pub enum MainClockSource {
    /// The internal oscillator.
    IrcOscillator,
    /// The input of the system PLL.
    PllInput,
    /// The watchdog oscillator.
    WatchdogOscillator,
    /// The output of the system PLL.
    PllOutput,
}

/// The register fields that the clock rates depend on.
#[derive(Clone, Copy, Debug, PartialEq, Eq, Structural)]
pub struct ClockRegisters {
    /// Source of the main clock.
    pub source: MainClockSource,
    /// Frequency selector of the watchdog oscillator, below 16.
    pub watchdog_freqsel: u8,
    /// Divider selector of the watchdog oscillator.
    pub watchdog_divsel: u8,
    /// Feedback divider of the system PLL.
    pub pll_msel: u8,
    /// Divider between the main clock and the system clock.
    pub ahb_divider: u8,
}

/// The rate of the main clock in Hz.
pub open spec fn main_clock_rate(registers: ClockRegisters) -> int {
    match registers.source {
        MainClockSource::IrcOscillator => OSCILLATOR_RATE as int,
        MainClockSource::PllInput => OSCILLATOR_RATE as int,
        MainClockSource::WatchdogOscillator => (WDT_OSC_RATE[registers.watchdog_freqsel as int]
            as int) / (registers.watchdog_divsel * 2 + 2),
        MainClockSource::PllOutput => (registers.pll_msel + 1) * OSCILLATOR_RATE,
    }
}

/// The rate of the system clock in Hz.
pub open spec fn system_clock_rate(registers: ClockRegisters) -> int {
    main_clock_rate(registers) / (registers.ahb_divider as int)
}

/// The rate of the main clock in Hz.
pub fn get_main_clock_rate(registers: &ClockRegisters) -> (rate: u32)
    requires
        registers.source is WatchdogOscillator ==> registers.watchdog_freqsel < 16,
    ensures
        rate == main_clock_rate(*registers),
{
    match registers.source {
        MainClockSource::IrcOscillator => OSCILLATOR_RATE,
        MainClockSource::PllInput => OSCILLATOR_RATE,
        MainClockSource::WatchdogOscillator => {
            WDT_OSC_RATE[registers.watchdog_freqsel as usize] / ((registers.watchdog_divsel as u32)
                * 2 + 2)
        },
        MainClockSource::PllOutput => ((registers.pll_msel as u32) + 1) * OSCILLATOR_RATE,
    }
}

/// The rate of the system clock in Hz.
pub fn get_system_clock_rate(registers: &ClockRegisters) -> (rate: u32)
    requires
        registers.source is WatchdogOscillator ==> registers.watchdog_freqsel < 16,
        registers.ahb_divider != 0,
    ensures
        rate == system_clock_rate(*registers),
{
    let clock_rate = get_main_clock_rate(registers);
    clock_rate / (registers.ahb_divider as u32)
}

/// The compare value at which the heartbeat timer fires.
pub const HEARTBEAT_MATCH: u32 = 11;

/// The prescale value that makes the heartbeat timer count milliseconds.
pub fn heartbeat_prescale(system_clock_rate: u32) -> (prescale: u32)
    requires
        system_clock_rate >= 1000,
    ensures
        prescale == system_clock_rate / 1000 - 1,
{
    system_clock_rate / 1000 - 1
}

} // verus!
