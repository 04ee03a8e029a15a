//! Clock frequencies, and the timing values derived from them.
//!
//! The core clock is taken to run at its default 250 MHz.

use vstd::prelude::*;

verus! {

/// A frequency in hertz.
#[derive(Debug, Copy, Clone, PartialEq, Eq, Structural)]
pub struct Hertz(pub u32);

/// Frequency of the APB clock.
pub const APB_CLOCK_HZ: u32 = 250_000_000;

/// Frozen clock frequencies: once read, the clock configuration no longer
/// changes.
#[derive(Debug, Copy, Clone)]
pub struct Clocks {
    apbclk: Hertz,
}

impl Clocks {
    pub closed spec fn apb_hz(&self) -> u32 {
        self.apbclk.0
    }

    pub fn read() -> (r: Self)
        ensures
            r.apb_hz() == APB_CLOCK_HZ,
    {
        Clocks { apbclk: Hertz(APB_CLOCK_HZ) }
    }

    /// The frequency of the APB.
    pub fn apbclk(&self) -> (r: Hertz)
        ensures
            r.0 == self.apb_hz(),
    {
        self.apbclk
    }
}

/// A delay provider that spins on no-ops. It is not accurate: a timer
/// gives exact delays.
#[derive(Debug, Copy, Clone)]
pub struct Delay {}

impl Delay {
    pub fn new() -> (r: Self) {
        Delay {}
    }

    /// No-ops to spin for a delay of `us` microseconds: one per microsecond
    /// for each 250 MHz of APB clock.
    pub fn nop_count(us: u32) -> (r: u32)
        ensures
            r == us * (APB_CLOCK_HZ / 250_000_000),
    {
        let per_us = Clocks::read().apbclk().0 / 250_000_000;
        assert(250_000_000u32 / 250_000_000u32 == 1u32) by (bit_vector);
        us * per_us
    }
}

/// The SPI clock divider for a wanted frequency: 2 (the fastest, half the
/// APB clock) at or above half the APB clock, 0 (the slowest, a divisor of
/// 65536) for 0 Hz or a divisor that does not fit 16 bits, and the APB
/// clock over the wanted frequency otherwise.
pub open spec fn spi_divider(freq: u32, apb: u32) -> u32 {
    if freq >= apb / 2 {
        2
    } else if freq > 0 {
        if apb / freq >= 65536 {
            0
        } else {
            apb / freq
        }
    } else {
        0
    }
}

/// The clock divider that sets SPI0 to `freq`.
pub fn spi_clock_divider(freq: Hertz, clocks: &Clocks) -> (r: u32)
    ensures
        r == spi_divider(freq.0, clocks.apb_hz()),
{
    let apb = clocks.apbclk().0;
    if freq.0 >= apb / 2 {
        2
    } else if freq.0 > 0 {
        let cd = apb / freq.0;
        if cd >= 65536 {
            0
        } else {
            cd
        }
    } else {
        0
    }
}

} // verus!
