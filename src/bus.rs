//! Bus prescaler planning: the AHB/AXI prescaler, the four APB
//! prescalers and the timer kernel clocks, under the frequency ceilings
//! of a voltage scale.

use crate::error::ClockError;
use crate::pwr::VoltageScale;
use vstd::prelude::*;

verus! {

/// Ceiling of the core clock under `vos`, in Hertz.
pub open spec fn core_max(vos: VoltageScale) -> int {
    match vos {
        VoltageScale::Scale0 => 480_000_000,
        VoltageScale::Scale1 => 400_000_000,
        VoltageScale::Scale2 => 300_000_000,
        VoltageScale::Scale3 => 200_000_000,
    }
}

/// Ceiling of the AHB/AXI clock under `vos`, in Hertz.
pub open spec fn hclk_max(vos: VoltageScale) -> int {
    core_max(vos) / 2
}

/// Ceiling of each APB clock under `vos`, in Hertz.
pub open spec fn pclk_max(vos: VoltageScale) -> int {
    core_max(vos) / 4
}

/// The frequency ceilings (core, AHB, APB) of a voltage scale.
pub fn ceilings(vos: VoltageScale) -> (r: (u32, u32, u32))
    ensures
        r.0 == core_max(vos),
        r.1 == hclk_max(vos),
        r.2 == pclk_max(vos),
{
    match vos {
        VoltageScale::Scale0 => (480_000_000, 240_000_000, 120_000_000),
        VoltageScale::Scale1 => (400_000_000, 200_000_000, 100_000_000),
        VoltageScale::Scale2 => (300_000_000, 150_000_000, 75_000_000),
        VoltageScale::Scale3 => (200_000_000, 100_000_000, 50_000_000),
    }
}

/// The dividers an APB prescaler offers.
pub open spec fn is_apb_divider(d: int) -> bool {
    d == 1 || d == 2 || d == 4 || d == 8 || d == 16
}

/// The dividers the AHB prescaler offers.
pub open spec fn is_ahb_divider(d: int) -> bool {
    d == 1 || d == 2 || d == 4 || d == 8 || d == 16 || d == 64 || d == 128 || d == 256 || d
        == 512
}

/// Dividing `clk` by `d` brings it to at most `target`.
pub open spec fn fits(clk: int, d: int, target: int) -> bool {
    clk <= d * target
}

/// The smallest APB divider that brings `hclk` to at most `target`, or
/// the largest divider when none does.
pub open spec fn apb_divider(hclk: int, target: int) -> int {
    if fits(hclk, 1, target) {
        1
    } else if fits(hclk, 2, target) {
        2
    } else if fits(hclk, 4, target) {
        4
    } else if fits(hclk, 8, target) {
        8
    } else {
        16
    }
}

/// The smallest AHB divider that brings `core` to at most `target`, or
/// the largest divider when none does.
pub open spec fn ahb_divider(core: int, target: int) -> int {
    if fits(core, 1, target) {
        1
    } else if fits(core, 2, target) {
        2
    } else if fits(core, 4, target) {
        4
    } else if fits(core, 8, target) {
        8
    } else if fits(core, 16, target) {
        16
    } else if fits(core, 64, target) {
        64
    } else if fits(core, 128, target) {
        128
    } else if fits(core, 256, target) {
        256
    } else {
        512
    }
}

/// The APB divider for a bus clock target of `target` Hertz below an
/// AHB clock of `hclk` Hertz.
pub fn apb_prescaler(hclk: u32, target: u32) -> (d: u32)
    ensures
        d == apb_divider(hclk as int, target as int),
        is_apb_divider(d as int),
{
    let h: u64 = hclk as u64;
    let t: u64 = target as u64;
    if h <= t {
        1
    } else if h <= 2 * t {
        2
    } else if h <= 4 * t {
        4
    } else if h <= 8 * t {
        8
    } else {
        16
    }
}

/// The AHB divider for an AHB clock target of `target` Hertz below a
/// core clock of `core` Hertz.
pub fn ahb_prescaler(core: u32, target: u32) -> (d: u32)
    ensures
        d == ahb_divider(core as int, target as int),
        is_ahb_divider(d as int),
{
    let c: u64 = core as u64;
    let t: u64 = target as u64;
    if c <= t {
        1
    } else if c <= 2 * t {
        2
    } else if c <= 4 * t {
        4
    } else if c <= 8 * t {
        8
    } else if c <= 16 * t {
        16
    } else if c <= 64 * t {
        64
    } else if c <= 128 * t {
        128
    } else if c <= 256 * t {
        256
    } else {
        512
    }
}

/// Register code of an APB divider (the PPRE fields).
pub open spec fn apb_code(d: int) -> u8 {
    if d == 1 {
        0b000
    } else if d == 2 {
        0b100
    } else if d == 4 {
        0b101
    } else if d == 8 {
        0b110
    } else {
        0b111
    }
}

/// Register code of an AHB divider (the HPRE field).
pub open spec fn ahb_code(d: int) -> u8 {
    if d == 1 {
        0b0000
    } else if d == 2 {
        0b1000
    } else if d == 4 {
        0b1001
    } else if d == 8 {
        0b1010
    } else if d == 16 {
        0b1011
    } else if d == 64 {
        0b1100
    } else if d == 128 {
        0b1101
    } else if d == 256 {
        0b1110
    } else {
        0b1111
    }
}

/// The PPRE register code of an APB divider.
pub fn apb_prescaler_code(d: u32) -> (c: u8)
    ensures
        c == apb_code(d as int),
{
    if d == 1 {
        0b000
    } else if d == 2 {
        0b100
    } else if d == 4 {
        0b101
    } else if d == 8 {
        0b110
    } else {
        0b111
    }
}

/// The HPRE register code of an AHB divider.
pub fn ahb_prescaler_code(d: u32) -> (c: u8)
    ensures
        c == ahb_code(d as int),
{
    if d == 1 {
        0b0000
    } else if d == 2 {
        0b1000
    } else if d == 4 {
        0b1001
    } else if d == 8 {
        0b1010
    } else if d == 16 {
        0b1011
    } else if d == 64 {
        0b1100
    } else if d == 128 {
        0b1101
    } else if d == 256 {
        0b1110
    } else {
        0b1111
    }
}

/// Timer clock multiplier selection (the TIMPRE bit).
#[derive(Clone, Copy, Debug, PartialEq, Eq, Structural)]
pub enum TimerPrescaler {
    /// Timers run at twice their APB clock, at most at the AHB clock.
    DefaultX2,
    /// Timers run at four times their APB clock, at most at the AHB clock.
    DefaultX4,
}

/// Kernel clock of the timers on an APB bus divided by `ppre` from an AHB
/// clock of `hclk` Hertz.
pub open spec fn timer_clock(hclk: int, ppre: int, timpre: TimerPrescaler) -> int {
    match timpre {
        TimerPrescaler::DefaultX2 => if ppre <= 2 {
            hclk
        } else {
            hclk / (ppre / 2)
        },
        TimerPrescaler::DefaultX4 => if ppre <= 4 {
            hclk
        } else {
            hclk / (ppre / 4)
        },
    }
}

/// The timer kernel clock for an APB divider `ppre` (one of the APB
/// dividers) below an AHB clock of `hclk` Hertz.
pub fn timer_kernel_clock(hclk: u32, ppre: u32, timpre: TimerPrescaler) -> (r: u32)
    requires
        is_apb_divider(ppre as int),
    ensures
        r == timer_clock(hclk as int, ppre as int, timpre),
{
    match timpre {
        TimerPrescaler::DefaultX2 => if ppre == 4 {
            hclk / 2
        } else if ppre == 8 {
            hclk / 4
        } else if ppre == 16 {
            hclk / 8
        } else {
            hclk
        },
        TimerPrescaler::DefaultX4 => if ppre == 8 {
            hclk / 2
        } else if ppre == 16 {
            hclk / 4
        } else {
            hclk
        },
    }
}

/// The clock target of an APB bus: the request, or by default half the
/// AHB clock within the ceiling.
pub open spec fn apb_target(hclk: int, request: Option<u32>, max: int) -> int {
    match request {
        Some(f) => f as int,
        None => if max <= hclk / 2 {
            max
        } else {
            hclk / 2
        },
    }
}

/// Why no APB divider serves `request` below `hclk` under ceiling `max`.
pub open spec fn apb_error(hclk: int, request: Option<u32>, max: int) -> Option<ClockError> {
    let t = apb_target(hclk, request, max);
    if t > max {
        Some(ClockError::ApbClockTooHigh)
    } else if t == 0 {
        Some(ClockError::ZeroFrequency)
    } else if hclk / apb_divider(hclk, t) > max {
        Some(ClockError::ApbClockTooHigh)
    } else {
        None
    }
}

/// Plans one APB bus: its divider and resulting clock, from an AHB clock
/// of `hclk` Hertz, an optional request and the APB ceiling `max`.
pub fn plan_apb(hclk: u32, request: Option<u32>, max: u32) -> (r: Result<(u32, u32), ClockError>)
    ensures
        match r {
            Ok((d, f)) => {
                &&& apb_error(hclk as int, request, max as int) is None
                &&& d == apb_divider(hclk as int, apb_target(hclk as int, request, max as int))
                &&& f == hclk / d
                &&& is_apb_divider(d as int)
                &&& f <= max
            },
            Err(e) => apb_error(hclk as int, request, max as int) == Some(e),
        },
{
    let target: u32 = match request {
        Some(f) => f,
        None => if max <= hclk / 2 {
            max
        } else {
            hclk / 2
        },
    };
    if target > max {
        return Err(ClockError::ApbClockTooHigh);
    }
    if target == 0 {
        return Err(ClockError::ZeroFrequency);
    }
    let d: u32 = apb_prescaler(hclk, target);
    let f: u32 = hclk / d;
    if f > max {
        return Err(ClockError::ApbClockTooHigh);
    }
    Ok((d, f))
}

/// The APB divider is the smallest one that brings the AHB clock to at
/// most the target, whenever some divider does; and raising the target
/// never raises the divider.
pub proof fn lemma_apb_divider_smallest_monotone(hclk: int, target: int, higher: int)
    requires
        0 < target <= higher,
        fits(hclk, 16, target),
    ensures
        is_apb_divider(apb_divider(hclk, target)),
        fits(hclk, apb_divider(hclk, target), target),
        forall|d: int| is_apb_divider(d) && fits(hclk, d, target) ==> apb_divider(hclk, target) <= d,
        apb_divider(hclk, higher) <= apb_divider(hclk, target),
{
}

/// The AHB divider is the smallest one that brings the core clock to at
/// most the target, whenever some divider does; and raising the target
/// never raises the divider.
pub proof fn lemma_ahb_divider_smallest_monotone(core: int, target: int, higher: int)
    requires
        0 < target <= higher,
        fits(core, 512, target),
    ensures
        is_ahb_divider(ahb_divider(core, target)),
        fits(core, ahb_divider(core, target), target),
        forall|d: int| is_ahb_divider(d) && fits(core, d, target) ==> ahb_divider(core, target) <= d,
        ahb_divider(core, higher) <= ahb_divider(core, target),
{
}

} // verus!
