//! Why a clock configuration was refused or could not be committed.

use vstd::prelude::*;

verus! {

/// A status flag that the freeze sequence waits on.
#[derive(Clone, Copy, Debug, PartialEq, Eq, Structural)]
pub enum WaitFlag {
    /// The low-power internal oscillator reports ready.
    CsiReady,
    /// The external oscillator reports ready.
    HseReady,
    /// PLL1 reports lock.
    Pll1Ready,
    /// The system clock switch status echoes the selected source.
    ClockSwitch,
    /// The I/O compensation cell reports ready.
    CompensationCell,
}

/// Why a clock configuration cannot be applied.
#[derive(Clone, Copy, Debug, PartialEq, Eq, Structural)]
pub enum ClockError {
    /// The source oscillator cannot be divided into the PLL reference
    /// window of 1 to 2 MHz with a prescaler of at most 63.
    PllReference,
    /// No output divider of at most 128 serves the requested system clock.
    PllOutputDivider,
    /// The VCO frequency would fall outside 150 to 420 MHz.
    PllVco,
    /// The feedback divider would fall outside 4 to 512.
    PllFeedback,
    /// The system clock exceeds the ceiling of the voltage scale.
    CoreClockTooHigh,
    /// The AHB/AXI clock (requested or resulting) exceeds its ceiling.
    AhbClockTooHigh,
    /// An APB clock (requested or resulting) exceeds its ceiling.
    ApbClockTooHigh,
    /// A bus clock target of zero Hertz.
    ZeroFrequency,
    /// The internal oscillator is not running undivided at freeze time.
    HsiNotDefault,
    /// A status flag did not come up within the allowed number of polls.
    Timeout(WaitFlag),
}

} // verus!
