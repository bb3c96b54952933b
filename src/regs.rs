//! A model of the clock-control, flash and system-configuration register
//! blocks, field by field. Control fields are written by the freeze
//! sequence; status fields are set by the hardware, which `tick` models:
//! at each poll a status flag reports what its control field asks for.

use crate::bus::TimerPrescaler;
use vstd::prelude::*;

verus! {

/// Input of the PLLs (PLLSRC).
#[derive(Clone, Copy, Debug, PartialEq, Eq, Structural)]
pub enum PllSource {
    Hsi,
    Csi,
    Hse,
    Off,
}

/// Source of the peripheral clock `per_ck` (CKPERSEL).
#[derive(Clone, Copy, Debug, PartialEq, Eq, Structural)]
pub enum PerClockSource {
    Hsi,
    Csi,
    Hse,
}

/// Source of the system clock (SW, and its status SWS).
#[derive(Clone, Copy, Debug, PartialEq, Eq, Structural)]
pub enum SystemClockSource {
    Hsi,
    Csi,
    Hse,
    Pll1,
}

/// The clock-control register block, one field per register field that
/// the clock tree uses. Divider fields hold their register encodings.
#[derive(Clone, Copy, Debug, PartialEq, Eq, Structural)]
pub struct RccRegisters {
    pub hsion: bool,
    pub hsirdy: bool,
    pub hsidiv: u8,
    pub csion: bool,
    pub csirdy: bool,
    pub hseon: bool,
    pub hserdy: bool,
    pub hsebyp: bool,
    pub pll1on: bool,
    pub pll1rdy: bool,
    pub pllsrc: PllSource,
    pub divm1: u8,
    pub divn1: u16,
    pub divp1: u8,
    pub divq1: u8,
    pub pll1fracen: bool,
    pub pll1vcosel_medium: bool,
    pub pll1rge: u8,
    pub divp1en: bool,
    pub divq1en: bool,
    pub d1cpre: u8,
    pub d1ppre: u8,
    pub hpre: u8,
    pub d2ppre1: u8,
    pub d2ppre2: u8,
    pub d3ppre: u8,
    pub ckpersel: PerClockSource,
    pub timpre: TimerPrescaler,
    pub sw: SystemClockSource,
    pub sws: SystemClockSource,
    pub syscfgen: bool,
}

/// The flash access control register.
#[derive(Clone, Copy, Debug, PartialEq, Eq, Structural)]
pub struct FlashRegisters {
    pub latency: u8,
    pub wrhighfreq: u8,
}

/// The compensation cell control register of the system-configuration
/// block.
#[derive(Clone, Copy, Debug, PartialEq, Eq, Structural)]
pub struct SyscfgRegisters {
    pub cccsr_en: bool,
    pub cccsr_cs: bool,
    pub cccsr_hslv: bool,
    pub cccsr_ready: bool,
}

/// The clock-control block after the hardware has answered every control
/// field: oscillators report ready once on, the switch status follows the
/// selected source.
pub open spec fn rcc_ticked(r: RccRegisters) -> RccRegisters {
    RccRegisters {
        hsirdy: r.hsion,
        csirdy: r.csion,
        hserdy: r.hseon,
        pll1rdy: r.pll1on,
        sws: r.sw,
        ..r
    }
}

/// The system-configuration block after the hardware has answered.
pub open spec fn syscfg_ticked(s: SyscfgRegisters) -> SyscfgRegisters {
    SyscfgRegisters { cccsr_ready: s.cccsr_en, ..s }
}

impl RccRegisters {
    /// The block as it comes out of reset: the internal oscillator runs
    /// undivided and drives the system clock, everything else is off.
    pub fn reset() -> (r: RccRegisters)
        ensures
            r.hsion && r.hsirdy && r.hsidiv == 0,
            !r.csion && !r.hseon && !r.pll1on,
            r.sw == SystemClockSource::Hsi && r.sws == SystemClockSource::Hsi,
    {
        RccRegisters {
            hsion: true,
            hsirdy: true,
            hsidiv: 0,
            csion: false,
            csirdy: false,
            hseon: false,
            hserdy: false,
            hsebyp: false,
            pll1on: false,
            pll1rdy: false,
            pllsrc: PllSource::Hsi,
            divm1: 32,
            divn1: 128,
            divp1: 1,
            divq1: 1,
            pll1fracen: false,
            pll1vcosel_medium: false,
            pll1rge: 0,
            divp1en: true,
            divq1en: true,
            d1cpre: 0,
            d1ppre: 0,
            hpre: 0,
            d2ppre1: 0,
            d2ppre2: 0,
            d3ppre: 0,
            ckpersel: PerClockSource::Hsi,
            timpre: TimerPrescaler::DefaultX2,
            sw: SystemClockSource::Hsi,
            sws: SystemClockSource::Hsi,
            syscfgen: false,
        }
    }

    /// One poll of the block: the hardware answers the control fields.
    pub fn tick(&mut self)
        ensures
            *final(self) == rcc_ticked(*old(self)),
    {
        self.hsirdy = self.hsion;
        self.csirdy = self.csion;
        self.hserdy = self.hseon;
        self.pll1rdy = self.pll1on;
        self.sws = self.sw;
    }
}

impl FlashRegisters {
    /// The register as it comes out of reset: the slowest setting.
    pub fn reset() -> (r: FlashRegisters)
        ensures
            r.latency == 7 && r.wrhighfreq == 3,
    {
        FlashRegisters { latency: 7, wrhighfreq: 3 }
    }
}

impl SyscfgRegisters {
    /// The register as it comes out of reset: the cell is off.
    pub fn reset() -> (r: SyscfgRegisters)
        ensures
            !r.cccsr_en && !r.cccsr_cs && !r.cccsr_hslv && !r.cccsr_ready,
    {
        SyscfgRegisters { cccsr_en: false, cccsr_cs: false, cccsr_hslv: false, cccsr_ready: false }
    }

    /// One poll of the block: the cell reports ready once enabled.
    pub fn tick(&mut self)
        ensures
            *final(self) == syscfg_ticked(*old(self)),
    {
        self.cccsr_ready = self.cccsr_en;
    }
}

} // verus!
