//! Reset and clock control: the configuration request, the plan of the
//! whole clock tree, the freeze sequence that commits it to the register
//! block, and the frozen record of the resulting clocks.

use crate::bus::{
    ahb_code,
    ahb_divider,
    ahb_prescaler,
    ahb_prescaler_code,
    apb_code,
    apb_divider,
    apb_error,
    apb_prescaler_code,
    apb_target,
    ceilings,
    core_max,
    hclk_max,
    is_apb_divider,
    pclk_max,
    plan_apb,
    timer_clock,
    timer_kernel_clock,
    TimerPrescaler,
};
use crate::error::{ClockError, WaitFlag};
use crate::flash::{flash_setting, flash_wait_states};
use crate::pll::{output_divider, plan_pll, pll_error, ref_prescaler, vco_target, PllPlan};
use crate::pwr::VoltageScale;
use crate::regs::{
    rcc_ticked,
    syscfg_ticked,
    FlashRegisters,
    PerClockSource,
    PllSource,
    RccRegisters,
    SyscfgRegisters,
    SystemClockSource,
};
use crate::time::Hertz;
use vstd::prelude::*;

verus! {

/// Frequency of the high-speed internal oscillator, in Hertz.
pub const HSI: u32 = 64_000_000;

/// Frequency of the low-power internal oscillator, in Hertz.
pub const CSI: u32 = 4_000_000;

/// The requested frequencies of the clock tree, in Hertz; an absent one
/// takes its default.
#[derive(Clone, Copy, Debug, PartialEq, Eq, Structural)]
pub struct Config {
    /// External oscillator; absent, the internal oscillator is the source.
    pub hse: Option<u32>,
    /// System clock; absent, the source clock.
    pub sys_ck: Option<u32>,
    /// Peripheral clock.
    pub per_ck: Option<u32>,
    /// AHB/AXI clock; absent, half the core clock.
    pub rcc_hclk: Option<u32>,
    /// APB1 clock.
    pub rcc_pclk1: Option<u32>,
    /// APB2 clock.
    pub rcc_pclk2: Option<u32>,
    /// APB3 clock.
    pub rcc_pclk3: Option<u32>,
    /// APB4 clock.
    pub rcc_pclk4: Option<u32>,
}

/// A request with nothing set.
pub open spec fn empty_config() -> Config {
    Config {
        hse: None,
        sys_ck: None,
        per_ck: None,
        rcc_hclk: None,
        rcc_pclk1: None,
        rcc_pclk2: None,
        rcc_pclk3: None,
        rcc_pclk4: None,
    }
}

/// The clock-control block together with the request being built for it.
/// Built by `constrain`, committed by `freeze`.
pub struct Rcc {
    pub config: Config,
    pub rb: RccRegisters,
}

/// Takes ownership of the clock-control register block.
pub trait RccExt {
    /// The register block with an empty request.
    fn constrain(self) -> (r: Rcc)
        ensures
            r.config == empty_config(),
    ;
}

impl RccExt for RccRegisters {
    fn constrain(self) -> (r: Rcc)
        ensures
            r.config == empty_config(),
            r.rb == self,
    {
        Rcc {
            config: Config {
                hse: None,
                sys_ck: None,
                per_ck: None,
                rcc_hclk: None,
                rcc_pclk1: None,
                rcc_pclk2: None,
                rcc_pclk3: None,
                rcc_pclk4: None,
            },
            rb: self,
        }
    }
}

impl Rcc {
    /// Uses the external oscillator, running at `freq`, as the source.
    pub fn use_hse(self, freq: Hertz) -> (r: Rcc)
        ensures
            r.config == (Config { hse: Some(freq.0), ..self.config }),
            r.rb == self.rb,
    {
        let mut s = self;
        s.config.hse = Some(freq.0);
        s
    }

    /// Requests a system clock of `freq`.
    pub fn sys_ck(self, freq: Hertz) -> (r: Rcc)
        ensures
            r.config == (Config { sys_ck: Some(freq.0), ..self.config }),
            r.rb == self.rb,
    {
        let mut s = self;
        s.config.sys_ck = Some(freq.0);
        s
    }

    /// Requests a system clock of `freq` (same as `sys_ck`).
    pub fn sysclk(self, freq: Hertz) -> (r: Rcc)
        ensures
            r.config == (Config { sys_ck: Some(freq.0), ..self.config }),
            r.rb == self.rb,
    {
        self.sys_ck(freq)
    }

    /// Requests a peripheral clock of `freq`.
    pub fn per_ck(self, freq: Hertz) -> (r: Rcc)
        ensures
            r.config == (Config { per_ck: Some(freq.0), ..self.config }),
            r.rb == self.rb,
    {
        let mut s = self;
        s.config.per_ck = Some(freq.0);
        s
    }

    /// Requests an AHB/AXI clock of `freq`.
    pub fn hclk(self, freq: Hertz) -> (r: Rcc)
        ensures
            r.config == (Config { rcc_hclk: Some(freq.0), ..self.config }),
            r.rb == self.rb,
    {
        let mut s = self;
        s.config.rcc_hclk = Some(freq.0);
        s
    }

    /// Requests an APB1 clock of `freq`.
    pub fn pclk1(self, freq: Hertz) -> (r: Rcc)
        ensures
            r.config == (Config { rcc_pclk1: Some(freq.0), ..self.config }),
            r.rb == self.rb,
    {
        let mut s = self;
        s.config.rcc_pclk1 = Some(freq.0);
        s
    }

    /// Requests an APB2 clock of `freq`.
    pub fn pclk2(self, freq: Hertz) -> (r: Rcc)
        ensures
            r.config == (Config { rcc_pclk2: Some(freq.0), ..self.config }),
            r.rb == self.rb,
    {
        let mut s = self;
        s.config.rcc_pclk2 = Some(freq.0);
        s
    }

    /// Requests an APB3 clock of `freq`.
    pub fn pclk3(self, freq: Hertz) -> (r: Rcc)
        ensures
            r.config == (Config { rcc_pclk3: Some(freq.0), ..self.config }),
            r.rb == self.rb,
    {
        let mut s = self;
        s.config.rcc_pclk3 = Some(freq.0);
        s
    }

    /// Requests an APB4 clock of `freq`.
    pub fn pclk4(self, freq: Hertz) -> (r: Rcc)
        ensures
            r.config == (Config { rcc_pclk4: Some(freq.0), ..self.config }),
            r.rb == self.rb,
    {
        let mut s = self;
        s.config.rcc_pclk4 = Some(freq.0);
        s
    }
}

/// The source oscillator's frequency.
pub open spec fn source_clock(c: Config) -> int {
    match c.hse {
        Some(f) => f as int,
        None => HSI as int,
    }
}

/// The system clock that is asked for.
pub open spec fn requested_sys(c: Config) -> int {
    match c.sys_ck {
        Some(f) => f as int,
        None => source_clock(c),
    }
}

/// A PLL is engaged exactly when the request differs from the source.
pub open spec fn uses_pll(c: Config) -> bool {
    requested_sys(c) != source_clock(c)
}

/// The P output frequency of the PLL planned from `src` to `sys`.
pub open spec fn pll_output(src: int, sys: int) -> int {
    let r = src / ref_prescaler(src);
    (r * (vco_target(sys) / r)) / output_divider(sys)
}

/// The system clock that the plan yields.
pub open spec fn system_clock(c: Config) -> int {
    if uses_pll(c) {
        pll_output(source_clock(c), requested_sys(c))
    } else {
        source_clock(c)
    }
}

/// The AHB/AXI clock target.
pub open spec fn hclk_target(c: Config) -> int {
    match c.rcc_hclk {
        Some(f) => f as int,
        None => system_clock(c) / 2,
    }
}

/// The AHB/AXI clock that the plan yields.
pub open spec fn planned_hclk(c: Config) -> int {
    system_clock(c) / ahb_divider(system_clock(c), hclk_target(c))
}

/// Why the request cannot be planned under `vos`, if it cannot.
pub open spec fn plan_error(c: Config, vos: VoltageScale) -> Option<ClockError> {
    let hclk = planned_hclk(c);
    if uses_pll(c) && pll_error(source_clock(c), requested_sys(c)) is Some {
        pll_error(source_clock(c), requested_sys(c))
    } else if system_clock(c) > core_max(vos) {
        Some(ClockError::CoreClockTooHigh)
    } else if hclk_target(c) > hclk_max(vos) {
        Some(ClockError::AhbClockTooHigh)
    } else if hclk_target(c) == 0 {
        Some(ClockError::ZeroFrequency)
    } else if hclk > hclk_max(vos) {
        Some(ClockError::AhbClockTooHigh)
    } else if apb_error(hclk, c.rcc_pclk1, pclk_max(vos)) is Some {
        apb_error(hclk, c.rcc_pclk1, pclk_max(vos))
    } else if apb_error(hclk, c.rcc_pclk2, pclk_max(vos)) is Some {
        apb_error(hclk, c.rcc_pclk2, pclk_max(vos))
    } else if apb_error(hclk, c.rcc_pclk3, pclk_max(vos)) is Some {
        apb_error(hclk, c.rcc_pclk3, pclk_max(vos))
    } else {
        apb_error(hclk, c.rcc_pclk4, pclk_max(vos))
    }
}

/// The peripheral clock and its source: the external oscillator when the
/// request names its frequency, the low-power oscillator when it names
/// that one's, the internal oscillator otherwise.
pub open spec fn per_clock(c: Config) -> (int, PerClockSource) {
    if c.per_ck is Some && c.per_ck == c.hse {
        (c.hse->0 as int, PerClockSource::Hse)
    } else if c.per_ck == Some(CSI) {
        (CSI as int, PerClockSource::Csi)
    } else {
        (HSI as int, PerClockSource::Hsi)
    }
}

/// Divider and clock of one APB bus in a plan for `c`.
pub open spec fn apb_plan(c: Config, vos: VoltageScale, request: Option<u32>) -> (int, int) {
    let d = apb_divider(planned_hclk(c), apb_target(planned_hclk(c), request, pclk_max(vos)));
    (d, planned_hclk(c) / d)
}

/// Every frequency and divider of the clock tree, computed from a request
/// before any register is written.
#[derive(Clone, Copy, Debug, PartialEq, Eq, Structural)]
pub struct ClockPlan {
    pub pll: Option<PllPlan>,
    pub sys_ck: u32,
    pub hpre: u32,
    pub hclk: u32,
    pub ppre1: u32,
    pub ppre2: u32,
    pub ppre3: u32,
    pub ppre4: u32,
    pub pclk1: u32,
    pub pclk2: u32,
    pub pclk3: u32,
    pub pclk4: u32,
    pub timx_ker_ck: u32,
    pub timy_ker_ck: u32,
    pub per_ck: u32,
    pub per_source: PerClockSource,
    pub flash_latency: u8,
    pub flash_delay: u8,
}

impl ClockPlan {
    /// The plan is the one computed for `c` under `vos`.
    pub open spec fn plans(self, c: Config, vos: VoltageScale) -> bool {
        &&& (match self.pll {
            Some(p) => uses_pll(c) && p.plans(source_clock(c), requested_sys(c))
                && p.in_hardware_range(),
            None => !uses_pll(c),
        })
        &&& self.sys_ck == system_clock(c)
        &&& self.hpre == ahb_divider(system_clock(c), hclk_target(c))
        &&& self.hclk == planned_hclk(c)
        &&& (self.ppre1 as int, self.pclk1 as int) == apb_plan(c, vos, c.rcc_pclk1)
        &&& (self.ppre2 as int, self.pclk2 as int) == apb_plan(c, vos, c.rcc_pclk2)
        &&& (self.ppre3 as int, self.pclk3 as int) == apb_plan(c, vos, c.rcc_pclk3)
        &&& (self.ppre4 as int, self.pclk4 as int) == apb_plan(c, vos, c.rcc_pclk4)
        &&& self.timx_ker_ck == timer_clock(
            self.hclk as int,
            self.ppre1 as int,
            TimerPrescaler::DefaultX2,
        )
        &&& self.timy_ker_ck == timer_clock(
            self.hclk as int,
            self.ppre2 as int,
            TimerPrescaler::DefaultX2,
        )
        &&& (self.per_ck as int, self.per_source) == per_clock(c)
        &&& (self.flash_latency, self.flash_delay) == flash_setting(
            vos,
            self.hclk as int / 1_000_000,
        )
    }

    /// Every resulting clock lies at or below its ceiling.
    pub open spec fn within_ceilings(self, vos: VoltageScale) -> bool {
        &&& self.sys_ck <= core_max(vos)
        &&& self.hclk <= hclk_max(vos)
        &&& self.pclk1 <= pclk_max(vos)
        &&& self.pclk2 <= pclk_max(vos)
        &&& self.pclk3 <= pclk_max(vos)
        &&& self.pclk4 <= pclk_max(vos)
        &&& is_apb_divider(self.ppre1 as int)
        &&& is_apb_divider(self.ppre2 as int)
        &&& is_apb_divider(self.ppre3 as int)
        &&& is_apb_divider(self.ppre4 as int)
    }
}

/// Plans the whole clock tree for `config` under `vos`, touching no
/// register.
pub fn plan(config: &Config, vos: VoltageScale) -> (r: Result<ClockPlan, ClockError>)
    ensures
        match r {
            Ok(p) => plan_error(*config, vos) is None && p.plans(*config, vos) && p.within_ceilings(
                vos,
            ),
            Err(e) => plan_error(*config, vos) == Some(e),
        },
{
    let c = *config;
    let src: u32 = match c.hse {
        Some(f) => f,
        None => HSI,
    };
    let req: u32 = match c.sys_ck {
        Some(f) => f,
        None => src,
    };
    let pll = match plan_pll(src, req) {
        Ok(p) => p,
        Err(e) => {
            return Err(e);
        },
    };
    let sys_ck: u32 = match pll {
        Some(p) => p.p_ck,
        None => src,
    };
    let (core_limit, hclk_limit, pclk_limit) = ceilings(vos);
    if sys_ck > core_limit {
        return Err(ClockError::CoreClockTooHigh);
    }
    let hclk_want: u32 = match c.rcc_hclk {
        Some(f) => f,
        None => sys_ck / 2,
    };
    if hclk_want > hclk_limit {
        return Err(ClockError::AhbClockTooHigh);
    }
    if hclk_want == 0 {
        return Err(ClockError::ZeroFrequency);
    }
    let hpre: u32 = ahb_prescaler(sys_ck, hclk_want);
    let hclk: u32 = sys_ck / hpre;
    if hclk > hclk_limit {
        return Err(ClockError::AhbClockTooHigh);
    }
    let (ppre1, pclk1) = match plan_apb(hclk, c.rcc_pclk1, pclk_limit) {
        Ok(v) => v,
        Err(e) => {
            return Err(e);
        },
    };
    let (ppre2, pclk2) = match plan_apb(hclk, c.rcc_pclk2, pclk_limit) {
        Ok(v) => v,
        Err(e) => {
            return Err(e);
        },
    };
    let (ppre3, pclk3) = match plan_apb(hclk, c.rcc_pclk3, pclk_limit) {
        Ok(v) => v,
        Err(e) => {
            return Err(e);
        },
    };
    let (ppre4, pclk4) = match plan_apb(hclk, c.rcc_pclk4, pclk_limit) {
        Ok(v) => v,
        Err(e) => {
            return Err(e);
        },
    };
    let timx_ker_ck: u32 = timer_kernel_clock(hclk, ppre1, TimerPrescaler::DefaultX2);
    let timy_ker_ck: u32 = timer_kernel_clock(hclk, ppre2, TimerPrescaler::DefaultX2);
    let (per_ck, per_source) = match c.per_ck {
        Some(f) => {
            if c.hse == Some(f) {
                (f, PerClockSource::Hse)
            } else if f == CSI {
                (CSI, PerClockSource::Csi)
            } else {
                (HSI, PerClockSource::Hsi)
            }
        },
        None => (HSI, PerClockSource::Hsi),
    };
    let (flash_latency, flash_delay) = flash_wait_states(hclk, vos);
    Ok(
        ClockPlan {
            pll,
            sys_ck,
            hpre,
            hclk,
            ppre1,
            ppre2,
            ppre3,
            ppre4,
            pclk1,
            pclk2,
            pclk3,
            pclk4,
            timx_ker_ck,
            timy_ker_ck,
            per_ck,
            per_source,
            flash_latency,
            flash_delay,
        },
    )
}


/// Frozen core clock frequencies. Its existence means that the core
/// clock configuration can no longer change.
#[derive(Clone, Copy, Debug)]
pub struct CoreClocks {
    hclk: Hertz,
    pclk1: Hertz,
    pclk2: Hertz,
    pclk3: Hertz,
    pclk4: Hertz,
    ppre1: u8,
    ppre2: u8,
    ppre3: u8,
    ppre4: u8,
    csi_ck: Option<Hertz>,
    hsi_ck: Option<Hertz>,
    per_ck: Option<Hertz>,
    hse_ck: Option<Hertz>,
    pll1_p_ck: Option<Hertz>,
    pll1_q_ck: Option<Hertz>,
    pll1_r_ck: Option<Hertz>,
    pll2_p_ck: Option<Hertz>,
    pll2_q_ck: Option<Hertz>,
    pll2_r_ck: Option<Hertz>,
    pll3_p_ck: Option<Hertz>,
    pll3_q_ck: Option<Hertz>,
    pll3_r_ck: Option<Hertz>,
    timx_ker_ck: Hertz,
    timy_ker_ck: Hertz,
    sys_ck: Hertz,
    c_ck: Hertz,
}

/// An optional frequency as an optional number of Hertz.
pub open spec fn opt_hz(o: Option<Hertz>) -> Option<int> {
    match o {
        Some(h) => Some(h.0 as int),
        None => None,
    }
}

/// An optional request as an optional number of Hertz.
pub open spec fn opt_req(o: Option<u32>) -> Option<int> {
    match o {
        Some(f) => Some(f as int),
        None => None,
    }
}

/// What a `CoreClocks` record holds, in Hertz (dividers as plain numbers).
pub struct ClocksView {
    pub hclk: int,
    pub pclk1: int,
    pub pclk2: int,
    pub pclk3: int,
    pub pclk4: int,
    pub ppre1: int,
    pub ppre2: int,
    pub ppre3: int,
    pub ppre4: int,
    pub csi_ck: Option<int>,
    pub hsi_ck: Option<int>,
    pub per_ck: Option<int>,
    pub hse_ck: Option<int>,
    pub pll1_p_ck: Option<int>,
    pub pll1_q_ck: Option<int>,
    pub pll1_r_ck: Option<int>,
    pub pll2_p_ck: Option<int>,
    pub pll2_q_ck: Option<int>,
    pub pll2_r_ck: Option<int>,
    pub pll3_p_ck: Option<int>,
    pub pll3_q_ck: Option<int>,
    pub pll3_r_ck: Option<int>,
    pub timx_ker_ck: int,
    pub timy_ker_ck: int,
    pub sys_ck: int,
    pub c_ck: int,
}

impl View for CoreClocks {
    type V = ClocksView;

    closed spec fn view(&self) -> ClocksView {
        ClocksView {
            hclk: self.hclk.0 as int,
            pclk1: self.pclk1.0 as int,
            pclk2: self.pclk2.0 as int,
            pclk3: self.pclk3.0 as int,
            pclk4: self.pclk4.0 as int,
            ppre1: self.ppre1 as int,
            ppre2: self.ppre2 as int,
            ppre3: self.ppre3 as int,
            ppre4: self.ppre4 as int,
            csi_ck: opt_hz(self.csi_ck),
            hsi_ck: opt_hz(self.hsi_ck),
            per_ck: opt_hz(self.per_ck),
            hse_ck: opt_hz(self.hse_ck),
            pll1_p_ck: opt_hz(self.pll1_p_ck),
            pll1_q_ck: opt_hz(self.pll1_q_ck),
            pll1_r_ck: opt_hz(self.pll1_r_ck),
            pll2_p_ck: opt_hz(self.pll2_p_ck),
            pll2_q_ck: opt_hz(self.pll2_q_ck),
            pll2_r_ck: opt_hz(self.pll2_r_ck),
            pll3_p_ck: opt_hz(self.pll3_p_ck),
            pll3_q_ck: opt_hz(self.pll3_q_ck),
            pll3_r_ck: opt_hz(self.pll3_r_ck),
            timx_ker_ck: self.timx_ker_ck.0 as int,
            timy_ker_ck: self.timy_ker_ck.0 as int,
            sys_ck: self.sys_ck.0 as int,
            c_ck: self.c_ck.0 as int,
        }
    }
}

impl CoreClocks {
    /// The record holds the clocks that a plan for `c` under `vos` yields.
    pub open spec fn frozen_from(self, c: Config, vos: VoltageScale) -> bool {
        &&& self@.sys_ck == system_clock(c)
        &&& self@.c_ck == self@.sys_ck
        &&& self@.hclk == planned_hclk(c)
        &&& (self@.ppre1, self@.pclk1) == apb_plan(c, vos, c.rcc_pclk1)
        &&& (self@.ppre2, self@.pclk2) == apb_plan(c, vos, c.rcc_pclk2)
        &&& (self@.ppre3, self@.pclk3) == apb_plan(c, vos, c.rcc_pclk3)
        &&& (self@.ppre4, self@.pclk4) == apb_plan(c, vos, c.rcc_pclk4)
        &&& self@.timx_ker_ck == timer_clock(
            planned_hclk(c),
            apb_plan(c, vos, c.rcc_pclk1).0,
            TimerPrescaler::DefaultX2,
        )
        &&& self@.timy_ker_ck == timer_clock(
            planned_hclk(c),
            apb_plan(c, vos, c.rcc_pclk2).0,
            TimerPrescaler::DefaultX2,
        )
        &&& self@.csi_ck == Some(CSI as int)
        &&& self@.hsi_ck == Some(HSI as int)
        &&& self@.per_ck == Some(per_clock(c).0)
        &&& self@.hse_ck == opt_req(c.hse)
        &&& self@.pll1_p_ck == (if uses_pll(c) {
            Some(self@.sys_ck)
        } else {
            None
        })
        &&& self@.pll1_q_ck == self@.pll1_p_ck
        &&& self@.pll1_r_ck is None
        &&& self@.pll2_p_ck is None && self@.pll2_q_ck is None && self@.pll2_r_ck is None
        &&& self@.pll3_p_ck is None && self@.pll3_q_ck is None && self@.pll3_r_ck is None
    }

    /// Returns the frequency of the AHB busses.
    pub fn hclk(&self) -> (r: Hertz)
        ensures
            r.0 == self@.hclk,
    {
        self.hclk
    }

    /// Returns the frequency of the AXI bus, the same as the AHB busses.
    pub fn aclk(&self) -> (r: Hertz)
        ensures
            r.0 == self@.hclk,
    {
        self.hclk
    }

    /// Returns the frequency of APB1.
    pub fn pclk1(&self) -> (r: Hertz)
        ensures
            r.0 == self@.pclk1,
    {
        self.pclk1
    }

    /// Returns the divider of APB1.
    pub fn ppre1(&self) -> (r: u8)
        ensures
            r == self@.ppre1,
    {
        self.ppre1
    }

    /// Returns the frequency of APB2.
    pub fn pclk2(&self) -> (r: Hertz)
        ensures
            r.0 == self@.pclk2,
    {
        self.pclk2
    }

    /// Returns the divider of APB2.
    pub fn ppre2(&self) -> (r: u8)
        ensures
            r == self@.ppre2,
    {
        self.ppre2
    }

    /// Returns the frequency of APB3.
    pub fn pclk3(&self) -> (r: Hertz)
        ensures
            r.0 == self@.pclk3,
    {
        self.pclk3
    }

    /// Returns the divider of APB3.
    pub fn ppre3(&self) -> (r: u8)
        ensures
            r == self@.ppre3,
    {
        self.ppre3
    }

    /// Returns the frequency of APB4.
    pub fn pclk4(&self) -> (r: Hertz)
        ensures
            r.0 == self@.pclk4,
    {
        self.pclk4
    }

    /// Returns the divider of APB4.
    pub fn ppre4(&self) -> (r: u8)
        ensures
            r == self@.ppre4,
    {
        self.ppre4
    }

    /// Returns the frequency of the low-power internal oscillator.
    pub fn csi_ck(&self) -> (r: Option<Hertz>)
        ensures
            opt_hz(r) == self@.csi_ck,
    {
        self.csi_ck
    }

    /// Returns the frequency of the high-speed internal oscillator.
    pub fn hsi_ck(&self) -> (r: Option<Hertz>)
        ensures
            opt_hz(r) == self@.hsi_ck,
    {
        self.hsi_ck
    }

    /// Returns the frequency of the peripheral clock.
    pub fn per_ck(&self) -> (r: Option<Hertz>)
        ensures
            opt_hz(r) == self@.per_ck,
    {
        self.per_ck
    }

    /// Returns the frequency of the external oscillator.
    pub fn hse_ck(&self) -> (r: Option<Hertz>)
        ensures
            opt_hz(r) == self@.hse_ck,
    {
        self.hse_ck
    }

    /// Returns the frequency of the PLL1 P output.
    pub fn pll1_p_ck(&self) -> (r: Option<Hertz>)
        ensures
            opt_hz(r) == self@.pll1_p_ck,
    {
        self.pll1_p_ck
    }

    /// Returns the frequency of the PLL1 Q output.
    pub fn pll1_q_ck(&self) -> (r: Option<Hertz>)
        ensures
            opt_hz(r) == self@.pll1_q_ck,
    {
        self.pll1_q_ck
    }

    /// Returns the frequency of the PLL1 R output.
    pub fn pll1_r_ck(&self) -> (r: Option<Hertz>)
        ensures
            opt_hz(r) == self@.pll1_r_ck,
    {
        self.pll1_r_ck
    }

    /// Returns the frequency of the PLL2 P output.
    pub fn pll2_p_ck(&self) -> (r: Option<Hertz>)
        ensures
            opt_hz(r) == self@.pll2_p_ck,
    {
        self.pll2_p_ck
    }

    /// Returns the frequency of the PLL2 Q output.
    pub fn pll2_q_ck(&self) -> (r: Option<Hertz>)
        ensures
            opt_hz(r) == self@.pll2_q_ck,
    {
        self.pll2_q_ck
    }

    /// Returns the frequency of the PLL2 R output.
    pub fn pll2_r_ck(&self) -> (r: Option<Hertz>)
        ensures
            opt_hz(r) == self@.pll2_r_ck,
    {
        self.pll2_r_ck
    }

    /// Returns the frequency of the PLL3 P output.
    pub fn pll3_p_ck(&self) -> (r: Option<Hertz>)
        ensures
            opt_hz(r) == self@.pll3_p_ck,
    {
        self.pll3_p_ck
    }

    /// Returns the frequency of the PLL3 Q output.
    pub fn pll3_q_ck(&self) -> (r: Option<Hertz>)
        ensures
            opt_hz(r) == self@.pll3_q_ck,
    {
        self.pll3_q_ck
    }

    /// Returns the frequency of the PLL3 R output.
    pub fn pll3_r_ck(&self) -> (r: Option<Hertz>)
        ensures
            opt_hz(r) == self@.pll3_r_ck,
    {
        self.pll3_r_ck
    }

    /// Returns the input frequency to the system clock generation unit.
    pub fn sys_ck(&self) -> (r: Hertz)
        ensures
            r.0 == self@.sys_ck,
    {
        self.sys_ck
    }

    /// Returns the input frequency to the system clock generation unit (same as `sys_ck`).
    pub fn sysclk(&self) -> (r: Hertz)
        ensures
            r.0 == self@.sys_ck,
    {
        self.sys_ck
    }

    /// Returns the kernel clock of the timers on APB1.
    pub fn timx_ker_ck(&self) -> (r: Hertz)
        ensures
            r.0 == self@.timx_ker_ck,
    {
        self.timx_ker_ck
    }

    /// Returns the kernel clock of the timers on APB2.
    pub fn timy_ker_ck(&self) -> (r: Hertz)
        ensures
            r.0 == self@.timy_ker_ck,
    {
        self.timy_ker_ck
    }

    /// Returns the core frequency.
    pub fn c_ck(&self) -> (r: Hertz)
        ensures
            r.0 == self@.c_ck,
    {
        self.c_ck
    }
}


/// AMBA High-performance Bus (AHB1) enable and reset rights.
pub struct AHB1 {
    _0: (),
}

/// AMBA High-performance Bus (AHB3) enable and reset rights.
pub struct AHB3 {
    _0: (),
}

/// AMBA High-performance Bus (AHB4) enable and reset rights.
pub struct AHB4 {
    _0: (),
}

/// Advanced Peripheral Bus 1 (APB1) enable and reset rights.
pub struct APB1 {
    _0: (),
}

/// Advanced Peripheral Bus 2 (APB2) enable and reset rights.
pub struct APB2 {
    _0: (),
}

/// Advanced Peripheral Bus 3 (APB3) enable and reset rights.
pub struct APB3 {
    _0: (),
}

/// Advanced Peripheral Bus 4 (APB4) enable and reset rights.
pub struct APB4 {
    _0: (),
}

/// Rights to the domain 3 kernel clock configuration register.
pub struct D3CCIPR {
    _0: (),
}

/// Core clock distribution and reset: the frozen clocks, one token per
/// bus segment, and the register block, which stays with it.
pub struct Ccdr {
    /// A record of the frozen core clock frequencies.
    pub clocks: CoreClocks,
    pub ahb1: AHB1,
    pub ahb3: AHB3,
    pub ahb4: AHB4,
    pub apb1: APB1,
    pub apb2: APB2,
    pub apb3: APB3,
    pub apb4: APB4,
    pub d3ccipr: D3CCIPR,
    pub rb: RccRegisters,
}

/// The status flag `flag` of the clock-control block is up.
pub open spec fn rcc_flag(r: RccRegisters, flag: WaitFlag) -> bool {
    match flag {
        WaitFlag::CsiReady => r.csirdy,
        WaitFlag::HseReady => r.hserdy,
        WaitFlag::Pll1Ready => r.pll1rdy,
        WaitFlag::ClockSwitch => r.sws == r.sw,
        WaitFlag::CompensationCell => true,
    }
}

fn rcc_flag_up(r: &RccRegisters, flag: WaitFlag) -> (b: bool)
    ensures
        b == rcc_flag(*r, flag),
{
    match flag {
        WaitFlag::CsiReady => r.csirdy,
        WaitFlag::HseReady => r.hserdy,
        WaitFlag::Pll1Ready => r.pll1rdy,
        WaitFlag::ClockSwitch => r.sws == r.sw,
        WaitFlag::CompensationCell => true,
    }
}

/// Polls the clock-control block at most `max_polls` times until `flag`
/// is up.
fn wait_rcc(rb: &mut RccRegisters, flag: WaitFlag, max_polls: u32) -> (up: bool)
    ensures
        up == (rcc_flag(*old(rb), flag) || (max_polls > 0 && rcc_flag(rcc_ticked(*old(rb)), flag))),
        *final(rb) == *old(rb) || *final(rb) == rcc_ticked(*old(rb)),
        up == rcc_flag(*final(rb), flag),
{
    let mut n: u32 = 0;
    while !rcc_flag_up(rb, flag) && n < max_polls
        invariant
            n <= max_polls,
            n == 0 ==> *rb == *old(rb),
            n > 0 ==> *rb == rcc_ticked(*old(rb)) && !rcc_flag(*old(rb), flag),
        decreases max_polls - n,
    {
        rb.tick();
        n = n + 1;
    }
    rcc_flag_up(rb, flag)
}

/// Polls the system-configuration block at most `max_polls` times until
/// the compensation cell is ready.
fn wait_compensation(syscfg: &mut SyscfgRegisters, max_polls: u32) -> (up: bool)
    ensures
        up == (old(syscfg).cccsr_ready || (max_polls > 0 && old(syscfg).cccsr_en)),
        *final(syscfg) == *old(syscfg) || *final(syscfg) == syscfg_ticked(*old(syscfg)),
        up == final(syscfg).cccsr_ready,
{
    let mut n: u32 = 0;
    while !syscfg.cccsr_ready && n < max_polls
        invariant
            n <= max_polls,
            n == 0 ==> *syscfg == *old(syscfg),
            n > 0 ==> *syscfg == syscfg_ticked(*old(syscfg)) && !old(syscfg).cccsr_ready,
        decreases max_polls - n,
    {
        syscfg.tick();
        n = n + 1;
    }
    syscfg.cccsr_ready
}

/// The internal oscillator runs undivided, as freezing expects.
pub open spec fn hsi_default(r: RccRegisters) -> bool {
    r.hsion && r.hsidiv == 0
}

/// The system clock source that a request selects.
pub open spec fn system_source(c: Config) -> SystemClockSource {
    if uses_pll(c) {
        SystemClockSource::Pll1
    } else if c.hse is Some {
        SystemClockSource::Hse
    } else {
        SystemClockSource::Hsi
    }
}

/// The register block holds the plan for `c` under `vos`, and the
/// selected sources report ready.
pub open spec fn registers_commit(r: RccRegisters, c: Config, vos: VoltageScale) -> bool {
    let src = source_clock(c);
    let sys = requested_sys(c);
    let rf = src / ref_prescaler(src);
    &&& r.csion && r.csirdy
    &&& (c.hse is Some ==> r.hseon && r.hserdy && !r.hsebyp)
    &&& (uses_pll(c) ==> {
        &&& r.pll1on && r.pll1rdy
        &&& r.pllsrc == (if c.hse is Some {
            PllSource::Hse
        } else {
            PllSource::Hsi
        })
        &&& r.divm1 == ref_prescaler(src)
        &&& r.divn1 + 1 == vco_target(sys) / rf
        &&& r.divp1 + 1 == output_divider(sys)
        &&& r.divq1 + 1 == output_divider(sys)
        &&& !r.pll1fracen && r.pll1vcosel_medium && r.pll1rge == 0
        &&& r.divp1en && r.divq1en
    })
    &&& r.d1cpre == 0
    &&& r.hpre == ahb_code(ahb_divider(system_clock(c), hclk_target(c)))
    &&& r.d2ppre1 == apb_code(apb_plan(c, vos, c.rcc_pclk1).0)
    &&& r.d2ppre2 == apb_code(apb_plan(c, vos, c.rcc_pclk2).0)
    &&& r.d1ppre == apb_code(apb_plan(c, vos, c.rcc_pclk3).0)
    &&& r.d3ppre == apb_code(apb_plan(c, vos, c.rcc_pclk4).0)
    &&& r.ckpersel == per_clock(c).1
    &&& r.timpre == TimerPrescaler::DefaultX2
    &&& r.sw == system_source(c)
    &&& r.sws == r.sw
    &&& r.syscfgen
}

/// The oscillators and PLL1 that plan `p` needs, for a request whose
/// external oscillator is `hse`, are configured and report ready.
pub open spec fn sources_hold(r: RccRegisters, p: ClockPlan, hse: Option<u32>) -> bool {
    &&& r.csion && r.csirdy
    &&& (hse is Some ==> r.hseon && r.hserdy && !r.hsebyp)
    &&& (match p.pll {
        Some(pp) => {
            &&& r.pll1on && r.pll1rdy
            &&& r.pllsrc == (if hse is Some {
                PllSource::Hse
            } else {
                PllSource::Hsi
            })
            &&& r.divm1 == pp.divm
            &&& r.divn1 + 1 == pp.divn
            &&& r.divp1 + 1 == pp.divp
            &&& r.divq1 + 1 == pp.divq
            &&& !r.pll1fracen && r.pll1vcosel_medium && r.pll1rge == 0
            &&& r.divp1en && r.divq1en
        },
        None => true,
    })
}

/// The register block holds plan `p` for a request whose external
/// oscillator is `hse`, and the selected sources report ready.
pub open spec fn registers_hold(r: RccRegisters, p: ClockPlan, hse: Option<u32>) -> bool {
    &&& sources_hold(r, p, hse)
    &&& r.d1cpre == 0
    &&& r.hpre == ahb_code(p.hpre as int)
    &&& r.d2ppre1 == apb_code(p.ppre1 as int)
    &&& r.d2ppre2 == apb_code(p.ppre2 as int)
    &&& r.d1ppre == apb_code(p.ppre3 as int)
    &&& r.d3ppre == apb_code(p.ppre4 as int)
    &&& r.ckpersel == p.per_source
    &&& r.timpre == TimerPrescaler::DefaultX2
    &&& r.sw == (if p.pll is Some {
        SystemClockSource::Pll1
    } else if hse is Some {
        SystemClockSource::Hse
    } else {
        SystemClockSource::Hsi
    })
    &&& r.sws == r.sw
    &&& r.syscfgen
}

/// Writes the PLL1 dividers and configuration and turns PLL1 on.
fn program_pll(rb: &mut RccRegisters, pp: PllPlan, from_hse: bool)
    requires
        pp.in_hardware_range(),
    ensures
        *final(rb) == (RccRegisters {
            pllsrc: if from_hse {
                PllSource::Hse
            } else {
                PllSource::Hsi
            },
            divm1: pp.divm as u8,
            divn1: (pp.divn - 1) as u16,
            divp1: (pp.divp - 1) as u8,
            divq1: (pp.divq - 1) as u8,
            pll1fracen: false,
            pll1vcosel_medium: true,
            pll1rge: 0,
            divp1en: true,
            divq1en: true,
            pll1on: true,
            ..*old(rb)
        }),
        final(rb).divm1 == pp.divm,
        final(rb).divn1 + 1 == pp.divn,
        final(rb).divp1 + 1 == pp.divp,
        final(rb).divq1 + 1 == pp.divq,
{
    rb.pllsrc = if from_hse {
        PllSource::Hse
    } else {
        PllSource::Hsi
    };
    rb.divm1 = pp.divm as u8;
    rb.divn1 = (pp.divn - 1) as u16;
    rb.divp1 = (pp.divp - 1) as u8;
    rb.divq1 = (pp.divq - 1) as u8;
    rb.pll1fracen = false;
    rb.pll1vcosel_medium = true;
    rb.pll1rge = 0;
    rb.divp1en = true;
    rb.divq1en = true;
    rb.pll1on = true;
}

/// Writes the core, AHB and APB prescalers, the peripheral clock source
/// and the timer clock multiplier of plan `p`.
fn program_prescalers(rb: &mut RccRegisters, p: &ClockPlan)
    ensures
        *final(rb) == (RccRegisters {
            d1cpre: 0,
            hpre: ahb_code(p.hpre as int),
            d2ppre1: apb_code(p.ppre1 as int),
            d2ppre2: apb_code(p.ppre2 as int),
            d1ppre: apb_code(p.ppre3 as int),
            d3ppre: apb_code(p.ppre4 as int),
            ckpersel: p.per_source,
            timpre: TimerPrescaler::DefaultX2,
            ..*old(rb)
        }),
{
    rb.d1cpre = 0;
    rb.d1ppre = apb_prescaler_code(p.ppre3);
    rb.hpre = ahb_prescaler_code(p.hpre);
    rb.d2ppre1 = apb_prescaler_code(p.ppre1);
    rb.d2ppre2 = apb_prescaler_code(p.ppre2);
    rb.d3ppre = apb_prescaler_code(p.ppre4);
    rb.ckpersel = p.per_source;
    rb.timpre = TimerPrescaler::DefaultX2;
}

/// Programs the flash wait states of plan `p`, then brings up the
/// low-power oscillator, the external oscillator when `hse` is set, and
/// PLL1 when the plan has one, polling each at most `max_polls` times.
fn start_sources(
    rb: &mut RccRegisters,
    flash: &mut FlashRegisters,
    p: &ClockPlan,
    hse: Option<u32>,
    max_polls: u32,
) -> (r: Result<(), WaitFlag>)
    requires
        match p.pll {
            Some(pp) => pp.in_hardware_range(),
            None => true,
        },
    ensures
        max_polls > 0 ==> r is Ok,
        max_polls == 0 && !old(rb).csirdy ==> r == Err::<(), WaitFlag>(WaitFlag::CsiReady),
        r is Ok ==> sources_hold(*final(rb), *p, hse),
        final(flash).latency == p.flash_latency,
        final(flash).wrhighfreq == p.flash_delay,
{
    // Flash wait states for the target band, before any clock speeds up.
    flash.latency = p.flash_latency;
    flash.wrhighfreq = p.flash_delay;

    rb.csion = true;
    if !wait_rcc(rb, WaitFlag::CsiReady, max_polls) {
        return Err(WaitFlag::CsiReady);
    }
    if hse.is_some() {
        rb.hseon = true;
        rb.hsebyp = false;
        if !wait_rcc(rb, WaitFlag::HseReady, max_polls) {
            return Err(WaitFlag::HseReady);
        }
    }
    match p.pll {
        Some(pp) => {
            program_pll(rb, pp, hse.is_some());
            if !wait_rcc(rb, WaitFlag::Pll1Ready, max_polls) {
                return Err(WaitFlag::Pll1Ready);
            }
        },
        None => {},
    }
    Ok(())
}

/// Programs the prescalers of plan `p`, switches the system clock to its
/// source and enables the I/O compensation cell, polling each status at
/// most `max_polls` times.
fn switch_over(
    rb: &mut RccRegisters,
    syscfg: &mut SyscfgRegisters,
    p: &ClockPlan,
    hse: Option<u32>,
    max_polls: u32,
) -> (r: Result<(), WaitFlag>)
    requires
        sources_hold(*old(rb), *p, hse),
    ensures
        max_polls > 0 ==> r is Ok,
        r is Ok ==> {
            &&& registers_hold(*final(rb), *p, hse)
            &&& final(syscfg).cccsr_en && final(syscfg).cccsr_ready
            &&& !final(syscfg).cccsr_cs && !final(syscfg).cccsr_hslv
        },
{
    // The core prescaler reads back what was written.
    program_prescalers(rb, p);

    rb.sw = if p.pll.is_some() {
        SystemClockSource::Pll1
    } else if hse.is_some() {
        SystemClockSource::Hse
    } else {
        SystemClockSource::Hsi
    };
    if !wait_rcc(rb, WaitFlag::ClockSwitch, max_polls) {
        return Err(WaitFlag::ClockSwitch);
    }

    rb.syscfgen = true;
    syscfg.cccsr_en = true;
    syscfg.cccsr_cs = false;
    syscfg.cccsr_hslv = false;
    if !wait_compensation(syscfg, max_polls) {
        return Err(WaitFlag::CompensationCell);
    }
    Ok(())
}

/// Commits plan `p` to the register blocks in the order the hardware
/// asks for: flash wait states, oscillators, PLL1, prescalers, system
/// clock switch, I/O compensation cell. Each status flag is polled at
/// most `max_polls` times.
fn commit(
    rb: &mut RccRegisters,
    flash: &mut FlashRegisters,
    syscfg: &mut SyscfgRegisters,
    p: &ClockPlan,
    hse: Option<u32>,
    max_polls: u32,
) -> (r: Result<(), WaitFlag>)
    requires
        match p.pll {
            Some(pp) => pp.in_hardware_range(),
            None => true,
        },
    ensures
        max_polls > 0 ==> r is Ok,
        max_polls == 0 && !old(rb).csirdy ==> r == Err::<(), WaitFlag>(WaitFlag::CsiReady),
        r is Ok ==> {
            &&& registers_hold(*final(rb), *p, hse)
            &&& final(flash).latency == p.flash_latency
            &&& final(flash).wrhighfreq == p.flash_delay
            &&& final(syscfg).cccsr_en && final(syscfg).cccsr_ready
            &&& !final(syscfg).cccsr_cs && !final(syscfg).cccsr_hslv
        },
{
    start_sources(rb, flash, p, hse, max_polls)?;
    switch_over(rb, syscfg, p, hse, max_polls)
}

/// The records built from a plan for `c` under `vos` are those that the
/// request determines.
proof fn lemma_plan_commits(
    p: ClockPlan,
    c: Config,
    vos: VoltageScale,
    r: RccRegisters,
    clocks: CoreClocks,
)
    requires
        p.plans(c, vos),
        registers_hold(r, p, c.hse),
        clocks@.hclk == p.hclk,
        clocks@.pclk1 == p.pclk1,
        clocks@.pclk2 == p.pclk2,
        clocks@.pclk3 == p.pclk3,
        clocks@.pclk4 == p.pclk4,
        clocks@.ppre1 == p.ppre1,
        clocks@.ppre2 == p.ppre2,
        clocks@.ppre3 == p.ppre3,
        clocks@.ppre4 == p.ppre4,
        clocks@.csi_ck == Some(CSI as int),
        clocks@.hsi_ck == Some(HSI as int),
        clocks@.per_ck == Some(p.per_ck as int),
        clocks@.hse_ck == opt_req(c.hse),
        clocks@.pll1_p_ck == (match p.pll {
            Some(pp) => Some(pp.p_ck as int),
            None => None,
        }),
        clocks@.pll1_q_ck == (match p.pll {
            Some(pp) => Some(pp.q_ck as int),
            None => None,
        }),
        clocks@.pll1_r_ck is None,
        clocks@.pll2_p_ck is None && clocks@.pll2_q_ck is None && clocks@.pll2_r_ck is None,
        clocks@.pll3_p_ck is None && clocks@.pll3_q_ck is None && clocks@.pll3_r_ck is None,
        clocks@.timx_ker_ck == p.timx_ker_ck,
        clocks@.timy_ker_ck == p.timy_ker_ck,
        clocks@.sys_ck == p.sys_ck,
        clocks@.c_ck == p.sys_ck,
    ensures
        registers_commit(r, c, vos),
        clocks.frozen_from(c, vos),
{
}

impl Rcc {
    /// Freezes the clock tree: plans it under `vos`, then programs the
    /// flash wait states, brings up the oscillators, locks the PLL,
    /// programs the prescalers, switches the system clock and enables the
    /// I/O compensation cell, in that order, waiting at most `max_polls`
    /// polls for each status flag. A request that cannot be planned, or
    /// an internal oscillator not in its reset setting, is refused before
    /// any register is written; the register block comes back with the
    /// error.
    pub fn freeze(
        self,
        vos: VoltageScale,
        flash: &mut FlashRegisters,
        syscfg: &mut SyscfgRegisters,
        max_polls: u32,
    ) -> (r: Result<Ccdr, (ClockError, RccRegisters)>)
        ensures
            plan_error(self.config, vos) is Some ==> {
                &&& r matches Err((e, rb)) && plan_error(self.config, vos) == Some(e) && rb
                    == self.rb
                &&& *final(flash) == *old(flash)
                &&& *final(syscfg) == *old(syscfg)
            },
            plan_error(self.config, vos) is None && !hsi_default(self.rb) ==> {
                &&& r matches Err((e, rb)) && e == ClockError::HsiNotDefault && rb == self.rb
                &&& *final(flash) == *old(flash)
                &&& *final(syscfg) == *old(syscfg)
            },
            plan_error(self.config, vos) is None && hsi_default(self.rb) && max_polls > 0
                ==> r is Ok,
            r matches Err((ClockError::Timeout(_), _)) ==> max_polls == 0,
            plan_error(self.config, vos) is None && hsi_default(self.rb) && max_polls == 0
                && !self.rb.csirdy ==> r matches Err((ClockError::Timeout(WaitFlag::CsiReady), _)),
            r matches Ok(ccdr) ==> {
                &&& plan_error(self.config, vos) is None
                &&& ccdr.clocks.frozen_from(self.config, vos)
                &&& registers_commit(ccdr.rb, self.config, vos)
                &&& (final(flash).latency, final(flash).wrhighfreq) == flash_setting(
                    vos,
                    planned_hclk(self.config) / 1_000_000,
                )
                &&& final(syscfg).cccsr_en && final(syscfg).cccsr_ready
                &&& !final(syscfg).cccsr_cs && !final(syscfg).cccsr_hslv
            },
    {
        let c = self.config;
        let p = match plan(&c, vos) {
            Ok(p) => p,
            Err(e) => {
                return Err((e, self.rb));
            },
        };
        if !(self.rb.hsion && self.rb.hsidiv == 0) {
            return Err((ClockError::HsiNotDefault, self.rb));
        }
        let mut rb = self.rb;
        match commit(&mut rb, flash, syscfg, &p, c.hse, max_polls) {
            Ok(()) => {},
            Err(flag) => {
                return Err((ClockError::Timeout(flag), rb));
            },
        }
        let pll1_p_ck = match p.pll {
            Some(pp) => Some(Hertz(pp.p_ck)),
            None => None,
        };
        let pll1_q_ck = match p.pll {
            Some(pp) => Some(Hertz(pp.q_ck)),
            None => None,
        };
        let hse_ck = match c.hse {
            Some(f) => Some(Hertz(f)),
            None => None,
        };
        let clocks = CoreClocks {
            hclk: Hertz(p.hclk),
            pclk1: Hertz(p.pclk1),
            pclk2: Hertz(p.pclk2),
            pclk3: Hertz(p.pclk3),
            pclk4: Hertz(p.pclk4),
            ppre1: p.ppre1 as u8,
            ppre2: p.ppre2 as u8,
            ppre3: p.ppre3 as u8,
            ppre4: p.ppre4 as u8,
            csi_ck: Some(Hertz(CSI)),
            hsi_ck: Some(Hertz(HSI)),
            per_ck: Some(Hertz(p.per_ck)),
            hse_ck,
            pll1_p_ck,
            pll1_q_ck,
            pll1_r_ck: None,
            pll2_p_ck: None,
            pll2_q_ck: None,
            pll2_r_ck: None,
            pll3_p_ck: None,
            pll3_q_ck: None,
            pll3_r_ck: None,
            timx_ker_ck: Hertz(p.timx_ker_ck),
            timy_ker_ck: Hertz(p.timy_ker_ck),
            sys_ck: Hertz(p.sys_ck),
            c_ck: Hertz(p.sys_ck),
        };
        proof {
            lemma_plan_commits(p, c, vos, rb, clocks);
        }
        Ok(
            Ccdr {
                clocks,
                ahb1: AHB1 { _0: () },
                ahb3: AHB3 { _0: () },
                ahb4: AHB4 { _0: () },
                apb1: APB1 { _0: () },
                apb2: APB2 { _0: () },
                apb3: APB3 { _0: () },
                apb4: APB4 { _0: () },
                d3ccipr: D3CCIPR { _0: () },
                rb,
            },
        )
    }
}

/// When the requested system clock is the source clock, no PLL is
/// engaged: the system clock is the source, and a plan holds no PLL.
pub proof fn lemma_no_pll_at_source(c: Config, vos: VoltageScale, p: ClockPlan)
    requires
        requested_sys(c) == source_clock(c),
        p.plans(c, vos),
    ensures
        !uses_pll(c),
        system_clock(c) == source_clock(c),
        p.pll is None,
        p.sys_ck == source_clock(c),
{
}

/// Planning has no hidden state: two plans for the same request under the
/// same voltage scale are equal.
pub proof fn lemma_plan_unique(a: ClockPlan, b: ClockPlan, c: Config, vos: VoltageScale)
    requires
        a.plans(c, vos),
        b.plans(c, vos),
    ensures
        a == b,
{
    match (a.pll, b.pll) {
        (Some(x), Some(y)) => {
            crate::pll::lemma_pll_plan_unique(x, y, source_clock(c), requested_sys(c));
        },
        _ => {},
    }
}

/// The request `o` asks for more than `max` Hertz.
pub open spec fn asks_above(o: Option<u32>, max: int) -> bool {
    match o {
        Some(f) => f > max,
        None => false,
    }
}

/// A request for an AHB or APB clock above the ceiling of the voltage
/// scale is refused, so freezing it writes no register.
pub proof fn lemma_request_above_ceiling_refused(c: Config, vos: VoltageScale)
    requires
        asks_above(c.rcc_hclk, hclk_max(vos)) || asks_above(c.rcc_pclk1, pclk_max(vos))
            || asks_above(c.rcc_pclk2, pclk_max(vos)) || asks_above(c.rcc_pclk3, pclk_max(vos))
            || asks_above(c.rcc_pclk4, pclk_max(vos)),
    ensures
        plan_error(c, vos) is Some,
{
}

} // verus!
