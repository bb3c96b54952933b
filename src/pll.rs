//! PLL1 planning: the reference prescaler, the feedback divider and the
//! output dividers that bring a source oscillator to a requested system
//! clock.

use crate::error::ClockError;
use vstd::prelude::*;

verus! {

/// Lowest PLL reference frequency, in Hertz.
pub const REF_MIN: u32 = 1_000_000;

/// Highest PLL reference frequency, in Hertz.
pub const REF_MAX: u32 = 2_000_000;

/// Lowest frequency of the medium-range VCO, in Hertz.
pub const VCO_MIN: u32 = 150_000_000;

/// Highest frequency of the medium-range VCO, in Hertz.
pub const VCO_MAX: u32 = 420_000_000;

/// Dividers and resulting frequencies of PLL1. The P and Q outputs share
/// one divider; the R output is not used.
#[derive(Clone, Copy, Debug, PartialEq, Eq, Structural)]
pub struct PllPlan {
    /// Reference prescaler (DIVM1).
    pub divm: u32,
    /// Reference frequency, `source / divm`.
    pub ref_ck: u32,
    /// Feedback divider (DIVN1).
    pub divn: u32,
    /// VCO frequency that the output divider was chosen for.
    pub vco_ck: u32,
    /// P output divider (DIVP1).
    pub divp: u32,
    /// Q output divider (DIVQ1).
    pub divq: u32,
    /// P output frequency.
    pub p_ck: u32,
    /// Q output frequency.
    pub q_ck: u32,
}

/// The smallest prescaler that brings `src` to at most 2 MHz.
pub open spec fn ref_prescaler(src: int) -> int {
    (src + 1_999_999) / 2_000_000
}

/// The largest even divider (or 1 above half the VCO ceiling) that keeps
/// `sys * divider` at or below the VCO ceiling.
pub open spec fn output_divider(sys: int) -> int {
    if sys > VCO_MAX / 2 {
        1
    } else {
        let q = VCO_MAX as int / sys;
        q - q % 2
    }
}

/// The VCO frequency aimed at for a system clock `sys`.
pub open spec fn vco_target(sys: int) -> int {
    sys * output_divider(sys)
}

/// Why no PLL plan exists from `src` to `sys`, if one does not.
pub open spec fn pll_error(src: int, sys: int) -> Option<ClockError> {
    if src <= 0 || ref_prescaler(src) >= 64 || src / ref_prescaler(src) < REF_MIN || src
        / ref_prescaler(src) > REF_MAX {
        Some(ClockError::PllReference)
    } else if sys <= 0 || output_divider(sys) > 128 {
        Some(ClockError::PllOutputDivider)
    } else if vco_target(sys) < VCO_MIN || vco_target(sys) > VCO_MAX {
        Some(ClockError::PllVco)
    } else if vco_target(sys) / (src / ref_prescaler(src)) < 4 || vco_target(sys) / (src
        / ref_prescaler(src)) > 512 {
        Some(ClockError::PllFeedback)
    } else {
        None
    }
}

impl PllPlan {
    /// The plan holds the dividers and frequencies that planning from
    /// `src` to `sys` computes.
    pub open spec fn plans(self, src: int, sys: int) -> bool {
        &&& self.divm == ref_prescaler(src)
        &&& self.ref_ck == src / (self.divm as int)
        &&& self.divp == output_divider(sys)
        &&& self.vco_ck == vco_target(sys)
        &&& self.divn == self.vco_ck / self.ref_ck
        &&& self.divq == self.divp
        &&& self.p_ck == (self.ref_ck * self.divn) / (self.divp as int)
        &&& self.q_ck == (self.ref_ck * self.divn) / (self.divq as int)
    }

    /// Every quantity lies in the range the hardware accepts.
    pub open spec fn in_hardware_range(self) -> bool {
        &&& 1 <= self.divm <= 63
        &&& REF_MIN <= self.ref_ck <= REF_MAX
        &&& 4 <= self.divn <= 512
        &&& VCO_MIN <= self.vco_ck <= VCO_MAX
        &&& VCO_MIN - REF_MAX <= self.ref_ck * self.divn <= VCO_MAX
        &&& 1 <= self.divp <= 128
        &&& 1 <= self.divq <= 128
    }
}

/// Plans PLL1 for a source of `src` Hertz and a requested system clock of
/// `sys` Hertz. No PLL is needed when the two are equal.
pub fn plan_pll(src: u32, sys: u32) -> (r: Result<Option<PllPlan>, ClockError>)
    ensures
        sys == src ==> r == Ok::<Option<PllPlan>, ClockError>(None),
        sys != src ==> match r {
            Ok(Some(p)) => pll_error(src as int, sys as int) is None && p.plans(src as int, sys as int)
                && p.in_hardware_range(),
            Ok(None) => false,
            Err(e) => pll_error(src as int, sys as int) == Some(e),
        },
{
    if sys == src {
        return Ok(None);
    }
    if src == 0 {
        return Err(ClockError::PllReference);
    }
    let m64: u64 = (src as u64 + 1_999_999) / 2_000_000;
    let m: u32 = m64 as u32;
    if m >= 64 {
        return Err(ClockError::PllReference);
    }
    let ref_ck: u32 = src / m;
    if ref_ck < REF_MIN || ref_ck > REF_MAX {
        return Err(ClockError::PllReference);
    }
    if sys == 0 {
        return Err(ClockError::PllOutputDivider);
    }
    let p: u32 = if sys > VCO_MAX / 2 {
        1
    } else {
        let q: u32 = VCO_MAX / sys;
        assert(q >= 2) by (nonlinear_arith)
            requires
                q as int == 420_000_000int / (sys as int),
                0 < sys <= 210_000_000,
        ;
        q - q % 2
    };
    if p > 128 {
        return Err(ClockError::PllOutputDivider);
    }
    assert((sys as int) * (p as int) <= 0x1_0000_0000 * 128) by (nonlinear_arith)
        requires
            sys < 0x1_0000_0000,
            p <= 128,
    ;
    let vco64: u64 = sys as u64 * p as u64;
    if vco64 < VCO_MIN as u64 || vco64 > VCO_MAX as u64 {
        return Err(ClockError::PllVco);
    }
    let vco: u32 = vco64 as u32;
    let n: u32 = vco / ref_ck;
    if n < 4 || n > 512 {
        return Err(ClockError::PllFeedback);
    }
    assert(ref_ck * n <= vco && vco < ref_ck * n + ref_ck) by (nonlinear_arith)
        requires
            n == vco / ref_ck,
            ref_ck > 0,
    ;
    let p_ck: u32 = ref_ck * n / p;
    let q_ck: u32 = ref_ck * n / p;
    Ok(Some(PllPlan { divm: m, ref_ck, divn: n, vco_ck: vco, divp: p, divq: p, p_ck, q_ck }))
}

/// Whenever a PLL plan exists from `src` to `sys`, its reference lies in
/// 1 to 2 MHz, its VCO in 150 to 420 MHz and its feedback divider in 4 to
/// 512.
pub proof fn lemma_pll_plan_in_range(src: int, sys: int)
    requires
        pll_error(src, sys) is None,
    ensures
        REF_MIN <= src / ref_prescaler(src) <= REF_MAX,
        VCO_MIN <= vco_target(sys) <= VCO_MAX,
        4 <= vco_target(sys) / (src / ref_prescaler(src)) <= 512,
        1 <= ref_prescaler(src) <= 63,
        1 <= output_divider(sys) <= 128,
{
    if sys <= VCO_MAX / 2 {
        assert(VCO_MAX as int / sys >= 2) by (nonlinear_arith)
            requires
                0 < sys <= 210_000_000,
        ;
    }
}

/// Two plans from the same source to the same system clock are equal.
pub proof fn lemma_pll_plan_unique(a: PllPlan, b: PllPlan, src: int, sys: int)
    requires
        a.plans(src, sys),
        b.plans(src, sys),
    ensures
        a == b,
{
}

} // verus!
