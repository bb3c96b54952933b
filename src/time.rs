//! Frequencies in Hertz.

use vstd::prelude::*;

verus! {

/// A frequency in Hertz.
#[derive(Clone, Copy, Debug, PartialEq, Eq, Structural)]
pub struct Hertz(pub u32);

impl Hertz {
    /// A frequency given in Hertz.
    pub fn hz(v: u32) -> (r: Hertz)
        ensures
            r.0 == v,
    {
        Hertz(v)
    }

    /// A frequency given in kilohertz.
    pub fn khz(v: u32) -> (r: Hertz)
        requires
            v * 1_000 <= u32::MAX,
        ensures
            r.0 == v * 1_000,
    {
        Hertz(v * 1_000)
    }

    /// A frequency given in megahertz.
    pub fn mhz(v: u32) -> (r: Hertz)
        requires
            v * 1_000_000 <= u32::MAX,
        ensures
            r.0 == v * 1_000_000,
    {
        Hertz(v * 1_000_000)
    }
}

} // verus!
