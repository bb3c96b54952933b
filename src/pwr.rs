//! Core voltage scaling.

use vstd::prelude::*;

verus! {

/// Operating point of the core regulator, from the highest performance
/// (`Scale0`) to the lowest (`Scale3`). Every frequency ceiling of the
/// clock tree depends on it.
#[derive(Clone, Copy, Debug, PartialEq, Eq, Structural)]
pub enum VoltageScale {
    Scale0,
    Scale1,
    Scale2,
    Scale3,
}

} // verus!
