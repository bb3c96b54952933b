//! Flash wait states and programming delay for an AXI clock band.

use crate::pwr::VoltageScale;
use vstd::prelude::*;

verus! {

/// Number of bands of each table that have an upper end; one more band
/// holds everything above the last of them.
pub const BOUNDED_BANDS: u32 = 5;

/// Upper end, in MHz and inclusive, of band `i` (for `i < BOUNDED_BANDS`)
/// of the table of `vos`.
pub open spec fn band_upper(vos: VoltageScale, i: int) -> int {
    match vos {
        VoltageScale::Scale0 | VoltageScale::Scale1 => if i == 0 {
            69
        } else if i == 1 {
            139
        } else if i == 2 {
            184
        } else if i == 3 {
            209
        } else {
            224
        },
        VoltageScale::Scale2 => if i == 0 {
            54
        } else if i == 1 {
            109
        } else if i == 2 {
            164
        } else if i == 3 {
            224
        } else {
            225
        },
        VoltageScale::Scale3 => if i == 0 {
            44
        } else if i == 1 {
            89
        } else if i == 2 {
            134
        } else if i == 3 {
            179
        } else {
            224
        },
    }
}

/// Lower end, in MHz and inclusive, of band `i`: each band starts right
/// after the previous one ends.
pub open spec fn band_lower(vos: VoltageScale, i: int) -> int {
    if i <= 0 {
        0
    } else {
        band_upper(vos, i - 1) + 1
    }
}

/// `mhz` lies in band `i` of the table of `vos`.
pub open spec fn in_band(vos: VoltageScale, i: int, mhz: int) -> bool {
    &&& 0 <= i <= BOUNDED_BANDS
    &&& band_lower(vos, i) <= mhz
    &&& (i == BOUNDED_BANDS || mhz <= band_upper(vos, i))
}

/// (wait states, programming delay) of band `i` of the table of `vos`.
pub open spec fn band_setting(vos: VoltageScale, i: int) -> (u8, u8) {
    match vos {
        VoltageScale::Scale0 | VoltageScale::Scale1 => if i == 0 {
            (0, 0)
        } else if i == 1 {
            (1, 1)
        } else if i == 2 {
            (2, 1)
        } else if i == 3 {
            (2, 2)
        } else if i == 4 {
            (3, 2)
        } else {
            (7, 3)
        },
        VoltageScale::Scale2 => if i == 0 {
            (0, 0)
        } else if i == 1 {
            (1, 1)
        } else if i == 2 {
            (2, 1)
        } else if i == 3 {
            (3, 2)
        } else if i == 4 {
            (4, 2)
        } else {
            (7, 3)
        },
        VoltageScale::Scale3 => if i == 0 {
            (0, 0)
        } else if i == 1 {
            (1, 1)
        } else if i == 2 {
            (2, 1)
        } else if i == 3 {
            (3, 2)
        } else if i == 4 {
            (4, 2)
        } else {
            (7, 3)
        },
    }
}

/// The first band whose upper end is at or above `mhz`.
pub open spec fn band_index(vos: VoltageScale, mhz: int) -> int {
    if mhz <= band_upper(vos, 0) {
        0
    } else if mhz <= band_upper(vos, 1) {
        1
    } else if mhz <= band_upper(vos, 2) {
        2
    } else if mhz <= band_upper(vos, 3) {
        3
    } else if mhz <= band_upper(vos, 4) {
        4
    } else {
        5
    }
}

/// (wait states, programming delay) for an AXI clock of `mhz` MHz.
pub open spec fn flash_setting(vos: VoltageScale, mhz: int) -> (u8, u8) {
    band_setting(vos, band_index(vos, mhz))
}

/// The wait states and programming delay that an AXI clock of `aclk`
/// Hertz needs under `vos`.
pub fn flash_wait_states(aclk: u32, vos: VoltageScale) -> (r: (u8, u8))
    ensures
        r == flash_setting(vos, aclk as int / 1_000_000),
{
    let mhz: u32 = aclk / 1_000_000;
    match vos {
        VoltageScale::Scale0 | VoltageScale::Scale1 => if mhz <= 69 {
            (0, 0)
        } else if mhz <= 139 {
            (1, 1)
        } else if mhz <= 184 {
            (2, 1)
        } else if mhz <= 209 {
            (2, 2)
        } else if mhz <= 224 {
            (3, 2)
        } else {
            (7, 3)
        },
        VoltageScale::Scale2 => if mhz <= 54 {
            (0, 0)
        } else if mhz <= 109 {
            (1, 1)
        } else if mhz <= 164 {
            (2, 1)
        } else if mhz <= 224 {
            (3, 2)
        } else if mhz <= 225 {
            (4, 2)
        } else {
            (7, 3)
        },
        VoltageScale::Scale3 => if mhz <= 44 {
            (0, 0)
        } else if mhz <= 89 {
            (1, 1)
        } else if mhz <= 134 {
            (2, 1)
        } else if mhz <= 179 {
            (3, 2)
        } else if mhz <= 224 {
            (4, 2)
        } else {
            (7, 3)
        },
    }
}

/// The bands of each table are contiguous and cover every frequency
/// exactly once, and the setting chosen for a frequency is that of its
/// band; so the setting depends on the voltage scale and the band alone.
pub proof fn lemma_flash_bands_partition(vos: VoltageScale, mhz: int)
    requires
        0 <= mhz,
    ensures
        forall|i: int| 0 < i <= BOUNDED_BANDS ==> band_lower(vos, i) == band_upper(vos, i - 1) + 1,
        in_band(vos, band_index(vos, mhz), mhz),
        forall|i: int| in_band(vos, i, mhz) ==> i == band_index(vos, mhz),
        forall|i: int| in_band(vos, i, mhz) ==> flash_setting(vos, mhz) == band_setting(vos, i),
{
}

} // verus!
