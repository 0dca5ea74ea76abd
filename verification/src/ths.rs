//! The pitch trim setting of the trimmable horizontal stabilizer, looked up
//! from the weight of the aircraft and the place of its centre of gravity.

use vstd::prelude::*;
use crate::interpolation::{interp2, is_grid, lookup_grid, strictly_ascending, EdgePolicy};

verus! {

/// The weights of the table, in thousandths of a ton.
pub const WEIGHT_BREAKPOINTS: [i32; 8] = [
    48_000,
    50_000,
    55_000,
    60_000,
    65_000,
    70_000,
    75_000,
    79_000,
];

/// The centres of gravity of the table, in thousandths of a percent.
pub const CG_BREAKPOINTS: [i32; 9] = [
    15_000,
    17_000,
    20_000,
    24_000,
    27_000,
    30_000,
    32_000,
    35_000,
    40_000,
];

/// The trim settings, in thousandths of a degree: one row per weight, one
/// column per centre of gravity.
pub const TABLE_DATA: [i32; 72] = [
    3700, 3200, 2700, 2000, 1400, 900, 400, 0, -900,
    4300, 3700, 3200, 2500, 1800, 1300, 900, 400, -600,
    5600, 5100, 4400, 3700, 2900, 2100, 1700, 1100, -200,
    5500, 5000, 4400, 3400, 2900, 2200, 1700, 1100, 100,
    6100, 5500, 4900, 3900, 3200, 2400, 1900, 1200, 0,
    6600, 5700, 5100, 4100, 3400, 2500, 2100, 1500, 300,
    6600, 6100, 5300, 4300, 3700, 2900, 2500, 1700, 500,
    6600, 6200, 5400, 4400, 3600, 2900, 2500, 1800, 600,
];

/// The trim setting for a weight and a centre of gravity. Outside of the
/// table the nearest weight or centre of gravity of the table is used.
pub open spec fn pitch_trim(weight: i32, cg: i32) -> int {
    interp2(
        WEIGHT_BREAKPOINTS@,
        CG_BREAKPOINTS@,
        TABLE_DATA@,
        EdgePolicy::BinarySnap,
        EdgePolicy::BinarySnap,
        weight as int,
        cg as int,
    )
}

/// The table is a grid.
pub proof fn lemma_table_is_grid()
    ensures
        is_grid(WEIGHT_BREAKPOINTS@, CG_BREAKPOINTS@, TABLE_DATA@),
{
    assert(strictly_ascending(WEIGHT_BREAKPOINTS@));
    assert(strictly_ascending(CG_BREAKPOINTS@));
}

/// The trim setting, in thousandths of a degree, for a weight in
/// thousandths of a ton and a centre of gravity in thousandths of a percent.
pub fn lookup(weight: i32, cg: i32) -> (trim: i32)
    ensures
        trim == pitch_trim(weight, cg),
{
    proof {
        lemma_table_is_grid();
    }
    lookup_grid(
        WEIGHT_BREAKPOINTS.as_slice(),
        CG_BREAKPOINTS.as_slice(),
        TABLE_DATA.as_slice(),
        EdgePolicy::BinarySnap,
        EdgePolicy::BinarySnap,
        weight as i64,
        cg as i64,
    )
}

} // verus!
