//! The layout of the colour-band sketch: fifteen rows of three bands, whose
//! hue turns at a speed set by a Fibonacci number that grows away from the
//! middle row.

use vstd::prelude::*;
use crate::sequence::{fib, fibonacci};

verus! {

/// The number of band rows.
pub const BAND_ROWS: u32 = 15;

/// The number of bands in a row.
pub const BAND_COLUMNS: u32 = 3;

/// The middle row, where the hue turns slowest.
pub const MIDDLE_ROW: u32 = 7;

/// The distance of `row` from the middle row.
pub open spec fn distance_from_middle(row: int) -> nat {
    if row >= MIDDLE_ROW {
        (row - MIDDLE_ROW) as nat
    } else {
        (MIDDLE_ROW - row) as nat
    }
}

/// The speed factor of a row: the Fibonacci number of its distance from the
/// middle row.
pub fn band_speed(row: u32) -> (r: u64)
    requires
        row < BAND_ROWS,
    ensures
        r == fib(distance_from_middle(row as int)),
{
    let distance: u64 = if row >= MIDDLE_ROW {
        (row - MIDDLE_ROW) as u64
    } else {
        (MIDDLE_ROW - row) as u64
    };
    proof {
        crate::sequence::lemma_fib_monotone(distance as nat, 7);
        reveal_with_fuel(fib, 8);
        assert(fib(7) == 13);
    }
    fibonacci(distance)
}

/// The starting hue of a band, in degrees: the columns split the colour
/// wheel into thirds, counted from the first third.
pub fn band_hue(column: u32) -> (r: u32)
    requires
        column < BAND_COLUMNS,
    ensures
        r == 120 * (column + 1),
{
    let third: u32 = 360 / BAND_COLUMNS;
    assert(third == 120);
    third * (column + 1)
}

} // verus!
