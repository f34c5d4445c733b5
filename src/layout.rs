//! Layout constants: the canvas size that face geometry is scaled from, and
//! the angles used by the expression table, in milliradians.

use vstd::prelude::*;

verus! {

/// Side of the square canvas that face geometry is laid out on, in pixels.
pub const CANVAS: i32 = 480;

/// Half a turn, in milliradians.
pub const PI: i32 = 3142;

/// A quarter turn, in milliradians.
pub const FRAC_PI_2: i32 = 1571;

/// An eighth of a turn, in milliradians.
pub const FRAC_PI_4: i32 = 785;

/// A twelfth of a turn, in milliradians.
pub const FRAC_PI_6: i32 = 524;

/// A sixteenth of a turn, in milliradians.
pub const FRAC_PI_8: i32 = 393;

/// `p` percent of the canvas side, rounded down.
pub open spec fn pct(p: int) -> int {
    CANVAS * p / 100
}

} // verus!
