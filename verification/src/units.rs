//! Units of length used by the printer model.
//!
//! Every horizontal distance the ImageWriter works with (a character cell at
//! 10, 12, 15 or 17 characters per inch, a 1/10 inch column, a 1/720 inch step,
//! a half-inch tab stop, a dot at any of the eight graphics densities) is a
//! whole number of `1 / X_UNITS_PER_INCH` inch, and every vertical distance
//! (a line spacing in 1/144 inch, a page length in 1/144 inch, a graphics dot
//! row at 1/72 inch) is a whole number of `1 / Y_UNITS_PER_INCH` inch. Positions
//! are therefore held exactly, as integers.

use vstd::prelude::*;

verus! {

/// Horizontal units per inch: the least common multiple of 10, 12, 15, 17, 720,
/// 72, 80, 96, 107, 120, 136, 144 and 160.
pub const X_UNITS_PER_INCH: u64 = 2619360;

/// Vertical units per inch.
pub const Y_UNITS_PER_INCH: u64 = 144;

/// Resolution, in pixels per inch, of the raster that pages are rendered to.
pub const OUTPUT_DPI: u64 = 144;

/// Width of one output pixel in horizontal units.
pub const PIXEL_X_UNITS: u64 = 18190;

/// Default page width: 8.5 inches.
pub const DEFAULT_PAGE_WIDTH: u64 = 22264560;

/// Default page height: 11 inches.
pub const DEFAULT_PAGE_HEIGHT: u64 = 1584;

/// Page height used for continuous paper: 100 inches.
pub const CONTINUOUS_PAGE_HEIGHT: u64 = 14400;

/// One tenth of an inch (a column at 10 characters per inch).
pub const TENTH_INCH: u64 = 261936;

/// One 720th of an inch.
pub const STEP_720: u64 = 3638;

/// Half an inch (the spacing of the default tab stops).
pub const HALF_INCH: u64 = 1309680;

/// The sum `a + b`, held at `u64::MAX` where it would not fit.
pub open spec fn sat_add(a: u64, b: u64) -> u64 {
    if a + b > u64::MAX {
        u64::MAX
    } else {
        (a + b) as u64
    }
}

/// Adds with saturation at `u64::MAX`.
pub fn add_sat(a: u64, b: u64) -> (r: u64)
    ensures
        r == sat_add(a, b),
{
    a.saturating_add(b)
}

/// `x` rounded to the nearest multiple of `step`, halves rounding up, held at
/// `u64::MAX` where it would not fit.
pub open spec fn round_to_multiple(x: u64, step: u64) -> u64
    recommends
        step > 0,
{
    let r = x % step;
    if 2 * r >= step {
        sat_add((x - r) as u64, step)
    } else {
        (x - r) as u64
    }
}

/// Rounds a horizontal position to the nearest output pixel boundary.
pub fn round_to_pixel(x: u64) -> (r: u64)
    ensures
        r == round_to_multiple(x, PIXEL_X_UNITS),
{
    let rem = x % PIXEL_X_UNITS;
    let base = x - rem;
    if 2 * rem >= PIXEL_X_UNITS {
        add_sat(base, PIXEL_X_UNITS)
    } else {
        base
    }
}

} // verus!
