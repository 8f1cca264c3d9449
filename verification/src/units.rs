//! What the integers of this crate count.
//!
//! No value is ever rounded here. A quantity is an integer number of fixed
//! fractions of its unit, and a product is counted in the product of the
//! fractions of its factors:
//!
//! | quantity                                   | one unit is        |
//! |--------------------------------------------|--------------------|
//! | proportions, coefficients, the velocity    | [`MILLI`]          |
//! | sines, cosines, noise values               | [`MICRO`]          |
//! | the clock, in seconds                      | [`MICRO`]          |
//! | simulated time and noise coordinates       | [`NANO`]           |
//! | a radius, in pixels                        | [`PICO`]           |
//! | a coordinate on the screen, in pixels      | [`ATTO`]           |
//! | a colour channel                           | [`CHANNEL_MAX`]    |
//! | the screen's width and height, in pixels   | 1                  |

use vstd::prelude::*;

verus! {

/// Thousandths: the fraction in which proportions and coefficients are counted.
pub const MILLI: u32 = 1_000;

/// Millionths: the fraction in which samples and clock readings are counted.
pub const MICRO: u32 = 1_000_000;

/// Billionths, a thousandth of a millionth: simulated time and noise coordinates.
pub const NANO: u64 = 1_000_000_000;

/// A thousandth of a thousandth of a millionth: the fraction of a pixel in which
/// a radius is counted.
pub const PICO: u64 = 1_000_000_000_000;

/// A millionth of [`PICO`]: the fraction of a pixel in which a coordinate on the
/// screen is counted.
pub const ATTO: u64 = 1_000_000_000_000_000_000;

/// Half a pixel, counted in [`ATTO`].
pub const HALF_PIXEL: u64 = 500_000_000_000_000_000;

/// The value of a colour channel at full intensity.
pub const CHANNEL_MAX: u8 = 255;

/// How the fractions fit together: a product is counted in the product of the
/// fractions of its factors.
pub proof fn lemma_fractions()
    ensures
        NANO == MILLI * MICRO,
        PICO == MILLI * NANO,
        PICO == MILLI * MILLI * MICRO,
        ATTO == PICO * MICRO,
        ATTO == 2 * HALF_PIXEL,
{
}

} // verus!
