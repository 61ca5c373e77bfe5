//! The clear color, held in exact fixed-point channel units.
//!
//! Channels are counted in units of 1/300 of the presentation range, the
//! least denominator in which both the startup value (0.01, i.e. 3 units)
//! and the per-keystroke adjustment (1/60, i.e. 5 units) are exact, so
//! that accumulation carries no rounding at all. Channels are not clamped
//! to the presentation range: they may wander arbitrarily far outside it,
//! bounded only by the machine range of `i64`, and what the GPU makes of
//! an out-of-range channel is the display layer's concern.

use vstd::prelude::*;

verus! {

/// Channel units per 1.0 of the presentation range.
pub const CHANNEL_DENOM: i64 = 300;

/// One keystroke's adjustment, 1/60 of the presentation range, in channel
/// units.
pub const CHANNEL_STEP: i64 = 5;

/// The startup value of the red, green and blue channels, 0.01, in
/// channel units.
pub const STARTUP_RGB: i64 = 3;

/// A fully opaque alpha channel, 1.0, in channel units.
pub const ALPHA_OPAQUE: i64 = 300;

/// A color, each channel in units of 1/300 of the presentation range.
#[derive(Clone, Copy, Debug, PartialEq, Eq, Structural)]
pub struct Color {
    pub r: i64,
    pub g: i64,
    pub b: i64,
    pub a: i64,
}

/// Addition on a channel: exact wherever the sum fits in `i64`, and held
/// at the end of the machine range where it does not.
pub open spec fn sat_add(a: i64, d: i64) -> i64 {
    if a + d > i64::MAX {
        i64::MAX
    } else if a + d < i64::MIN {
        i64::MIN
    } else {
        (a + d) as i64
    }
}

/// Channel arithmetic for the accumulating clear color.
pub fn channel_add(a: i64, d: i64) -> (r: i64)
    ensures
        r == sat_add(a, d),
{
    if d >= 0 {
        if a <= i64::MAX - d {
            a + d
        } else {
            i64::MAX
        }
    } else {
        if a >= i64::MIN - d {
            a + d
        } else {
            i64::MIN
        }
    }
}

impl Default for Color {
    /// The startup clear color: (0.01, 0.01, 0.01, 1.0).
    fn default() -> (c: Color)
        ensures
            c == (Color { r: STARTUP_RGB, g: STARTUP_RGB, b: STARTUP_RGB, a: ALPHA_OPAQUE }),
    {
        Color { r: STARTUP_RGB, g: STARTUP_RGB, b: STARTUP_RGB, a: ALPHA_OPAQUE }
    }
}

} // verus!
