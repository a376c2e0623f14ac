//! Branch selection for piecewise window curves.
//!
//! A window is evaluated at sample `sample` of a window whose last sample is
//! `duration` (the total length minus one). Two-piece curves switch at the
//! midpoint and four-piece curves at each quarter; a sample lying exactly on a
//! boundary belongs to the piece before it.

use vstd::prelude::*;

verus! {

/// Where a sample lies among the quarters of a window.
#[derive(Clone, Copy, Debug, PartialEq, Eq, Structural)]
pub enum Quarter {
    /// `sample <= duration / 4`.
    First,
    /// `duration / 4 < sample <= duration / 2`.
    Second,
    /// `duration / 2 < sample <= 3 * duration / 4`.
    Third,
    /// `3 * duration / 4 < sample`.
    Fourth,
}

/// The quarter of `[0, duration]` that `sample` falls in, boundaries closing
/// the earlier quarter.
pub open spec fn quarter_spec(sample: int, duration: int) -> Quarter {
    if 4 * sample <= duration {
        Quarter::First
    } else if 4 * sample <= 2 * duration {
        Quarter::Second
    } else if 4 * sample <= 3 * duration {
        Quarter::Third
    } else {
        Quarter::Fourth
    }
}

/// Whether `sample` lies in the first half of `[0, duration]`.
pub open spec fn in_first_half_spec(sample: int, duration: int) -> bool {
    2 * sample <= duration
}

/// Whether `sample` lies in the first half of the window, the midpoint
/// included.
pub fn in_first_half(sample: u32, duration: u32) -> (r: bool)
    ensures
        r == in_first_half_spec(sample as int, duration as int),
{
    2 * (sample as u64) <= duration as u64
}

/// The quarter of the window that `sample` lies in.
pub fn quarter_of(sample: u32, duration: u32) -> (r: Quarter)
    ensures
        r == quarter_spec(sample as int, duration as int),
        (r == Quarter::First || r == Quarter::Second) == in_first_half_spec(sample as int, duration as int),
{
    let x4 = 4 * (sample as u64);
    let d = duration as u64;
    if x4 <= d {
        Quarter::First
    } else if x4 <= 2 * d {
        Quarter::Second
    } else if x4 <= 3 * d {
        Quarter::Third
    } else {
        Quarter::Fourth
    }
}

/// The first sample of a window always takes the first piece of a
/// piecewise curve, and the last sample (`sample == duration`, for a window
/// longer than one sample) always takes the last piece.
pub proof fn lemma_endpoints_take_outer_pieces(duration: nat)
    ensures
        in_first_half_spec(0, duration as int),
        quarter_spec(0, duration as int) == Quarter::First,
        duration > 0 ==> !in_first_half_spec(duration as int, duration as int),
        duration > 0 ==> quarter_spec(duration as int, duration as int) == Quarter::Fourth,
{
}

} // verus!
