//! The axis extrema behind the bounds planner.
//!
//! The planner derives a simulation box from the magnet layout: per axis, the
//! smallest and largest magnet coordinate, widened so that the origin lies
//! inside.  Those extrema are pure order decisions and are computed here over
//! order keys; the caller then pads the box and, in rigorous mode, intersects
//! it with the horizontal-radius cap — numeric work on its side of the
//! boundary.

use vstd::prelude::*;

verus! {

/// The smallest and largest key among `keys` and `cover` together.
///
/// `cover` is the key of the coordinate the interval must always cover (the
/// origin, for the bounds planner); with no keys at all the interval collapses
/// to it.
pub fn axis_interval(keys: &Vec<i64>, cover: i64) -> (r: (i64, i64))
    ensures
        r.0 <= cover <= r.1,
        forall|i: int| 0 <= i < keys.len() ==> r.0 <= #[trigger] keys@[i] && keys@[i] <= r.1,
        r.0 == cover || exists|i: int| 0 <= i < keys.len() && keys@[i] == r.0,
        r.1 == cover || exists|i: int| 0 <= i < keys.len() && keys@[i] == r.1,
{
    let mut lo: i64 = cover;
    let mut hi: i64 = cover;
    let mut i: usize = 0;
    while i < keys.len()
        invariant
            0 <= i <= keys.len(),
            lo <= cover <= hi,
            forall|j: int| 0 <= j < i ==> lo <= #[trigger] keys@[j] && keys@[j] <= hi,
            lo == cover || exists|j: int| 0 <= j < i && keys@[j] == lo,
            hi == cover || exists|j: int| 0 <= j < i && keys@[j] == hi,
        decreases keys.len() - i,
    {
        if keys[i] < lo {
            lo = keys[i];
        }
        if keys[i] > hi {
            hi = keys[i];
        }
        i = i + 1;
    }
    (lo, hi)
}

/// Intersects an axis interval with a cap interval: the larger of the two
/// lower ends and the smaller of the two upper ends.
///
/// In rigorous mode the planner caps the padded box at the horizontal radius
/// the release height allows; `cap_lo` and `cap_hi` are the keys of that
/// radius interval.
pub fn clamp_interval(lo: i64, hi: i64, cap_lo: i64, cap_hi: i64) -> (r: (i64, i64))
    ensures
        r.0 == (if lo >= cap_lo {
            lo
        } else {
            cap_lo
        }),
        r.1 == (if hi <= cap_hi {
            hi
        } else {
            cap_hi
        }),
{
    let new_lo: i64 = if lo >= cap_lo {
        lo
    } else {
        cap_lo
    };
    let new_hi: i64 = if hi <= cap_hi {
        hi
    } else {
        cap_hi
    };
    (new_lo, new_hi)
}

} // verus!
