//! Escape-threshold selection.
//!
//! For every attracting magnet the caller samples the potential energy along
//! the straight segment toward each other magnet and hands the samples in as
//! order keys, one row per neighbour.  The barrier toward a neighbour is the
//! highest sample of its row (a one-dimensional saddle approximation); the
//! magnet's escape threshold is the lowest of its barriers — the easiest way
//! out of the well.  A repelling magnet is a peak, not a well, and gets the
//! `no_escape` key (the caller's encoding of negative infinity), so its
//! capture test never fires; a magnet with no neighbour at all gets the
//! `isolated` key (the caller's encoding of the default threshold).
//!
//! The straight segment is sampled in the magnets' plane only; the thresholds
//! are a conservative heuristic, not an exact separatrix.

use vstd::prelude::*;

use crate::keys::lemma_seq_max_reverse;
use crate::keys::lemma_seq_min_characterize;
use crate::keys::max_key;
use crate::keys::seq_max;
use crate::keys::seq_min;
use crate::physical::MagnetDirection;

verus! {

/// The barrier of each sampled row: its highest key.
pub open spec fn barrier_keys(rows: Seq<Seq<i64>>) -> Seq<i64> {
    rows.map_values(|row: Seq<i64>| seq_max(row))
}

/// The view of a vector of sample rows.
pub open spec fn rows_view(rows: Seq<Vec<i64>>) -> Seq<Seq<i64>> {
    rows.map_values(|row: Vec<i64>| row@)
}

/// The escape threshold of one magnet, given its polarity and its sampled
/// barrier rows.
pub open spec fn spec_escape_threshold(
    dir: MagnetDirection,
    rows: Seq<Seq<i64>>,
    no_escape: i64,
    isolated: i64,
) -> i64 {
    if dir == MagnetDirection::Negative {
        no_escape
    } else if rows.len() == 0 {
        isolated
    } else {
        seq_min(barrier_keys(rows))
    }
}

/// Selects the escape threshold of one magnet.
///
/// `rows` holds one non-empty row of potential-energy keys per other magnet;
/// an attracting magnet's threshold is the minimum over the rows of the row
/// maximum.  A repelling magnet receives `no_escape`; an attracting magnet
/// with no other magnet receives `isolated`.
pub fn escape_threshold(
    dir: MagnetDirection,
    rows: &Vec<Vec<i64>>,
    no_escape: i64,
    isolated: i64,
) -> (r: i64)
    requires
        forall|j: int| 0 <= j < rows.len() ==> #[trigger] rows@[j]@.len() > 0,
    ensures
        r == spec_escape_threshold(dir, rows_view(rows@), no_escape, isolated),
        dir == MagnetDirection::Negative ==> r == no_escape,
        dir == MagnetDirection::Positive && rows.len() == 0 ==> r == isolated,
{
    if let MagnetDirection::Negative = dir {
        return no_escape;
    }
    if rows.len() == 0 {
        return isolated;
    }
    let ghost rv = rows_view(rows@);
    let mut best: i64 = max_key(&rows[0]);
    proof {
        assert(rv[0] == rows@[0]@);
        assert(seq_max(rv[0]) == best);
    }
    let mut j: usize = 1;
    while j < rows.len()
        invariant
            1 <= j <= rows.len(),
            rv == rows_view(rows@),
            rv.len() == rows.len(),
            forall|k: int| 0 <= k < rows.len() ==> #[trigger] rows@[k]@.len() > 0,
            exists|k: int| 0 <= k < j && #[trigger] seq_max(rv[k]) == best,
            forall|k: int| 0 <= k < j ==> best <= #[trigger] seq_max(rv[k]),
        decreases rows.len() - j,
    {
        let b = max_key(&rows[j]);
        proof {
            assert(rv[j as int] == rows@[j as int]@);
            assert(seq_max(rv[j as int]) == b);
        }
        if b < best {
            best = b;
        }
        j = j + 1;
    }
    proof {
        let bk = barrier_keys(rv);
        assert forall|k: int| 0 <= k < bk.len() implies best <= #[trigger] bk[k] by {
            assert(bk[k] == seq_max(rv[k]));
        }
        let w = choose|k: int| 0 <= k < rows.len() && #[trigger] seq_max(rv[k]) == best;
        assert(bk[w] == best);
        lemma_seq_min_characterize(bk, best);
    }
    best
}

/// Selects the escape threshold of every magnet, aligned by index with the
/// polarity sequence (and so with the magnet sequence it came from).
pub fn escape_thresholds(
    dirs: &Vec<MagnetDirection>,
    rows: &Vec<Vec<Vec<i64>>>,
    no_escape: i64,
    isolated: i64,
) -> (r: Vec<i64>)
    requires
        rows.len() == dirs.len(),
        forall|i: int, j: int|
            0 <= i < rows.len() && 0 <= j < rows@[i]@.len() ==> #[trigger] rows@[i]@[j]@.len()
                > 0,
    ensures
        r.len() == dirs.len(),
        forall|i: int|
            0 <= i < dirs.len() ==> r@[i] == spec_escape_threshold(
                dirs@[i],
                rows_view(rows@[i]@),
                no_escape,
                isolated,
            ),
{
    let mut out: Vec<i64> = Vec::new();
    let mut i: usize = 0;
    while i < dirs.len()
        invariant
            0 <= i <= dirs.len(),
            rows.len() == dirs.len(),
            out.len() == i,
            forall|ii: int, j: int|
                0 <= ii < rows.len() && 0 <= j < rows@[ii]@.len() ==> #[trigger] rows@[ii]@[j]@.len()
                    > 0,
            forall|ii: int|
                0 <= ii < i ==> out@[ii] == spec_escape_threshold(
                    dirs@[ii],
                    rows_view(rows@[ii]@),
                    no_escape,
                    isolated,
                ),
        decreases dirs.len() - i,
    {
        let t = escape_threshold(dirs[i], &rows[i], no_escape, isolated);
        out.push(t);
        i = i + 1;
    }
    out
}

/// Two attracting magnets placed symmetrically about the origin sample the
/// same segment between them, one from each end, so each one's single barrier
/// row is the other's read backwards; their escape thresholds are then equal.
pub proof fn lemma_symmetric_pair_equal_thresholds(row: Seq<i64>, no_escape: i64, isolated: i64)
    requires
        row.len() > 0,
    ensures
        spec_escape_threshold(MagnetDirection::Positive, seq![row], no_escape, isolated)
            == spec_escape_threshold(
            MagnetDirection::Positive,
            seq![row.reverse()],
            no_escape,
            isolated,
        ),
{
    lemma_seq_max_reverse(row);
    assert(barrier_keys(seq![row]) =~= seq![seq_max(row)]);
    assert(barrier_keys(seq![row.reverse()]) =~= seq![seq_max(row.reverse())]);
}

} // verus!
