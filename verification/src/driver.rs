//! The per-check decisions of the simulation driver.
//!
//! A trajectory is advanced step by step by the caller's integrator; every
//! `check_interval` steps the driver inspects the state and decides whether
//! the run ends.  The order of those decisions is fixed: first the divergence
//! test against the doubled planner bounds, then the nearest-well search over
//! the squared magnet distances, and only when the nearest well lies within
//! the basin radius the energy test against that well's escape threshold.
//! Each decision is a pure comparison of order keys and is verified here; the
//! caller maps the verdicts onto its result record.

use vstd::prelude::*;

use crate::physical::EndReason;

verus! {

/// The divergence limits of a run: the planner's box, doubled on each side by
/// the caller before encoding, as order keys.
#[derive(Clone, Copy, Debug, PartialEq, Eq, Structural)]
pub struct DivergenceBox {
    pub min_x: i64,
    pub max_x: i64,
    pub min_y: i64,
    pub max_y: i64,
}

/// A position diverged when either coordinate leaves the limits.
pub open spec fn spec_diverged(x: i64, y: i64, b: DivergenceBox) -> bool {
    x < b.min_x || x > b.max_x || y < b.min_y || y > b.max_y
}

/// `i` is the index the nearest-well search settles on: no distance is
/// smaller, and every earlier distance is strictly larger (ties go to the
/// first of the tied wells).
pub open spec fn is_nearest(dists: Seq<i64>, i: int) -> bool {
    &&& 0 <= i < dists.len()
    &&& forall|k: int| 0 <= k < dists.len() ==> dists[i] <= #[trigger] dists[k]
    &&& forall|k: int| 0 <= k < i ==> dists[i] < #[trigger] dists[k]
}

/// The nearest-well search settles on at most one index.
pub proof fn lemma_nearest_unique(dists: Seq<i64>, i: int, j: int)
    requires
        is_nearest(dists, i),
        is_nearest(dists, j),
    ensures
        i == j,
{
    if i < j {
        assert(dists[j] < dists[i]);
        assert(dists[i] <= dists[j]);
    }
    if j < i {
        assert(dists[i] < dists[j]);
        assert(dists[j] <= dists[i]);
    }
}

/// What one periodic check concludes about the position.
#[derive(Clone, Copy, Debug, PartialEq, Eq, Structural)]
pub enum PositionVerdict {
    /// The position left the divergence limits; the run ends unclassified.
    Diverged,
    /// No well both wins the nearest search and lies within the basin
    /// radius; the run continues without an energy test.
    NoCandidate,
    /// The nearest well lies within the basin radius; its energy test must
    /// now decide.
    CandidateWell { index: usize },
}

/// Whether `step` is one of the periodic check steps.
pub fn is_check_step(step: usize, check_interval: usize) -> (r: bool)
    requires
        check_interval >= 1,
    ensures
        r == (step % check_interval == 0),
{
    step % check_interval == 0
}

/// The divergence test against the doubled bounds.
pub fn diverged(x: i64, y: i64, b: &DivergenceBox) -> (r: bool)
    ensures
        r == spec_diverged(x, y, *b),
{
    x < b.min_x || x > b.max_x || y < b.min_y || y > b.max_y
}

/// The nearest-well search: the first index of the smallest squared-distance
/// key, provided it undercuts `cap` (the caller's encoding of the largest
/// finite distance, so a well is only found when some distance is an actual
/// measurement).
pub fn nearest_well(dist_sq: &Vec<i64>, cap: i64) -> (r: Option<usize>)
    ensures
        match r {
            Some(i) => i < dist_sq.len() && dist_sq@[i as int] < cap && is_nearest(
                dist_sq@,
                i as int,
            ),
            None => forall|k: int| 0 <= k < dist_sq.len() ==> cap <= #[trigger] dist_sq@[k],
        },
{
    let mut best: i64 = cap;
    let mut found: Option<usize> = None;
    let mut i: usize = 0;
    while i < dist_sq.len()
        invariant
            0 <= i <= dist_sq.len(),
            match found {
                Some(j) => {
                    &&& (j as int) < i
                    &&& dist_sq@[j as int] == best
                    &&& best < cap
                    &&& forall|k: int| 0 <= k < i ==> best <= #[trigger] dist_sq@[k]
                    &&& forall|k: int| 0 <= k < j ==> best < #[trigger] dist_sq@[k]
                },
                None => best == cap && forall|k: int|
                    0 <= k < i ==> cap <= #[trigger] dist_sq@[k],
            },
        decreases dist_sq.len() - i,
    {
        if dist_sq[i] < best {
            best = dist_sq[i];
            found = Some(i);
        }
        i = i + 1;
    }
    found
}

/// One periodic position check: divergence first, then the nearest-well
/// search, then the basin test on the winner.
pub fn position_check(
    x: i64,
    y: i64,
    limits: &DivergenceBox,
    dist_sq: &Vec<i64>,
    dist_cap: i64,
    basin_sq: i64,
) -> (v: PositionVerdict)
    ensures
        (v == PositionVerdict::Diverged) <==> spec_diverged(x, y, *limits),
        v matches PositionVerdict::CandidateWell { index } ==> {
            &&& !spec_diverged(x, y, *limits)
            &&& is_nearest(dist_sq@, index as int)
            &&& dist_sq@[index as int] < dist_cap
            &&& dist_sq@[index as int] < basin_sq
        },
        (v == PositionVerdict::NoCandidate) ==> !spec_diverged(x, y, *limits) && forall|i: int|
            is_nearest(dist_sq@, i) ==> !(dist_sq@[i] < dist_cap && dist_sq@[i] < basin_sq),
{
    if diverged(x, y, limits) {
        return PositionVerdict::Diverged;
    }
    match nearest_well(dist_sq, dist_cap) {
        Some(index) => {
            if dist_sq[index] < basin_sq {
                PositionVerdict::CandidateWell { index }
            } else {
                proof {
                    assert forall|i: int|
                        is_nearest(dist_sq@, i) implies !(dist_sq@[i] < dist_cap && dist_sq@[i]
                        < basin_sq) by {
                        lemma_nearest_unique(dist_sq@, i, index as int);
                    }
                }
                PositionVerdict::NoCandidate
            }
        },
        None => {
            proof {
                assert forall|i: int|
                    is_nearest(dist_sq@, i) implies !(dist_sq@[i] < dist_cap && dist_sq@[i]
                    < basin_sq) by {}
            }
            PositionVerdict::NoCandidate
        },
    }
}

/// The energy capture test: the run ends in an energy trap exactly when the
/// total energy undercuts the candidate well's escape threshold.
pub fn capture_check(index: usize, energy: i64, thresholds: &Vec<i64>) -> (r: bool)
    requires
        index < thresholds.len(),
    ensures
        r == (energy < thresholds@[index as int]),
{
    energy < thresholds[index]
}

/// What one periodic check observes: the position's coordinates, the squared
/// distance to every magnet, and the total energy, all as order keys.
#[derive(Clone, Debug)]
pub struct CheckSample {
    pub x: i64,
    pub y: i64,
    pub dist_sq: Vec<i64>,
    pub energy: i64,
}

/// The terminal classification of one trajectory run.
#[derive(Clone, Debug, PartialEq)]
pub struct RunOutcome {
    pub end_reason: EndReason,
    pub captured_magnet_index: Option<usize>,
    pub steps_taken: usize,
}

/// Whether a check on `s` ends the run by capture: some well wins the
/// nearest search, lies within the basin radius, and the energy undercuts
/// its escape threshold.
pub open spec fn spec_captures(s: CheckSample, dist_cap: i64, basin_sq: i64, th: Seq<i64>) -> bool {
    exists|i: int|
        #[trigger] is_nearest(s.dist_sq@, i) && s.dist_sq@[i] < dist_cap && s.dist_sq@[i]
            < basin_sq && s.energy < th[i]
}

/// Whether a check on `s` ends the run at all.
pub open spec fn spec_trips(
    s: CheckSample,
    limits: DivergenceBox,
    dist_cap: i64,
    basin_sq: i64,
    th: Seq<i64>,
) -> bool {
    spec_diverged(s.x, s.y, limits) || spec_captures(s, dist_cap, basin_sq, th)
}

/// Runs a whole trajectory's periodic checks to a terminal classification.
///
/// `samples[t]` is what the check at step `t * check_interval` observes; the
/// run ends at the earliest sample that trips a decision — divergence before
/// capture within one check — recording that step count, and falls back to
/// `MaxStepsReached` with the full step count when none does.
pub fn classify_run(
    samples: &Vec<CheckSample>,
    check_interval: usize,
    max_steps: usize,
    limits: &DivergenceBox,
    dist_cap: i64,
    basin_sq: i64,
    thresholds: &Vec<i64>,
) -> (r: RunOutcome)
    requires
        check_interval >= 1,
        forall|t: int|
            0 <= t < samples.len() ==> #[trigger] (t * check_interval as int) < max_steps as int,
        forall|t: int| 0 <= t < samples.len() ==> #[trigger] samples@[t].dist_sq@.len()
            == thresholds@.len(),
    ensures
        r.steps_taken <= max_steps,
        (forall|t: int|
            0 <= t < samples.len() ==> !spec_trips(
                #[trigger] samples@[t],
                *limits,
                dist_cap,
                basin_sq,
                thresholds@,
            )) ==> {
            &&& r.end_reason == EndReason::MaxStepsReached
            &&& r.captured_magnet_index is None
            &&& r.steps_taken == max_steps
        },
        (exists|t: int|
            0 <= t < samples.len() && spec_trips(
                #[trigger] samples@[t],
                *limits,
                dist_cap,
                basin_sq,
                thresholds@,
            )) ==> exists|t: int|
            {
                &&& 0 <= t < samples.len()
                &&& spec_trips(#[trigger] samples@[t], *limits, dist_cap, basin_sq, thresholds@)
                &&& forall|u: int|
                    0 <= u < t ==> !spec_trips(
                        #[trigger] samples@[u],
                        *limits,
                        dist_cap,
                        basin_sq,
                        thresholds@,
                    )
                &&& r.steps_taken == t * check_interval as int
                &&& spec_diverged(samples@[t].x, samples@[t].y, *limits) ==> {
                    &&& r.end_reason == EndReason::OutOfBounds
                    &&& r.captured_magnet_index is None
                }
                &&& !spec_diverged(samples@[t].x, samples@[t].y, *limits) ==> {
                    &&& r.end_reason == EndReason::EnergyTrap
                    &&& r.captured_magnet_index matches Some(i) && is_nearest(
                        samples@[t].dist_sq@,
                        i as int,
                    ) && samples@[t].dist_sq@[i as int] < basin_sq && samples@[t].energy
                        < thresholds@[i as int]
                }
            },
{
    let mut t: usize = 0;
    while t < samples.len()
        invariant
            0 <= t <= samples.len(),
            check_interval >= 1,
            forall|u: int|
                0 <= u < samples.len() ==> #[trigger] (u * check_interval as int)
                    < max_steps as int,
            forall|u: int| 0 <= u < samples.len() ==> #[trigger] samples@[u].dist_sq@.len()
                == thresholds@.len(),
            forall|u: int|
                0 <= u < t ==> !spec_trips(
                    #[trigger] samples@[u],
                    *limits,
                    dist_cap,
                    basin_sq,
                    thresholds@,
                ),
        decreases samples.len() - t,
    {
        let s = &samples[t];
        match position_check(s.x, s.y, limits, &s.dist_sq, dist_cap, basin_sq) {
            PositionVerdict::Diverged => {
                return RunOutcome {
                    end_reason: EndReason::OutOfBounds,
                    captured_magnet_index: None,
                    steps_taken: t * check_interval,
                };
            },
            PositionVerdict::CandidateWell { index } => {
                if capture_check(index, s.energy, thresholds) {
                    return RunOutcome {
                        end_reason: EndReason::EnergyTrap,
                        captured_magnet_index: Some(index),
                        steps_taken: t * check_interval,
                    };
                }
                proof {
                    assert forall|i: int| #[trigger]
                        is_nearest(s.dist_sq@, i) implies !(s.dist_sq@[i] < dist_cap
                        && s.dist_sq@[i] < basin_sq && s.energy < thresholds@[i]) by {
                        lemma_nearest_unique(s.dist_sq@, i, index as int);
                    }
                }
            },
            PositionVerdict::NoCandidate => {
            },
        }
        t = t + 1;
    }
    RunOutcome {
        end_reason: EndReason::MaxStepsReached,
        captured_magnet_index: None,
        steps_taken: max_steps,
    }
}

} // verus!
