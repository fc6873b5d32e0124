//! Threshold search over the normalized difference curve.
//!
//! The search never looks at the curve's values themselves, only at two
//! families of comparison outcomes, so it is stated and verified here over
//! plain booleans while the floating-point curve stays with the caller. For a
//! curve `c` of length `n` and a threshold `t`, the caller supplies
//!
//! - `below`, of length `n`: `below[tau]` holds iff `c[tau] < t`;
//! - `descending`, of length `n - 1`: `descending[tau]` holds iff
//!   `c[tau + 1] < c[tau]`.
//!
//! Lags `0` and `1` are never candidates: lag `0` is the normalization anchor
//! and lag `1` is excluded to avoid degenerate near-zero-lag matches. From the
//! first lag at or past `2` that goes below the threshold, the search walks
//! forward while the curve keeps strictly decreasing and reports where the
//! descent stops — the first local minimum after the crossing, not the global
//! minimum of the curve.

use vstd::prelude::*;

verus! {

/// No lag at or past `2` goes below the threshold: the frame has no period
/// candidate.
pub open spec fn no_candidate(below: Seq<bool>) -> bool {
    forall|t: int| 2 <= t < below.len() ==> !below[t]
}

/// `f` is the first lag at or past `2` whose curve value is below the
/// threshold.
pub open spec fn is_first_crossing(below: Seq<bool>, f: int) -> bool {
    &&& 2 <= f < below.len()
    &&& below[f]
    &&& forall|t: int| 2 <= t < f ==> !below[t]
}

/// Starting at lag `f`, the curve keeps strictly decreasing up to lag `r` and
/// stops decreasing there (or `r` is the last lag of the curve).
pub open spec fn is_descent_end(descending: Seq<bool>, f: int, r: int) -> bool {
    &&& f <= r <= descending.len()
    &&& forall|k: int| f <= k < r ==> descending[k]
    &&& (r < descending.len() ==> !descending[r])
}

/// `r` is the lag the threshold search reports: the end of the strictly
/// decreasing run that begins at the first sub-threshold lag.
pub open spec fn is_candidate(below: Seq<bool>, descending: Seq<bool>, r: int) -> bool {
    exists|f: int| #[trigger] is_first_crossing(below, f) && is_descent_end(descending, f, r)
}

/// Scan the curve's comparison structure for the period candidate: the first
/// lag at or past `2` below the threshold, advanced to the end of the strictly
/// decreasing run it starts. Returns `None` when no lag ever goes below the
/// threshold — for that frame no period was found.
pub fn yin_absolute_threshold(
    below: &Vec<bool>,
    descending: &Vec<bool>,
) -> (candidate: Option<usize>)
    requires
        below@.len() == descending@.len() + 1,
    ensures
        match candidate {
            Some(tau) => is_candidate(below@, descending@, tau as int),
            None => no_candidate(below@),
        },
        candidate matches Some(tau) ==> 2 <= tau < below@.len(),
{
    let len: usize = below.len();
    let mut tau: usize = 2;
    while tau < len
        invariant
            2 <= tau,
            len == below@.len(),
            below@.len() == descending@.len() + 1,
            forall|t: int| 2 <= t < tau ==> !below@[t],
        decreases len - tau,
    {
        if below[tau] {
            let ghost first = tau as int;
            while tau + 1 < len && descending[tau]
                invariant
                    first <= tau < len,
                    len == below@.len(),
                    below@.len() == descending@.len() + 1,
                    is_first_crossing(below@, first),
                    forall|k: int| first <= k < tau ==> descending@[k],
                decreases len - tau,
            {
                tau = tau + 1;
            }
            assert(is_descent_end(descending@, first, tau as int));
            return Some(tau);
        }
        tau = tau + 1;
    }
    None
}

/// The period candidate is a function of the curve's comparison structure
/// alone: any two lags that both satisfy the search characterization are
/// equal. In particular, since sub-sample refinement runs only after the
/// search, enabling or disabling refinement can never change the reported
/// integer lag.
pub proof fn lemma_candidate_unique(below: Seq<bool>, descending: Seq<bool>, r1: int, r2: int)
    requires
        below.len() == descending.len() + 1,
        is_candidate(below, descending, r1),
        is_candidate(below, descending, r2),
    ensures
        r1 == r2,
{
    let f1 = choose|f: int| #[trigger] is_first_crossing(below, f) && is_descent_end(
        descending,
        f,
        r1,
    );
    let f2 = choose|f: int| #[trigger] is_first_crossing(below, f) && is_descent_end(
        descending,
        f,
        r2,
    );
    if f1 < f2 {
        assert(!below[f1]);
    }
    if f2 < f1 {
        assert(!below[f2]);
    }
    assert(f1 == f2);
    if r1 < r2 {
        assert(descending[r1]);
        assert(!descending[r1]);
    }
    if r2 < r1 {
        assert(descending[r2]);
        assert(!descending[r2]);
    }
}

/// Whether parabolic refinement applies at candidate lag `tau` on a curve of
/// `curve_len` samples: the fitted parabola needs both the left neighbor
/// (`tau >= 1`) and the right neighbor (`tau + 1 < curve_len`); at either
/// boundary the integer lag is used unchanged.
pub fn refinement_applies(tau: usize, curve_len: usize) -> (applies: bool)
    ensures
        applies == (1 <= tau && tau + 1 < curve_len),
{
    1 <= tau && tau < curve_len && curve_len - tau > 1
}

} // verus!
