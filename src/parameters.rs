//! CME parameter sets and the choice of the steepest one for a precision level.
use vstd::prelude::*;

use crate::binary64::{is_nan, less, less_than, order_key};

verus! {

/// One published CME parameter set. Every real number is a binary64 bit
/// pattern.
pub struct CmeParameter {
    /// The number of complex term pairs (the order of the set).
    pub n: usize,
    /// Real parts of the term coefficients, one per term.
    pub a: Vec<u64>,
    /// Imaginary parts of the term coefficients, one per term.
    pub b: Vec<u64>,
    /// Weight of the zero-frequency term.
    pub c: u64,
    /// Base angular frequency.
    pub omega: u64,
    /// Scale applied to every derived coefficient.
    pub mu1: u64,
    /// Squared coefficient of variation; lower is steeper.
    pub cv2: u64,
}

impl CmeParameter {
    pub open spec fn wf(&self) -> bool {
        self.a@.len() == self.n && self.b@.len() == self.n
    }

    /// Builds a parameter set of order `a.len()`; `None` where `a` and `b`
    /// differ in length.
    pub fn new(a: Vec<u64>, b: Vec<u64>, c: u64, omega: u64, mu1: u64, cv2: u64) -> (r: Option<
        CmeParameter,
    >)
        ensures
            a@.len() == b@.len() <==> r is Some,
            r matches Some(p) ==> p.wf() && p.n == a@.len() && p.a@ == a@ && p.b@ == b@ && p.c
                == c && p.omega == omega && p.mu1 == mu1 && p.cv2 == cv2,
    {
        if a.len() == b.len() {
            let n = a.len();
            Some(CmeParameter { n, a, b, c, omega, mu1, cv2 })
        } else {
            None
        }
    }
}

/// Whether `params[i]` may be chosen for level `k`: the first set always may,
/// any other only where its order is strictly below `k`.
pub open spec fn eligible(params: Seq<CmeParameter>, k: int, i: int) -> bool {
    0 <= i < params.len() && (i == 0 || params[i].n < k)
}

/// The candidate after scanning `params[1..m]`: starting from the first set,
/// each eligible set with a strictly smaller `cv2` replaces the candidate.
pub open spec fn candidate(params: Seq<CmeParameter>, k: int, m: int) -> int
    decreases m,
{
    if m <= 1 {
        0
    } else {
        let prev = candidate(params, k, m - 1);
        if params[m - 1].n < k && less(params[m - 1].cv2, params[prev].cv2) {
            m - 1
        } else {
            prev
        }
    }
}

/// The index of the parameter set that level `k` uses.
pub open spec fn steepest_index(params: Seq<CmeParameter>, k: int) -> int {
    candidate(params, k, params.len() as int)
}

/// No `cv2` of the table is a NaN.
pub open spec fn cv2_ordered(params: Seq<CmeParameter>) -> bool {
    forall|i: int| 0 <= i < params.len() ==> !is_nan(#[trigger] params[i].cv2)
}

proof fn lemma_candidate(params: Seq<CmeParameter>, k: int, m: int)
    requires
        1 <= m <= params.len(),
        cv2_ordered(params),
    ensures
        0 <= candidate(params, k, m) < m,
        eligible(params, k, candidate(params, k, m)),
        forall|j: int|
            0 <= j < m && eligible(params, k, j) ==> !less(
                params[j].cv2,
                params[candidate(params, k, m)].cv2,
            ),
        forall|j: int|
            0 <= j < candidate(params, k, m) && eligible(params, k, j) ==> less(
                params[candidate(params, k, m)].cv2,
                params[j].cv2,
            ),
    decreases m,
{
    if m > 1 {
        lemma_candidate(params, k, m - 1);
        let prev = candidate(params, k, m - 1);
        assert(!is_nan(params[m - 1].cv2));
        assert(!is_nan(params[prev].cv2));
        assert forall|j: int| 0 <= j < m && eligible(params, k, j) implies !is_nan(
            #[trigger] params[j].cv2,
        ) && order_key(params[j].cv2) >= order_key(params[candidate(params, k, m)].cv2) by {
            assert(!is_nan(params[j].cv2));
            if j < m - 1 {
                assert(!less(params[j].cv2, params[prev].cv2));
            }
        }
    }
}

/// Where no `cv2` is a NaN, the set chosen for level `k` is eligible, no
/// eligible set has a smaller `cv2`, and every eligible set before it has a
/// strictly larger one: it is the first eligible set of least `cv2`.
pub proof fn lemma_steepest_is_first_minimum(params: Seq<CmeParameter>, k: int)
    requires
        params.len() > 0,
        cv2_ordered(params),
    ensures
        eligible(params, k, steepest_index(params, k)),
        forall|j: int|
            eligible(params, k, j) ==> !less(params[j].cv2, params[steepest_index(params, k)].cv2),
        forall|j: int|
            0 <= j < steepest_index(params, k) && eligible(params, k, j) ==> less(
                params[steepest_index(params, k)].cv2,
                params[j].cv2,
            ),
{
    lemma_candidate(params, k, params.len() as int);
}

/// Index of the steepest parameter set usable at level `k`.
pub fn steepest(params: &Vec<CmeParameter>, k: usize) -> (r: usize)
    requires
        params@.len() > 0,
    ensures
        r == steepest_index(params@, k as int),
        r < params@.len(),
{
    let mut best: usize = 0;
    let mut i: usize = 1;
    while i < params.len()
        invariant
            1 <= i <= params@.len(),
            best == candidate(params@, k as int, i as int),
            best < i,
        decreases params@.len() - i,
    {
        if params[i].n < k && less_than(params[i].cv2, params[best].cv2) {
            best = i;
        }
        i = i + 1;
    }
    best
}

} // verus!
