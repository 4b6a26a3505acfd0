//! The points at which an inversion evaluates the transform, and their
//! weights.
use vstd::prelude::*;

use crate::binary64::{ZERO_BITS, is_zero, is_zero_value};
use crate::lookup::{LookupRow, LookupTable, Term, row_matches};

verus! {

/// Why an inversion was refused.
#[derive(Clone, Copy, PartialEq, Eq, Structural, Debug)]
pub enum InversionError {
    /// The precision level is not below the number of rows.
    LevelOutOfRange,
    /// The time is zero, and the sum would be divided by it.
    ZeroTime,
}

/// One evaluation of the transform: the inversion at time `t` adds the real
/// part of `weight * F(abscissa / t)`. Binary64 bit patterns.
#[derive(Clone, Copy, PartialEq, Eq, Debug)]
pub struct EvaluationPoint {
    pub weight_re: u64,
    pub weight_im: u64,
    pub abscissa_re: u64,
    pub abscissa_im: u64,
}

/// The zero-frequency evaluation: a real weight at a real abscissa.
pub open spec fn leading_point(row: LookupRow) -> EvaluationPoint {
    EvaluationPoint {
        weight_re: row.leading_weight,
        weight_im: ZERO_BITS,
        abscissa_re: row.leading_abscissa,
        abscissa_im: ZERO_BITS,
    }
}

pub open spec fn term_point(row: LookupRow, t: Term) -> EvaluationPoint {
    EvaluationPoint {
        weight_re: t.weight_re,
        weight_im: t.weight_im,
        abscissa_re: row.scale,
        abscissa_im: t.abscissa_im,
    }
}

/// The leading evaluation, then one for each term, in order.
pub open spec fn row_points(row: LookupRow) -> Seq<EvaluationPoint> {
    seq![leading_point(row)] + row.terms@.map_values(|t: Term| term_point(row, t))
}

/// What an inversion at level `k` and time `time` evaluates, or why it is
/// refused: an out-of-range level first, then a zero time.
pub open spec fn inversion_plan(rows: Seq<LookupRow>, k: int, time: u64) -> Result<
    Seq<EvaluationPoint>,
    InversionError,
> {
    if k >= rows.len() {
        Err(InversionError::LevelOutOfRange)
    } else if is_zero(time) {
        Err(InversionError::ZeroTime)
    } else {
        Ok(row_points(rows[k]))
    }
}

/// The evaluations of one row.
pub fn evaluation_points(row: &LookupRow) -> (r: Vec<EvaluationPoint>)
    ensures
        r@ == row_points(*row),
{
    let mut points: Vec<EvaluationPoint> = Vec::new();
    points.push(
        EvaluationPoint {
            weight_re: row.leading_weight,
            weight_im: ZERO_BITS,
            abscissa_re: row.leading_abscissa,
            abscissa_im: ZERO_BITS,
        },
    );
    let mut j: usize = 0;
    while j < row.terms.len()
        invariant
            j <= row.terms@.len(),
            points@ == seq![leading_point(*row)] + row.terms@.subrange(0, j as int).map_values(
                |t: Term| term_point(*row, t),
            ),
        decreases row.terms@.len() - j,
    {
        let t = row.terms[j];
        points.push(
            EvaluationPoint {
                weight_re: t.weight_re,
                weight_im: t.weight_im,
                abscissa_re: row.scale,
                abscissa_im: t.abscissa_im,
            },
        );
        proof {
            assert(row.terms@.subrange(0, j + 1) =~= row.terms@.subrange(0, j as int).push(t));
            assert(points@ =~= seq![leading_point(*row)] + row.terms@.subrange(
                0,
                j + 1,
            ).map_values(|t: Term| term_point(*row, t)));
        }
        j = j + 1;
    }
    proof {
        assert(row.terms@.subrange(0, j as int) =~= row.terms@);
    }
    points
}

/// Checks an inversion request at level `k` and time `time` and returns the
/// evaluations it makes: the sum of their contributions divided by `time`
/// approximates `f(time)`.
pub fn inversion_points(table: &LookupTable, k: usize, time: u64) -> (r: Result<
    Vec<EvaluationPoint>,
    InversionError,
>)
    ensures
        k >= table@.len() ==> r == Err::<Vec<EvaluationPoint>, InversionError>(
            InversionError::LevelOutOfRange,
        ),
        k < table@.len() && is_zero(time) ==> r == Err::<Vec<EvaluationPoint>, InversionError>(
            InversionError::ZeroTime,
        ),
        match r {
            Ok(points) => inversion_plan(table@, k as int, time) == Ok::<
                Seq<EvaluationPoint>,
                InversionError,
            >(points@),
            Err(e) => inversion_plan(table@, k as int, time) == Err::<
                Seq<EvaluationPoint>,
                InversionError,
            >(e),
        },
{
    match table.row(k) {
        None => Err(InversionError::LevelOutOfRange),
        Some(row) => {
            if is_zero_value(time) {
                Err(InversionError::ZeroTime)
            } else {
                Ok(evaluation_points(row))
            }
        },
    }
}

/// An inversion at a valid level and a nonzero time evaluates the transform
/// exactly `n + 1` times, where `n` is the order of the parameter set that
/// the level was derived from.
pub proof fn lemma_evaluation_count(table: LookupTable, k: int, time: u64)
    requires
        table.wf(),
        0 <= k < table@.len(),
        !is_zero(time),
    ensures
        inversion_plan(table@, k, time) is Ok,
        inversion_plan(table@, k, time)->Ok_0.len() == table.selected(k).n + 1,
{
    assert(row_matches(table@[k], table.selected(k)));
}

/// Every abscissa of every row, the leading one included, has the real part
/// `scale`, which is the `mu1` of the row's parameter set.
pub proof fn lemma_abscissa_real_part(table: LookupTable, k: int)
    requires
        table.wf(),
        0 <= k < table@.len(),
    ensures
        table@[k].scale == table.selected(k).mu1,
        forall|i: int|
            0 <= i < row_points(table@[k]).len() ==> (#[trigger] row_points(table@[k])[i]).abscissa_re
                == table@[k].scale,
{
    assert(row_matches(table@[k], table.selected(k)));
    let row = table@[k];
    assert forall|i: int| 0 <= i < row_points(row).len() implies (
    #[trigger] row_points(row)[i]).abscissa_re == row.scale by {
        if i > 0 {
            assert(row_points(row)[i] == term_point(row, row.terms@[i - 1]));
        }
    }
}

/// Two inversions with equal rows, level and time make the same evaluations,
/// with the same weights, in the same order, or are refused alike.
pub proof fn lemma_inversion_deterministic(a: LookupTable, b: LookupTable, k: int, time: u64)
    requires
        a@ == b@,
    ensures
        inversion_plan(a@, k, time) == inversion_plan(b@, k, time),
{
}

} // verus!
