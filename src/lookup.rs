//! Derivation of the per-level lookup rows from the parameter table.
use vstd::prelude::*;

use crate::parameters::{CmeParameter, steepest, steepest_index};

verus! {

/// One term of a row: the complex weight and the imaginary part of the
/// abscissa (its real part is the row's `scale`). Binary64 bit patterns.
#[derive(Clone, Copy, PartialEq, Eq, Debug)]
pub struct Term {
    pub weight_re: u64,
    pub weight_im: u64,
    pub abscissa_im: u64,
}

/// The coefficients that one precision level evaluates with.
pub struct LookupRow {
    /// The real part shared by every abscissa of the row.
    pub scale: u64,
    /// Weight of the zero-frequency term.
    pub leading_weight: u64,
    /// Abscissa of the zero-frequency term, which is real.
    pub leading_abscissa: u64,
    pub terms: Vec<Term>,
}

/// `row` is what `derive_row` makes of `p`, where `product` multiplies two
/// values and `count_value` gives the value of a count.
pub open spec fn derived_row<M: Fn(u64, u64) -> u64, E: Fn(usize) -> u64>(
    row: LookupRow,
    p: CmeParameter,
    product: M,
    count_value: E,
) -> bool {
    &&& row.scale == p.mu1
    &&& row.leading_abscissa == p.mu1
    &&& call_ensures(product, (p.c, p.mu1), row.leading_weight)
    &&& row.terms@.len() == p.n
    &&& forall|j: int|
        0 <= j < p.n ==> {
            &&& call_ensures(product, (p.mu1, p.a@[j]), #[trigger] row.terms@[j].weight_re)
            &&& call_ensures(product, (p.mu1, p.b@[j]), row.terms@[j].weight_im)
            &&& exists|x: u64, y: u64|
                call_ensures(count_value, ((j + 1) as usize,), x) && call_ensures(product, (p.mu1, x), y)
                    && call_ensures(product, (y, p.omega), row.terms@[j].abscissa_im)
        }
}

/// Derives the row of a parameter set: the leading weight `c * mu1` at
/// abscissa `mu1`, and for each term `j` the weight `mu1 * a[j] + i mu1 * b[j]`
/// at abscissa `mu1 + i (mu1 * (j + 1)) * omega`.
pub fn derive_row<M: Fn(u64, u64) -> u64, E: Fn(usize) -> u64>(
    p: &CmeParameter,
    product: &M,
    count_value: &E,
) -> (row: LookupRow)
    requires
        p.wf(),
        forall|x: u64, y: u64| product.requires((x, y)),
        forall|j: usize| count_value.requires((j,)),
    ensures
        derived_row(row, *p, *product, *count_value),
{
    let leading_weight = product(p.c, p.mu1);
    let mut terms: Vec<Term> = Vec::new();
    let mut j: usize = 0;
    while j < p.n
        invariant
            p.wf(),
            forall|x: u64, y: u64| product.requires((x, y)),
            forall|j: usize| count_value.requires((j,)),
            j <= p.n,
            terms@.len() == j,
            forall|i: int|
                0 <= i < j ==> {
                    &&& call_ensures(*product, (p.mu1, p.a@[i]), #[trigger] terms@[i].weight_re)
                    &&& call_ensures(*product, (p.mu1, p.b@[i]), terms@[i].weight_im)
                    &&& exists|x: u64, y: u64|
                        call_ensures(*count_value, ((i + 1) as usize,), x) && call_ensures(
                            *product,
                            (p.mu1, x),
                            y,
                        ) && call_ensures(*product, (y, p.omega), terms@[i].abscissa_im)
                },
        decreases p.n - j,
    {
        let weight_re = product(p.mu1, p.a[j]);
        let weight_im = product(p.mu1, p.b[j]);
        let count = count_value(j + 1);
        let step = product(p.mu1, count);
        let abscissa_im = product(step, p.omega);
        terms.push(Term { weight_re, weight_im, abscissa_im });
        j = j + 1;
    }
    LookupRow { scale: p.mu1, leading_weight, leading_abscissa: p.mu1, terms }
}

/// Why a lookup table could not be derived.
#[derive(Clone, Copy, PartialEq, Eq, Structural, Debug)]
pub enum DerivationError {
    /// The parameter table holds no set, so there is no fallback.
    EmptyTable,
}

/// The rows of every precision level `0 .. max_level`, immutable once
/// derived.
pub struct LookupTable {
    rows: Vec<LookupRow>,
    source: Ghost<Seq<CmeParameter>>,
}

impl View for LookupTable {
    type V = Seq<LookupRow>;

    closed spec fn view(&self) -> Seq<LookupRow> {
        self.rows@
    }
}

/// The abscissa of every term of `row` shares the real part `scale`, the
/// leading one included, and the row has one term per term pair of `p`.
pub open spec fn row_matches(row: LookupRow, p: CmeParameter) -> bool {
    &&& row.scale == p.mu1
    &&& row.leading_abscissa == row.scale
    &&& row.terms@.len() == p.n
}

impl LookupTable {
    /// The parameter table that the rows were derived from.
    pub closed spec fn source(&self) -> Seq<CmeParameter> {
        self.source@
    }

    /// The parameter set that level `k` was derived from.
    pub open spec fn selected(&self, k: int) -> CmeParameter {
        self.source()[steepest_index(self.source(), k)]
    }

    pub open spec fn wf(&self) -> bool {
        &&& self.source().len() > 0
        &&& forall|k: int| 0 <= k < self@.len() ==> row_matches(#[trigger] self@[k], self.selected(k))
    }

    /// Derives one row for each level below `levels`; level `k` uses the
    /// steepest parameter set whose order is below `k`, or the first set.
    pub fn derive<M: Fn(u64, u64) -> u64, E: Fn(usize) -> u64>(
        params: Vec<CmeParameter>,
        levels: usize,
        product: &M,
        count_value: &E,
    ) -> (r: Result<LookupTable, DerivationError>)
        requires
            forall|i: int| 0 <= i < params@.len() ==> (#[trigger] params@[i]).wf(),
            forall|x: u64, y: u64| product.requires((x, y)),
            forall|j: usize| count_value.requires((j,)),
        ensures
            r is Err <==> params@.len() == 0,
            r matches Err(e) ==> e == DerivationError::EmptyTable,
            r matches Ok(t) ==> {
                &&& t.wf()
                &&& t.source() == params@
                &&& t@.len() == levels
                &&& forall|k: int|
                    0 <= k < levels ==> derived_row(
                        #[trigger] t@[k],
                        t.selected(k),
                        *product,
                        *count_value,
                    )
            },
    {
        if params.len() == 0 {
            return Err(DerivationError::EmptyTable);
        }
        let mut rows: Vec<LookupRow> = Vec::new();
        let mut k: usize = 0;
        while k < levels
            invariant
                params@.len() > 0,
                forall|i: int| 0 <= i < params@.len() ==> (#[trigger] params@[i]).wf(),
                forall|x: u64, y: u64| product.requires((x, y)),
                forall|j: usize| count_value.requires((j,)),
                k <= levels,
                rows@.len() == k,
                forall|i: int|
                    0 <= i < k ==> derived_row(
                        #[trigger] rows@[i],
                        params@[steepest_index(params@, i)],
                        *product,
                        *count_value,
                    ),
            decreases levels - k,
        {
            let s = steepest(&params, k);
            let row = derive_row(&params[s], product, count_value);
            rows.push(row);
            k = k + 1;
        }
        Ok(LookupTable { rows, source: Ghost(params@) })
    }

    /// The number of precision levels, `MAX_LEVEL`.
    pub fn max_level(&self) -> (r: usize)
        ensures
            r == self@.len(),
    {
        self.rows.len()
    }

    /// The row of level `k`, where `k` is below `max_level`.
    pub fn row(&self, k: usize) -> (r: Option<&LookupRow>)
        ensures
            r is Some <==> k < self@.len(),
            r matches Some(row) ==> *row == self@[k as int],
    {
        if k < self.rows.len() {
            Some(&self.rows[k])
        } else {
            None
        }
    }
}

} // verus!
