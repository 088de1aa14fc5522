//! Combining several commitments into one by a random linear combination.
//!
//! Commitments are homomorphic, so the combination of the commitments to
//! `P_i` with coefficients `r_i` commits to `Σ r_i·P_i`.
use vstd::prelude::*;
use crate::arithmetic::{Group, PairingCurve, msm_sum};

verus! {

/// `k[0]·c[0] + k[1]·c[1] + ... + k[n-1]·c[n-1]`, accumulated from the left
/// and starting from the first term; the identity when `n == 0`.
pub open spec fn linear_combination<G: Group>(c: Seq<G>, k: Seq<G::Scalar>, n: nat) -> G
    decreases n,
{
    if n == 0 {
        G::spec_identity()
    } else if n == 1 {
        G::spec_scale(c[0], k[0])
    } else {
        G::spec_op(linear_combination(c, k, (n - 1) as nat), G::spec_scale(c[n - 1], k[n - 1]))
    }
}

/// Entry `j` of every row vector.
pub open spec fn column<G>(rows: Seq<Vec<G>>, j: int) -> Seq<G> {
    Seq::new(rows.len(), |p: int| rows[p]@[j])
}

/// The combination `Σ coeffs[i]·commitments[i]` of target-group commitments.
pub fn combine_commitments<E: PairingCurve>(commitments: &[E::GT], coeffs: &[<E::GT as Group>::Scalar]) -> (r: E::GT)
    requires
        commitments@.len() == coeffs@.len(),
    ensures
        r == linear_combination(commitments@, coeffs@, commitments@.len()),
{
    if commitments.len() == 0 {
        return <E::GT as Group>::identity();
    }
    let mut combined = commitments[0].scale(&coeffs[0]);
    let mut i: usize = 1;
    while i < commitments.len()
        invariant
            1 <= i <= commitments@.len(),
            commitments@.len() == coeffs@.len(),
            combined == linear_combination(commitments@, coeffs@, i as nat),
        decreases commitments@.len() - i,
    {
        let scaled = commitments[i].scale(&coeffs[i]);
        combined = combined.add(&scaled);
        i = i + 1;
    }
    combined
}

/// Row-wise combination: row `j` of the result is `Σ_i coeffs[i]·rows[i][j]`,
/// accumulated from the identity. Every polynomial has the same number of rows.
pub fn combine_row_commitments<E: PairingCurve>(row_commitments: &[Vec<E::G1>], coeffs: &[<E::G1 as Group>::Scalar]) -> (r: Vec<E::G1>)
    requires
        row_commitments@.len() == coeffs@.len(),
        forall|i: int| 0 <= i < row_commitments@.len() ==> #[trigger] row_commitments@[i]@.len() == row_commitments@[0]@.len(),
    ensures
        row_commitments@.len() == 0 ==> r@.len() == 0,
        row_commitments@.len() > 0 ==> r@.len() == row_commitments@[0]@.len(),
        forall|j: int| 0 <= j < r@.len() ==> #[trigger] r@[j]
            == msm_sum(column(row_commitments@, j), coeffs@, row_commitments@.len()),
{
    if row_commitments.len() == 0 {
        return Vec::new();
    }
    let num_rows = row_commitments[0].len();
    let mut combined: Vec<E::G1> = Vec::new();
    let mut j: usize = 0;
    while j < num_rows
        invariant
            j <= num_rows,
            combined@.len() == j,
            forall|t: int| 0 <= t < j ==> #[trigger] combined@[t] == <E::G1 as Group>::spec_identity(),
        decreases num_rows - j,
    {
        combined.push(<E::G1 as Group>::identity());
        j = j + 1;
    }
    let mut p: usize = 0;
    while p < row_commitments.len()
        invariant
            p <= row_commitments@.len(),
            row_commitments@.len() == coeffs@.len(),
            row_commitments@.len() > 0,
            num_rows == row_commitments@[0]@.len(),
            forall|i: int| 0 <= i < row_commitments@.len() ==> #[trigger] row_commitments@[i]@.len() == num_rows,
            combined@.len() == num_rows,
            forall|t: int| 0 <= t < num_rows ==> #[trigger] combined@[t]
                == msm_sum(column(row_commitments@, t), coeffs@, p as nat),
        decreases row_commitments@.len() - p,
    {
        let poly_rows = &row_commitments[p];
        assert(poly_rows@.len() == num_rows);
        let mut j: usize = 0;
        while j < num_rows
            invariant
                j <= num_rows,
                p < row_commitments@.len(),
                row_commitments@.len() == coeffs@.len(),
                poly_rows == row_commitments@[p as int],
                poly_rows@.len() == num_rows,
                combined@.len() == num_rows,
                forall|t: int| 0 <= t < j ==> #[trigger] combined@[t]
                    == msm_sum(column(row_commitments@, t), coeffs@, (p + 1) as nat),
                forall|t: int| j <= t < num_rows ==> #[trigger] combined@[t]
                    == msm_sum(column(row_commitments@, t), coeffs@, p as nat),
            decreases num_rows - j,
        {
            let scaled = poly_rows[j].scale(&coeffs[p]);
            let v = combined[j].add(&scaled);
            proof {
                let col = column(row_commitments@, j as int);
                assert(col[p as int] == poly_rows@[j as int]);
            }
            combined.set(j, v);
            j = j + 1;
        }
        p = p + 1;
    }
    combined
}

} // verus!
