//! Projective to affine conversion of a batch of points with a single field
//! inversion (Montgomery's trick): the running products of the `z`
//! coordinates are inverted once, and the inverse is peeled back one
//! coordinate at a time, for one inversion and 3(N-1) multiplications.
use vstd::prelude::*;
use crate::arithmetic::Field;
use crate::pairing_algebra::{field_laws, lemma_inverse_unique, lemma_mul_invertible, lemma_mul_assoc, lemma_mul_comm};
use crate::reduce_and_fold::{f_inv, invertible};

verus! {

/// The affine coordinates of the Jacobian point `(x, y, z)`:
/// `(x·z⁻², y·z⁻³)`, and none for the point at infinity (`z = 0`).
pub open spec fn affine_of<F: Field>(p: (F, F, F)) -> Option<(F, F)> {
    if p.2 == F::spec_zero() {
        None
    } else {
        let zi = f_inv(p.2);
        let zi2 = F::spec_mul(zi, zi);
        Some((F::spec_mul(p.0, zi2), F::spec_mul(p.1, F::spec_mul(zi2, zi))))
    }
}

/// If `inv` inverts `p·z`, then `inv·p` inverts `z` and `inv·z` inverts `p`.
proof fn lemma_peel<F: Field>(inv: F, p: F, z: F)
    requires
        field_laws::<F>(),
        invertible(p),
        invertible(z),
        inv == f_inv(F::spec_mul(p, z)),
    ensures
        F::spec_mul(inv, p) == f_inv(z),
        F::spec_mul(inv, z) == f_inv(p),
{
    let q = F::spec_mul(p, z);
    lemma_mul_invertible(p, z);
    crate::pairing_algebra::lemma_mul_inv(q, F::spec_one());
    lemma_mul_comm(inv, q);
    lemma_mul_assoc(inv, p, z);
    lemma_inverse_unique(z, F::spec_mul(inv, p));
    lemma_mul_assoc(inv, z, p);
    lemma_mul_comm(z, p);
    lemma_inverse_unique(p, F::spec_mul(inv, z));
}

/// The inverses of all of `zs`, found with one inversion: the running
/// products `z₀·z₁·…·zᵢ` are formed, their last one is inverted, and each
/// inverse `zᵢ⁻¹` is read off as the running inverse times the product
/// before it, while the running inverse is multiplied by `zᵢ`.
pub fn batch_inverse<F: Field>(zs: &[F]) -> (r: Vec<F>)
    requires
        field_laws::<F>(),
        forall|i: int| 0 <= i < zs@.len() ==> invertible(#[trigger] zs@[i]),
    ensures
        r@.len() == zs@.len(),
        forall|i: int| 0 <= i < zs@.len() ==> #[trigger] r@[i] == f_inv(zs@[i]),
{
    let n = zs.len();
    let mut z_invs: Vec<F> = Vec::new();
    if n == 0 {
        return z_invs;
    }
    let mut products: Vec<F> = Vec::new();
    products.push(zs[0]);
    let mut i: usize = 1;
    while i < n
        invariant
            1 <= i <= n,
            n == zs@.len(),
            field_laws::<F>(),
            forall|j: int| 0 <= j < zs@.len() ==> invertible(#[trigger] zs@[j]),
            products@.len() == i,
            products@[0] == zs@[0],
            forall|j: int| 1 <= j < i ==> #[trigger] products@[j] == F::spec_mul(products@[j - 1], zs@[j]),
            forall|j: int| 0 <= j < i ==> invertible(#[trigger] products@[j]),
        decreases n - i,
    {
        let p = products[i - 1].mul(&zs[i]);
        proof {
            lemma_mul_invertible(products@[i - 1], zs@[i as int]);
        }
        products.push(p);
        i = i + 1;
    }
    let mut k: usize = 0;
    while k < n
        invariant
            k <= n,
            z_invs@.len() == k,
        decreases n - k,
    {
        z_invs.push(F::one());
        k = k + 1;
    }
    let total = products[n - 1].inv();
    let mut inv = total.unwrap();
    let mut k: usize = n - 1;
    while k > 0
        invariant
            0 <= k < n,
            n == zs@.len(),
            field_laws::<F>(),
            forall|j: int| 0 <= j < zs@.len() ==> invertible(#[trigger] zs@[j]),
            products@.len() == n,
            forall|j: int| 1 <= j < n ==> #[trigger] products@[j] == F::spec_mul(products@[j - 1], zs@[j]),
            forall|j: int| 0 <= j < n ==> invertible(#[trigger] products@[j]),
            products@[0] == zs@[0],
            z_invs@.len() == n,
            inv == f_inv(products@[k as int]),
            forall|j: int| k < j < n ==> #[trigger] z_invs@[j] == f_inv(zs@[j]),
        decreases k,
    {
        proof {
            assert(products@[k as int] == F::spec_mul(products@[k - 1], zs@[k as int]));
            lemma_peel(inv, products@[k - 1], zs@[k as int]);
        }
        let zi = inv.mul(&products[k - 1]);
        z_invs.set(k, zi);
        inv = inv.mul(&zs[k]);
        k = k - 1;
    }
    z_invs.set(0, inv);
    z_invs
}

/// The affine form of each Jacobian point `(x, y, z)` of `points`:
/// `(x·z⁻², y·z⁻³)`, or none at infinity, with the inverses of the nonzero
/// `z` coordinates found together by [`batch_inverse`].
pub fn batch_to_affine<F: Field>(points: &[(F, F, F)]) -> (r: Vec<Option<(F, F)>>)
    requires
        field_laws::<F>(),
    ensures
        r@.len() == points@.len(),
        forall|i: int| 0 <= i < points@.len() ==> #[trigger] r@[i] == affine_of(points@[i]),
{
    let n = points.len();
    let mut results: Vec<Option<(F, F)>> = Vec::new();
    let mut indices: Vec<usize> = Vec::new();
    let mut zs: Vec<F> = Vec::new();
    let mut i: usize = 0;
    while i < n
        invariant
            i <= n,
            n == points@.len(),
            field_laws::<F>(),
            results@.len() == i,
            forall|m: int| 0 <= m < i ==> #[trigger] results@[m] == None::<(F, F)>,
            indices@.len() == zs@.len(),
            forall|j: int| 0 <= j < indices@.len() ==> #[trigger] indices@[j] < i,
            forall|j: int| 0 <= j < indices@.len() ==> #[trigger] zs@[j] == points@[indices@[j] as int].2,
            forall|j: int| 0 <= j < zs@.len() ==> invertible(#[trigger] zs@[j]),
            forall|m: int| 0 <= m < i && points@[m].2 != F::spec_zero()
                ==> exists|j: int| 0 <= j < indices@.len() && #[trigger] indices@[j] == m,
        decreases n - i,
    {
        results.push(None);
        let p = points[i];
        if !p.2.is_zero() {
            proof {
                crate::pairing_algebra::lemma_invertible_iff_nonzero(p.2);
            }
            let ghost old_indices = indices@;
            indices.push(i);
            zs.push(p.2);
            proof {
                assert forall|m: int| 0 <= m < i + 1 && points@[m].2 != F::spec_zero()
                    implies exists|j: int| 0 <= j < indices@.len() && #[trigger] indices@[j] == m by {
                    if m == i {
                        assert(indices@[old_indices.len() as int] == m);
                    } else {
                        let j = choose|j: int| 0 <= j < old_indices.len() && #[trigger] old_indices[j] == m;
                        assert(indices@[j] == m);
                    }
                }
            }
        }
        i = i + 1;
    }
    let z_invs = batch_inverse(&zs);
    let mut j: usize = 0;
    while j < indices.len()
        invariant
            j <= indices@.len(),
            n == points@.len(),
            field_laws::<F>(),
            results@.len() == n,
            indices@.len() == zs@.len(),
            z_invs@.len() == zs@.len(),
            forall|t: int| 0 <= t < indices@.len() ==> #[trigger] indices@[t] < n,
            forall|t: int| 0 <= t < indices@.len() ==> #[trigger] zs@[t] == points@[indices@[t] as int].2,
            forall|t: int| 0 <= t < zs@.len() ==> invertible(#[trigger] zs@[t]),
            forall|t: int| 0 <= t < zs@.len() ==> #[trigger] z_invs@[t] == f_inv(zs@[t]),
            forall|m: int| 0 <= m < n && points@[m].2 == F::spec_zero() ==> #[trigger] results@[m] == None::<(F, F)>,
            forall|t: int| 0 <= t < j ==> #[trigger] results@[indices@[t] as int] == affine_of(points@[indices@[t] as int]),
            forall|m: int| 0 <= m < n && points@[m].2 != F::spec_zero()
                ==> exists|t: int| 0 <= t < indices@.len() && #[trigger] indices@[t] == m,
        decreases indices@.len() - j,
    {
        let idx = indices[j];
        let p = points[idx];
        let zi = z_invs[j];
        let zi2 = zi.mul(&zi);
        let zi3 = zi2.mul(&zi);
        let x = p.0.mul(&zi2);
        let y = p.1.mul(&zi3);
        proof {
            crate::pairing_algebra::lemma_invertible_iff_nonzero(zs@[j as int]);
        }
        results.set(idx, Some((x, y)));
        j = j + 1;
    }
    proof {
        assert forall|m: int| 0 <= m < points@.len() implies #[trigger] results@[m] == affine_of(points@[m]) by {
            if points@[m].2 != F::spec_zero() {
                let t = choose|t: int| 0 <= t < indices@.len() && #[trigger] indices@[t] == m;
                assert(results@[indices@[t] as int] == affine_of(points@[indices@[t] as int]));
            }
        }
    }
    results
}

} // verus!
