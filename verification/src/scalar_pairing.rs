//! The prime field as a small instance of the pairing interface: all three
//! groups are its additive group and the pairing is multiplication, which is
//! bilinear. Generic protocol code can be run and checked on it exactly.
use vstd::prelude::*;
use crate::arithmetic::{DoryRoutines, Group, PairingCurve, msm_sum};
use crate::fp128::{Fp128Element, fmul};

verus! {

/// `e(p, q) = p·q` on the prime field.
#[derive(Clone, Copy, Debug)]
pub struct ScalarPairing;

impl PairingCurve for ScalarPairing {
    type G1 = Fp128Element;

    type G2 = Fp128Element;

    type GT = Fp128Element;

    open spec fn spec_pair(p: Fp128Element, q: Fp128Element) -> Fp128Element {
        Fp128Element(fmul(p.0 as int, q.0 as int) as u64)
    }

    fn pair(p: &Fp128Element, q: &Fp128Element) -> (r: Fp128Element) {
        p.mul(q)
    }

    fn multi_pair_two_products(a0: &[Fp128Element], b0: &[Fp128Element], a1: &[Fp128Element], b1: &[Fp128Element]) -> (r: (Fp128Element, Fp128Element)) {
        (Self::multi_pair(a0, b0), Self::multi_pair(a1, b1))
    }
}

/// The vector routines of the prime field, computed entry by entry.
#[derive(Clone, Copy, Debug)]
pub struct ScalarRoutines;

impl DoryRoutines<Fp128Element> for ScalarRoutines {
    fn msm(bases: &[Fp128Element], scalars: &[Fp128Element]) -> (r: Fp128Element) {
        let mut acc = <Fp128Element as Group>::identity();
        let mut i: usize = 0;
        while i < bases.len()
            invariant
                i <= bases@.len(),
                bases@.len() == scalars@.len(),
                acc == msm_sum(bases@, scalars@, i as nat),
            decreases bases@.len() - i,
        {
            let term = <Fp128Element as Group>::scale(&bases[i], &scalars[i]);
            acc = <Fp128Element as Group>::add(&acc, &term);
            i = i + 1;
        }
        acc
    }

    fn fixed_base_vector_scalar_mul(base: &Fp128Element, scalars: &[Fp128Element]) -> (r: Vec<Fp128Element>) {
        let mut out: Vec<Fp128Element> = Vec::new();
        let mut i: usize = 0;
        while i < scalars.len()
            invariant
                i <= scalars@.len(),
                out@.len() == i,
                forall|j: int| 0 <= j < i ==> #[trigger] out@[j] == <Fp128Element as Group>::spec_scale(*base, scalars@[j]),
            decreases scalars@.len() - i,
        {
            out.push(<Fp128Element as Group>::scale(base, &scalars[i]));
            i = i + 1;
        }
        out
    }

    fn fixed_scalar_mul_bases_then_add(bases: &[Fp128Element], vs: &mut [Fp128Element], scalar: &Fp128Element) {
        let ghost v0 = vs@;
        let mut i: usize = 0;
        while i < vs.len()
            invariant
                i <= vs@.len(),
                vs@.len() == v0.len(),
                v0.len() <= bases@.len(),
                forall|j: int| 0 <= j < i ==> #[trigger] vs@[j] == <Fp128Element as Group>::spec_op(v0[j], <Fp128Element as Group>::spec_scale(bases@[j], *scalar)),
                forall|j: int| i <= j < v0.len() ==> #[trigger] vs@[j] == v0[j],
            decreases v0.len() - i,
        {
            let t = <Fp128Element as Group>::scale(&bases[i], scalar);
            let v = <Fp128Element as Group>::add(&vs[i], &t);
            vs[i] = v;
            i = i + 1;
        }
    }

    fn fixed_scalar_mul_vs_then_add(vs: &mut [Fp128Element], addends: &[Fp128Element], scalar: &Fp128Element) {
        let ghost v0 = vs@;
        let mut i: usize = 0;
        while i < vs.len()
            invariant
                i <= vs@.len(),
                vs@.len() == v0.len(),
                v0.len() <= addends@.len(),
                forall|j: int| 0 <= j < i ==> #[trigger] vs@[j] == <Fp128Element as Group>::spec_op(<Fp128Element as Group>::spec_scale(v0[j], *scalar), addends@[j]),
                forall|j: int| i <= j < v0.len() ==> #[trigger] vs@[j] == v0[j],
            decreases v0.len() - i,
        {
            let t = <Fp128Element as Group>::scale(&vs[i], scalar);
            let v = <Fp128Element as Group>::add(&t, &addends[i]);
            vs[i] = v;
            i = i + 1;
        }
    }
}

} // verus!
