//! How the prover blinds its messages.
use vstd::prelude::*;
use crate::arithmetic::{Field, Group};

verus! {

/// A blinding mode: how round blinds are drawn and applied to messages.
pub trait Mode {
    /// Whether messages are blinded.
    spec fn blinds() -> bool;

    /// A fresh blind; zero when the mode does not blind.
    fn sample<F: Field>() -> (r: F)
        ensures
            !Self::blinds() ==> r == F::spec_zero(),
    ;

    /// Mask `value` with the blind `r` along `base`.
    fn mask<G: Group>(value: G, base: &G, r: &G::Scalar) -> (out: G)
        ensures
            out == masked(Self::blinds(), value, *base, *r),
    ;
}

/// `value + r·base` when blinding, else `value`.
pub open spec fn masked<G: Group>(blinds: bool, value: G, base: G, r: G::Scalar) -> G {
    if blinds {
        G::spec_op(value, G::spec_scale(base, r))
    } else {
        value
    }
}

/// No blinding: every blind is zero and messages go out as computed.
#[derive(Clone, Copy, Debug)]
pub struct Transparent;

impl Mode for Transparent {
    open spec fn blinds() -> bool {
        false
    }

    fn sample<F: Field>() -> (r: F) {
        F::zero()
    }

    fn mask<G: Group>(value: G, base: &G, r: &G::Scalar) -> (out: G) {
        value
    }
}

/// Zero-knowledge blinding: blinds are drawn with `Field::random` and each
/// message is masked as `value + r·base`.
#[derive(Clone, Copy, Debug)]
pub struct ZK;

impl Mode for ZK {
    open spec fn blinds() -> bool {
        true
    }

    fn sample<F: Field>() -> (r: F) {
        F::random()
    }

    fn mask<G: Group>(value: G, base: &G, r: &G::Scalar) -> (out: G) {
        value.add(&base.scale(r))
    }
}

} // verus!
