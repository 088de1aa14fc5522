//! The batch polynomial of Dory-Prime: the polynomial opened by the single
//! batch proof, built over the cascading challenge tree.
use vstd::prelude::*;
use crate::arithmetic::Field;
use crate::cascading_tree::CascadingTree;

verus! {

/// A batch polynomial in `num_vars` variables together with its challenge tree.
pub struct BatchPolynomial<F: Field> {
    num_vars: usize,
    tree: CascadingTree<F>,
}

impl<F: Field> BatchPolynomial<F> {
    /// Number of variables.
    pub closed spec fn spec_num_vars(&self) -> nat {
        self.num_vars as nat
    }

    /// The challenge tree.
    pub closed spec fn spec_tree(&self) -> &CascadingTree<F> {
        &self.tree
    }

    /// The batch polynomial of a polynomial in `num_vars` variables, keeping
    /// a copy of `tree`.
    pub fn new(num_vars: usize, tree: &CascadingTree<F>) -> (r: Self)
        ensures
            r.spec_num_vars() == num_vars,
            r.spec_tree().spec_depth() == tree.spec_depth(),
            r.spec_tree().spec_num_rounds() == tree.spec_num_rounds(),
            r.spec_tree().spec_levels() == tree.spec_levels(),
    {
        Self { num_vars, tree: tree.duplicate() }
    }

    /// Number of variables.
    pub fn num_vars(&self) -> (r: usize)
        ensures
            r == self.spec_num_vars(),
    {
        self.num_vars
    }

    /// The challenge tree.
    pub fn tree(&self) -> (r: &CascadingTree<F>)
        ensures
            r == self.spec_tree(),
    {
        &self.tree
    }
}

} // verus!
