//! The cascading challenge tree: a complete binary tree whose level `l`
//! holds one node for each of the `2^l` challenge paths of length `l`,
//! each carrying the accumulated challenge product of its path.
use vstd::prelude::*;
use vstd::arithmetic::power2::{pow2, lemma_pow2_unfold, lemma_pow2_pos};
use crate::arithmetic::Field;

verus! {

/// A node of the tree: the challenge product of its path and its position
/// within its level.
#[derive(Clone, Copy)]
pub struct TreeNode<F: Field> {
    /// The accumulated challenge product for this path.
    pub challenge_product: F,
    /// Index of this node at its level (0 to 2^level - 1).
    pub index: usize,
}

impl<F: Field> TreeNode<F> {
    /// A node with the given product and index.
    pub fn new(challenge_product: F, index: usize) -> (r: Self)
        ensures
            r.challenge_product == challenge_product,
            r.index == index,
    {
        Self { challenge_product, index }
    }

    /// The root: product one, index zero.
    pub fn root() -> (r: Self)
        ensures
            r.challenge_product == F::spec_one(),
            r.index == 0,
    {
        Self { challenge_product: F::one(), index: 0 }
    }
}

/// The level-by-level layout produced by `build_for_rounds(k)`: `k + 1`
/// levels, level `l` holding `2^l` nodes, each at its own index and with
/// product one.
pub open spec fn full_tree_levels<F: Field>(levels: Seq<Seq<TreeNode<F>>>, k: nat) -> bool {
    &&& levels.len() == k + 1
    &&& forall|l: int| 0 <= l <= k ==> (#[trigger] levels[l]).len() == pow2(l as nat)
    &&& forall|l: int, i: int| 0 <= l <= k && 0 <= i < levels[l].len() ==> (#[trigger] levels[l][i]).index == i
    &&& forall|l: int, i: int| 0 <= l <= k && 0 <= i < levels[l].len() ==> (#[trigger] levels[l][i]).challenge_product == F::spec_one()
}

/// The tree of challenge paths.
pub struct CascadingTree<F: Field> {
    depth: usize,
    num_rounds: usize,
    nodes: Vec<Vec<TreeNode<F>>>,
}

impl<F: Field> CascadingTree<F> {
    /// Depth of the tree (the number of variables).
    pub closed spec fn spec_depth(&self) -> nat {
        self.depth as nat
    }

    /// Number of rounds.
    pub closed spec fn spec_num_rounds(&self) -> nat {
        self.num_rounds as nat
    }

    /// The nodes, level by level.
    pub closed spec fn spec_levels(&self) -> Seq<Seq<TreeNode<F>>> {
        self.nodes@.map_values(|v: Vec<TreeNode<F>>| v@)
    }

    /// A tree of the given depth holding only the root level.
    pub fn new_empty(depth: usize) -> (r: Self)
        ensures
            r.spec_depth() == depth,
            r.spec_num_rounds() == depth,
            r.spec_levels().len() == 1,
            r.spec_levels()[0].len() == 1,
            r.spec_levels()[0][0].index == 0,
            r.spec_levels()[0][0].challenge_product == F::spec_one(),
    {
        let mut level0: Vec<TreeNode<F>> = Vec::new();
        level0.push(TreeNode::root());
        let mut nodes: Vec<Vec<TreeNode<F>>> = Vec::new();
        nodes.push(level0);
        Self { depth, num_rounds: depth, nodes }
    }

    /// Depth of the tree.
    pub fn depth(&self) -> (r: usize)
        ensures
            r == self.spec_depth(),
    {
        self.depth
    }

    /// Number of rounds.
    pub fn num_rounds(&self) -> (r: usize)
        ensures
            r == self.spec_num_rounds(),
    {
        self.num_rounds
    }

    /// Number of nodes at `level`; zero past the last level.
    pub fn nodes_at_level(&self, level: usize) -> (r: usize)
        ensures
            r == (if level < self.spec_levels().len() { self.spec_levels()[level as int].len() } else { 0 }),
    {
        if level >= self.nodes.len() {
            0
        } else {
            self.nodes[level].len()
        }
    }

    /// The challenge product of node `index` at `level`, if there is one.
    pub fn get_challenge_product(&self, level: usize, index: usize) -> (r: Option<F>)
        ensures
            r == (if level < self.spec_levels().len() && index < self.spec_levels()[level as int].len() {
                Some(self.spec_levels()[level as int][index as int].challenge_product)
            } else {
                None
            }),
    {
        if level < self.nodes.len() && index < self.nodes[level].len() {
            Some(self.nodes[level][index].challenge_product)
        } else {
            None
        }
    }

    /// The nodes of the level at the tree's depth, or of the last level when
    /// the tree holds fewer levels.
    pub fn get_leaf_nodes(&self) -> (r: &[TreeNode<F>])
        ensures
            self.spec_levels().len() == 0 ==> r@.len() == 0,
            self.spec_levels().len() > 0 ==> r@ == self.spec_levels()[
                if self.spec_depth() < self.spec_levels().len() - 1 { self.spec_depth() as int } else { self.spec_levels().len() - 1 }
            ],
    {
        if self.nodes.len() == 0 {
            let empty: &[TreeNode<F>] = &[];
            empty
        } else {
            let last = self.nodes.len() - 1;
            let leaf_depth = if self.depth < last { self.depth } else { last };
            self.nodes[leaf_depth].as_slice()
        }
    }

    /// The nodes at `level`, if the tree has that level.
    pub fn get_level(&self, level: usize) -> (r: Option<&[TreeNode<F>]>)
        ensures
            level < self.spec_levels().len() ==> (r matches Some(s) && s@ == self.spec_levels()[level as int]),
            level >= self.spec_levels().len() ==> r is None,
    {
        if level < self.nodes.len() {
            Some(self.nodes[level].as_slice())
        } else {
            None
        }
    }

    /// The full tree for `num_rounds` rounds: level `l` holds `2^l` nodes,
    /// two children for each node of the level above, each child carrying
    /// its parent's product and its position in the level.
    pub fn build_for_rounds(num_rounds: usize) -> (r: Self)
        ensures
            r.spec_depth() == num_rounds,
            r.spec_num_rounds() == num_rounds,
            full_tree_levels(r.spec_levels(), num_rounds as nat),
    {
        let depth = num_rounds;
        let mut level0: Vec<TreeNode<F>> = Vec::new();
        level0.push(TreeNode::root());
        let mut nodes: Vec<Vec<TreeNode<F>>> = Vec::new();
        nodes.push(level0);
        proof {
            assert(pow2(0) == 1) by {
                vstd::arithmetic::power2::lemma2_to64();
            }
        }
        let mut level: usize = 0;
        while level < num_rounds
            invariant
                level <= num_rounds,
                nodes@.len() == level + 1,
                forall|l: int| 0 <= l <= level ==> (#[trigger] nodes@[l])@.len() == pow2(l as nat),
                forall|l: int, i: int| 0 <= l <= level && 0 <= i < nodes@[l]@.len() ==> (#[trigger] nodes@[l]@[i]).index == i,
                forall|l: int, i: int| 0 <= l <= level && 0 <= i < nodes@[l]@.len() ==> (#[trigger] nodes@[l]@[i]).challenge_product == F::spec_one(),
            decreases num_rounds - level,
        {
            let num_parent_nodes = nodes[level].len();
            let mut level_nodes: Vec<TreeNode<F>> = Vec::new();
            let mut p: usize = 0;
            proof {
                lemma_pow2_unfold((level + 1) as nat);
                lemma_pow2_pos(level as nat);
            }
            while p < num_parent_nodes
                invariant
                    p <= num_parent_nodes,
                    num_parent_nodes == nodes@[level as int]@.len(),
                    num_parent_nodes == pow2(level as nat),
                    level < nodes@.len(),
                    pow2((level + 1) as nat) == 2 * pow2(level as nat),
                    level_nodes@.len() == 2 * p,
                    forall|i: int| 0 <= i < nodes@[level as int]@.len() ==> (#[trigger] nodes@[level as int]@[i]).challenge_product == F::spec_one(),
                    forall|i: int| 0 <= i < level_nodes@.len() ==> (#[trigger] level_nodes@[i]).index == i,
                    forall|i: int| 0 <= i < level_nodes@.len() ==> (#[trigger] level_nodes@[i]).challenge_product == F::spec_one(),
                decreases num_parent_nodes - p,
            {
                let parent = nodes[level][p];
                assert(2 * p + 1 < 2 * pow2(level as nat));
                let i0 = level_nodes.len();
                level_nodes.push(TreeNode::new(parent.challenge_product, i0));
                let i1 = level_nodes.len();
                level_nodes.push(TreeNode::new(parent.challenge_product, i1));
                p = p + 1;
            }
            nodes.push(level_nodes);
            level = level + 1;
        }
        let r = Self { depth, num_rounds, nodes };
        proof {
            assert forall|l: int| 0 <= l <= num_rounds implies (#[trigger] r.spec_levels()[l]) == r.nodes@[l]@ by {}
        }
        r
    }

    /// A copy of the tree.
    pub fn duplicate(&self) -> (r: Self)
        ensures
            r.spec_depth() == self.spec_depth(),
            r.spec_num_rounds() == self.spec_num_rounds(),
            r.spec_levels() == self.spec_levels(),
    {
        let mut nodes: Vec<Vec<TreeNode<F>>> = Vec::new();
        let mut l: usize = 0;
        while l < self.nodes.len()
            invariant
                l <= self.nodes@.len(),
                nodes@.len() == l,
                forall|t: int| 0 <= t < l ==> (#[trigger] nodes@[t])@ == self.nodes@[t]@,
            decreases self.nodes@.len() - l,
        {
            let src = &self.nodes[l];
            let mut level: Vec<TreeNode<F>> = Vec::new();
            let mut i: usize = 0;
            while i < src.len()
                invariant
                    i <= src@.len(),
                    level@ == src@.subrange(0, i as int),
                decreases src@.len() - i,
            {
                level.push(src[i]);
                i = i + 1;
                assert(level@ =~= src@.subrange(0, i as int));
            }
            assert(level@ =~= src@);
            nodes.push(level);
            l = l + 1;
        }
        let r = Self { depth: self.depth, num_rounds: self.num_rounds, nodes };
        assert(r.spec_levels() =~= self.spec_levels());
        r
    }
}

} // verus!
