use dory_pcs::batch_polynomial::BatchPolynomial;
use dory_pcs::cascading_tree::{CascadingTree, TreeNode};
use dory_pcs::fp128::Fp128Element;

#[test]
fn test_tree_depth() {
    let tree = CascadingTree::<Fp128Element>::new_empty(3);
    assert_eq!(tree.depth(), 3);
}

#[test]
fn test_root_node() {
    let root = TreeNode::<Fp128Element>::root();
    assert_eq!(root.index, 0);
}

#[test]
fn test_tree_structure() {
    let tree = CascadingTree::<Fp128Element>::build_for_rounds(3);
    // Level 0: 1 node
    assert_eq!(tree.nodes_at_level(0), 1);
    // Level 1: 2 nodes
    assert_eq!(tree.nodes_at_level(1), 2);
    // Level 2: 4 nodes
    assert_eq!(tree.nodes_at_level(2), 4);
    // Level 3: 8 nodes (leaf)
    assert_eq!(tree.nodes_at_level(3), 8);
}

#[test]
fn tree_lookups() {
    let tree = CascadingTree::<Fp128Element>::build_for_rounds(2);
    assert_eq!(tree.num_rounds(), 2);
    assert_eq!(tree.nodes_at_level(3), 0);
    assert_eq!(tree.get_challenge_product(2, 3), Some(Fp128Element(1)));
    assert_eq!(tree.get_challenge_product(2, 4), None);
    assert_eq!(tree.get_challenge_product(5, 0), None);
    let leaves = tree.get_leaf_nodes();
    assert_eq!(leaves.len(), 4);
    for (i, node) in leaves.iter().enumerate() {
        assert_eq!(node.index, i);
        assert_eq!(node.challenge_product, Fp128Element(1));
    }
    assert_eq!(tree.get_level(1).map(|l| l.len()), Some(2));
    assert!(tree.get_level(3).is_none());
}

#[test]
fn empty_tree_leaves_are_the_root() {
    let tree = CascadingTree::<Fp128Element>::new_empty(4);
    assert_eq!(tree.num_rounds(), 4);
    assert_eq!(tree.get_leaf_nodes().len(), 1);
    assert_eq!(tree.nodes_at_level(1), 0);
}

#[test]
fn batch_polynomial_keeps_its_tree() {
    let tree = CascadingTree::<Fp128Element>::build_for_rounds(2);
    let batch = BatchPolynomial::new(5, &tree);
    assert_eq!(batch.num_vars(), 5);
    assert_eq!(batch.tree().depth(), 2);
    assert_eq!(batch.tree().nodes_at_level(2), 4);
}
