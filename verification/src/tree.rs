//! What a Merkle root commits to.
//!
//! The tree over the allocations of a round is built off the ledger; only
//! its root is stored. This module describes such a tree and proves that a
//! proof which the distributor accepts speaks of an allocation in the tree,
//! unless two different byte strings with the same Keccak-256 digest have
//! been found.

use vstd::prelude::*;
use crate::instructions::rewards::{claim_leaf, proof_accepted};
use crate::keccak::{keccak256, keccak_collision};
use crate::merkle::{
    fold_proof, leaf_bytes, lemma_node_hash_symmetric, lex_le, node_hash, sorted_concat,
};
use crate::token::Address;

verus! {

/// A binary tree over allocations.
pub enum AllocationTree {
    /// One allocation: `amount` to `claimant` under `index`.
    Leaf { index: u64, claimant: Address, amount: u64 },
    Node { left: Box<AllocationTree>, right: Box<AllocationTree> },
}

impl AllocationTree {
    /// The digest of the tree: the leaf of its allocation, or the node hash
    /// of the digests of its two subtrees.
    pub open spec fn root(self) -> [u8; 32]
        decreases self,
    {
        match self {
            AllocationTree::Leaf { index, claimant, amount } => claim_leaf(index, claimant, amount),
            AllocationTree::Node { left, right } => node_hash(left.root(), right.root()),
        }
    }

    /// `digest` is the digest of the tree or of one of its subtrees.
    pub open spec fn has_node(self, digest: [u8; 32]) -> bool
        decreases self,
    {
        self.root() == digest || match self {
            AllocationTree::Leaf { .. } => false,
            AllocationTree::Node { left, right } => left.has_node(digest) || right.has_node(digest),
        }
    }

    /// The allocation of `amount` to `claimant` under `index` is a leaf of
    /// the tree.
    pub open spec fn has_allocation(self, index: u64, claimant: Address, amount: u64) -> bool
        decreases self,
    {
        match self {
            AllocationTree::Leaf { index: i, claimant: c, amount: a } => i == index && c == claimant
                && a == amount,
            AllocationTree::Node { left, right } => left.has_allocation(index, claimant, amount)
                || right.has_allocation(index, claimant, amount),
        }
    }

    /// The proof for an allocation of the tree: the digests of the subtrees
    /// beside the path from the allocation's leaf up to the root.
    pub open spec fn proof_for(self, index: u64, claimant: Address, amount: u64) -> Seq<[u8; 32]>
        decreases self,
    {
        match self {
            AllocationTree::Leaf { .. } => Seq::empty(),
            AllocationTree::Node { left, right } => {
                if left.has_allocation(index, claimant, amount) {
                    left.proof_for(index, claimant, amount).push(right.root())
                } else {
                    right.proof_for(index, claimant, amount).push(left.root())
                }
            },
        }
    }
}

/// Completeness of proof checking: for every allocation of a tree, the proof
/// along its path is accepted against the root of the tree.
pub proof fn lemma_proof_for_is_accepted(
    tree: AllocationTree,
    index: u64,
    claimant: Address,
    amount: u64,
)
    requires
        tree.has_allocation(index, claimant, amount),
    ensures
        proof_accepted(
            tree.proof_for(index, claimant, amount),
            tree.root(),
            claim_leaf(index, claimant, amount),
        ),
    decreases tree,
{
    let leaf = claim_leaf(index, claimant, amount);
    match tree {
        AllocationTree::Leaf { .. } => {},
        AllocationTree::Node { left, right } => {
            if left.has_allocation(index, claimant, amount) {
                let below = left.proof_for(index, claimant, amount);
                lemma_proof_for_is_accepted(*left, index, claimant, amount);
                assert(below.push(right.root()).drop_last() =~= below);
            } else {
                let below = right.proof_for(index, claimant, amount);
                lemma_proof_for_is_accepted(*right, index, claimant, amount);
                assert(below.push(left.root()).drop_last() =~= below);
                lemma_node_hash_symmetric(right.root(), left.root());
            }
        },
    }
}

/// The bytes hashed for a leaf are 48; those hashed for a node are 64.
pub proof fn lemma_preimage_lengths(
    index: u64,
    claimant: Address,
    amount: u64,
    a: [u8; 32],
    b: [u8; 32],
)
    ensures
        leaf_bytes(index, claimant, amount).len() == 48,
        sorted_concat(a, b).len() == 64,
{
    vstd::bytes::lemma_auto_spec_u64_to_from_le_bytes();
}

/// The encoding of an allocation determines the allocation.
pub proof fn lemma_leaf_bytes_injective(
    index1: u64,
    claimant1: Address,
    amount1: u64,
    index2: u64,
    claimant2: Address,
    amount2: u64,
)
    requires
        leaf_bytes(index1, claimant1, amount1) == leaf_bytes(index2, claimant2, amount2),
    ensures
        index1 == index2,
        claimant1 == claimant2,
        amount1 == amount2,
{
    vstd::bytes::lemma_auto_spec_u64_to_from_le_bytes();
    let i1 = vstd::bytes::spec_u64_to_le_bytes(index1);
    let i2 = vstd::bytes::spec_u64_to_le_bytes(index2);
    let a1 = vstd::bytes::spec_u64_to_le_bytes(amount1);
    let a2 = vstd::bytes::spec_u64_to_le_bytes(amount2);
    let b1 = leaf_bytes(index1, claimant1, amount1);
    let b2 = leaf_bytes(index2, claimant2, amount2);
    assert(b1.subrange(0, 8) =~= i1);
    assert(b2.subrange(0, 8) =~= i2);
    assert(b1.subrange(8, 40) =~= claimant1@);
    assert(b2.subrange(8, 40) =~= claimant2@);
    assert(b1.subrange(40, 48) =~= a1);
    assert(b2.subrange(40, 48) =~= a2);
    assert(claimant1 =~= claimant2);
    assert(vstd::bytes::spec_u64_from_le_bytes(i1) == index1);
    assert(vstd::bytes::spec_u64_from_le_bytes(i2) == index2);
    assert(vstd::bytes::spec_u64_from_le_bytes(a1) == amount1);
    assert(vstd::bytes::spec_u64_from_le_bytes(a2) == amount2);
}

/// Two pairs with the same sorted concatenation share their members.
pub proof fn lemma_sorted_concat_member(c: [u8; 32], p: [u8; 32], x: [u8; 32], y: [u8; 32])
    requires
        sorted_concat(c, p) == sorted_concat(x, y),
    ensures
        c == x || c == y,
{
    let u = sorted_concat(c, p);
    let v = sorted_concat(x, y);
    assert((c@ + p@).subrange(0, 32) =~= c@);
    assert((p@ + c@).subrange(32, 64) =~= c@);
    assert((x@ + y@).subrange(0, 32) =~= x@);
    assert((x@ + y@).subrange(32, 64) =~= y@);
    assert((y@ + x@).subrange(0, 32) =~= y@);
    assert((y@ + x@).subrange(32, 64) =~= x@);
    if lex_le(c@, p@) {
        assert(u.subrange(0, 32) == c@);
        assert(v.subrange(0, 32) == c@);
    } else {
        assert(u.subrange(32, 64) == c@);
        assert(v.subrange(32, 64) == c@);
    }
    assert(c@ == x@ || c@ == y@);
    if c@ == x@ {
        assert(c =~= x);
    } else {
        assert(c =~= y);
    }
}

/// Soundness of proof checking: a digest from which an accepted proof leads
/// to the root of a tree is the digest of a node of that tree, or a
/// collision of the hash function exists.
pub proof fn lemma_accepted_proof_names_a_node(
    tree: AllocationTree,
    leaf: [u8; 32],
    proof: Seq<[u8; 32]>,
)
    requires
        proof_accepted(proof, tree.root(), leaf),
    ensures
        tree.has_node(leaf) || keccak_collision(),
    decreases proof.len(),
{
    if proof.len() > 0 {
        let below = fold_proof(leaf, proof.drop_last());
        let hashed = sorted_concat(below, proof.last());
        assert(keccak256(hashed) == tree.root());
        match tree {
            AllocationTree::Leaf { index, claimant, amount } => {
                let encoded = leaf_bytes(index, claimant, amount);
                lemma_preimage_lengths(index, claimant, amount, below, proof.last());
                assert(hashed != encoded);
                assert(keccak256(hashed) == keccak256(encoded));
            },
            AllocationTree::Node { left, right } => {
                let children = sorted_concat(left.root(), right.root());
                if hashed == children {
                    lemma_sorted_concat_member(below, proof.last(), left.root(), right.root());
                    if below == left.root() {
                        lemma_accepted_proof_names_a_node(*left, leaf, proof.drop_last());
                    } else {
                        lemma_accepted_proof_names_a_node(*right, leaf, proof.drop_last());
                    }
                } else {
                    assert(keccak256(hashed) == keccak256(children));
                }
            },
        }
    }
}

/// A node of a tree whose digest is the leaf of an allocation is that
/// allocation, or a collision of the hash function exists.
pub proof fn lemma_leaf_node_is_allocation(
    tree: AllocationTree,
    index: u64,
    claimant: Address,
    amount: u64,
)
    requires
        tree.has_node(claim_leaf(index, claimant, amount)),
    ensures
        tree.has_allocation(index, claimant, amount) || keccak_collision(),
    decreases tree,
{
    let encoded = leaf_bytes(index, claimant, amount);
    match tree {
        AllocationTree::Leaf { index: i, claimant: c, amount: a } => {
            let other = leaf_bytes(i, c, a);
            if other == encoded {
                lemma_leaf_bytes_injective(i, c, a, index, claimant, amount);
            } else {
                assert(keccak256(other) == keccak256(encoded));
            }
        },
        AllocationTree::Node { left, right } => {
            if tree.root() == claim_leaf(index, claimant, amount) {
                let children = sorted_concat(left.root(), right.root());
                lemma_preimage_lengths(index, claimant, amount, left.root(), right.root());
                assert(children != encoded);
                assert(keccak256(children) == keccak256(encoded));
            } else if left.has_node(claim_leaf(index, claimant, amount)) {
                lemma_leaf_node_is_allocation(*left, index, claimant, amount);
            } else {
                lemma_leaf_node_is_allocation(*right, index, claimant, amount);
            }
        },
    }
}

/// Soundness of the distributor: where the proof of a claim is accepted
/// against the root of a tree, the claimed allocation is a leaf of that
/// tree, or a collision of the hash function exists. An allocation that is
/// not in the tree therefore fails with every proof, short of a collision.
pub proof fn lemma_accepted_claim_is_allocated(
    tree: AllocationTree,
    index: u64,
    claimant: Address,
    amount: u64,
    proof: Seq<[u8; 32]>,
)
    requires
        proof_accepted(proof, tree.root(), claim_leaf(index, claimant, amount)),
    ensures
        tree.has_allocation(index, claimant, amount) || keccak_collision(),
{
    lemma_accepted_proof_names_a_node(tree, claim_leaf(index, claimant, amount), proof);
    if tree.has_node(claim_leaf(index, claimant, amount)) {
        lemma_leaf_node_is_allocation(tree, index, claimant, amount);
    }
}

} // verus!
