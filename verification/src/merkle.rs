//! Merkle inclusion proofs over a binary hash tree with sorted-pair hashing.
//!
//! A node of the tree is the digest of its two children, the smaller child
//! first, so that a proof needs no record of left and right. Whoever builds
//! the tree has to use the same convention: [`hash_pair`] is the node
//! function and [`leaf_hash`] the leaf function.

use vstd::prelude::*;
use crate::keccak::{keccak, keccak256};
use crate::token::Address;

verus! {

/// `a` comes before `b` at position `i`: the two agree on everything in
/// front of `i`, and there `a` holds the smaller byte.
pub open spec fn differs_below_at(a: Seq<u8>, b: Seq<u8>, i: int) -> bool {
    &&& 0 <= i < a.len()
    &&& i < b.len()
    &&& a[i] < b[i]
    &&& forall|k: int| 0 <= k < i ==> a[k] == b[k]
}

/// Lexicographic order on byte strings of one length: `a` is `b` or comes
/// before it.
pub open spec fn lex_le(a: Seq<u8>, b: Seq<u8>) -> bool
    recommends
        a.len() == b.len(),
{
    a == b || exists|i: int| differs_below_at(a, b, i)
}

/// The 64 bytes that are hashed for a node with children `a` and `b`: the
/// two digests one after the other, the smaller first.
pub open spec fn sorted_concat(a: [u8; 32], b: [u8; 32]) -> Seq<u8> {
    if lex_le(a@, b@) {
        a@ + b@
    } else {
        b@ + a@
    }
}

/// The digest of the node with children `a` and `b`.
pub open spec fn node_hash(a: [u8; 32], b: [u8; 32]) -> [u8; 32] {
    keccak256(sorted_concat(a, b))
}

/// The digest reached from `leaf` by hashing it with each node of `proof` in
/// turn.
pub open spec fn fold_proof(leaf: [u8; 32], proof: Seq<[u8; 32]>) -> [u8; 32]
    decreases proof.len(),
{
    if proof.len() == 0 {
        leaf
    } else {
        node_hash(fold_proof(leaf, proof.drop_last()), proof.last())
    }
}

/// The bytes that are hashed for the allocation of `amount` to `claimant`
/// under `index`: the index in eight bytes, least significant first, the 32
/// bytes of the claimant, and the amount in eight bytes, least significant
/// first.
pub open spec fn leaf_bytes(index: u64, claimant: Address, amount: u64) -> Seq<u8> {
    vstd::bytes::spec_u64_to_le_bytes(index) + claimant@ + vstd::bytes::spec_u64_to_le_bytes(
        amount,
    )
}

/// Two byte strings of one length agree on their first `n` bytes, or one of
/// them comes before the other at a position below `n`.
proof fn lemma_first_difference(a: Seq<u8>, b: Seq<u8>, n: int)
    requires
        a.len() == b.len(),
        0 <= n <= a.len(),
    ensures
        (forall|k: int| 0 <= k < n ==> a[k] == b[k]) || (exists|i: int|
            i < n && (differs_below_at(a, b, i) || differs_below_at(b, a, i))),
    decreases n,
{
    if n > 0 {
        lemma_first_difference(a, b, n - 1);
        if forall|k: int| 0 <= k < n - 1 ==> a[k] == b[k] {
            if a[n - 1] != b[n - 1] {
                assert(differs_below_at(a, b, n - 1) || differs_below_at(b, a, n - 1));
            }
        } else {
            let i = choose|i: int|
                i < n - 1 && (differs_below_at(a, b, i) || differs_below_at(b, a, i));
            assert(i < n && (differs_below_at(a, b, i) || differs_below_at(b, a, i)));
        }
    }
}

/// The lexicographic order is total: of two byte strings of one length, one
/// is the other or comes before it.
pub proof fn lemma_lex_le_total(a: Seq<u8>, b: Seq<u8>)
    requires
        a.len() == b.len(),
    ensures
        lex_le(a, b) || lex_le(b, a),
{
    lemma_first_difference(a, b, a.len() as int);
    if forall|k: int| 0 <= k < a.len() ==> a[k] == b[k] {
        assert(a =~= b);
    }
}

/// The lexicographic order is antisymmetric.
pub proof fn lemma_lex_le_antisymmetric(a: Seq<u8>, b: Seq<u8>)
    requires
        lex_le(a, b),
        lex_le(b, a),
    ensures
        a == b,
{
    if a != b {
        let i = choose|i: int| differs_below_at(a, b, i);
        let j = choose|j: int| differs_below_at(b, a, j);
        if i < j {
            assert(b[i] == a[i]);
        } else if j < i {
            assert(a[j] == b[j]);
        }
    }
}

/// A node does not depend on the order of its children.
pub proof fn lemma_node_hash_symmetric(a: [u8; 32], b: [u8; 32])
    ensures
        sorted_concat(a, b) == sorted_concat(b, a),
        node_hash(a, b) == node_hash(b, a),
{
    lemma_lex_le_total(a@, b@);
    if lex_le(a@, b@) && lex_le(b@, a@) {
        lemma_lex_le_antisymmetric(a@, b@);
    }
}

/// Whether `a` is `b` or comes before it in lexicographic order.
pub fn lex_le_bytes(a: &[u8; 32], b: &[u8; 32]) -> (le: bool)
    ensures
        le == lex_le(a@, b@),
{
    let mut i: usize = 0;
    while i < 32
        invariant
            i <= 32,
            forall|k: int| 0 <= k < i ==> a@[k] == b@[k],
        decreases 32 - i,
    {
        if a[i] < b[i] {
            assert(differs_below_at(a@, b@, i as int));
            return true;
        }
        if a[i] > b[i] {
            assert(a@ != b@) by {
                assert(a@[i as int] != b@[i as int]);
            }
            assert forall|j: int| !differs_below_at(a@, b@, j) by {
                if differs_below_at(a@, b@, j) {
                    if j < i {
                        assert(a@[j] == b@[j]);
                    } else if j > i {
                        assert(a@[i as int] == b@[i as int]);
                    }
                }
            }
            return false;
        }
        i += 1;
    }
    assert(a@ =~= b@);
    true
}

/// The 64 bytes that are hashed for a node with children `a` and `b`.
pub fn sorted_pair(a: &[u8; 32], b: &[u8; 32]) -> (out: Vec<u8>)
    ensures
        out@ == sorted_concat(*a, *b),
{
    let a_first: bool = lex_le_bytes(a, b);
    let first: &[u8; 32] = if a_first { a } else { b };
    let second: &[u8; 32] = if a_first { b } else { a };
    let mut out: Vec<u8> = Vec::new();
    let mut i: usize = 0;
    while i < 32
        invariant
            i <= 32,
            out@ == first@.take(i as int),
        decreases 32 - i,
    {
        out.push(first[i]);
        assert(out@ =~= first@.take(i + 1));
        i += 1;
    }
    let mut j: usize = 0;
    while j < 32
        invariant
            j <= 32,
            out@ == first@ + second@.take(j as int),
        decreases 32 - j,
    {
        out.push(second[j]);
        assert(out@ =~= first@ + second@.take(j + 1));
        j += 1;
    }
    assert(out@ =~= first@ + second@);
    out
}

/// The digest of the node with children `a` and `b`, in either order.
pub fn hash_pair(a: &[u8; 32], b: &[u8; 32]) -> (out: [u8; 32])
    ensures
        out == node_hash(*a, *b),
{
    let bytes = sorted_pair(a, b);
    keccak(bytes.as_slice())
}

/// The bytes that are hashed for the allocation of `amount` to `claimant`
/// under `index`.
pub fn leaf_preimage(index: u64, claimant: &Address, amount: u64) -> (out: Vec<u8>)
    ensures
        out@ == leaf_bytes(index, *claimant, amount),
        out@.len() == 48,
{
    let mut out: Vec<u8> = vstd::bytes::u64_to_le_bytes(index);
    let ghost head = out@;
    let mut i: usize = 0;
    while i < 32
        invariant
            i <= 32,
            out@ == head + claimant@.take(i as int),
        decreases 32 - i,
    {
        out.push(claimant[i]);
        assert(out@ =~= head + claimant@.take(i + 1));
        i += 1;
    }
    let tail: Vec<u8> = vstd::bytes::u64_to_le_bytes(amount);
    let mut j: usize = 0;
    while j < 8
        invariant
            j <= 8,
            tail@.len() == 8,
            out@ == head + claimant@ + tail@.take(j as int),
        decreases 8 - j,
    {
        out.push(tail[j]);
        assert(out@ =~= head + claimant@ + tail@.take(j + 1));
        j += 1;
    }
    assert(out@ =~= head + claimant@ + tail@);
    out
}

/// The leaf of the allocation of `amount` to `claimant` under `index`.
pub fn leaf_hash(index: u64, claimant: &Address, amount: u64) -> (out: [u8; 32])
    ensures
        out == keccak256(leaf_bytes(index, *claimant, amount)),
{
    let bytes = leaf_preimage(index, claimant, amount);
    keccak(bytes.as_slice())
}

} // verus!
