//! The distributor: a one-time distribution of individually addressed
//! allocations, committed to by a Merkle root.
//!
//! A claim names an index, a recipient and an amount, and proves with a
//! Merkle proof that the root commits to the three. The claim record of an
//! index is created by the first claim that succeeds for it; its existence is
//! what keeps the allocation from being paid twice.

use vstd::prelude::*;
use crate::error::ErrorCode;
use crate::keccak::keccak256;
use crate::merkle::{fold_proof, hash_pair, leaf_bytes, leaf_hash};
use crate::token::{same_bytes, Address, Authority, Token, TokenAccount, TokenInstruction};

verus! {

/// One distribution round.
#[derive(Clone, Copy, Debug, PartialEq, Eq)]
pub struct Distributor {
    /// Root of the tree over all allocations of the round.
    pub root: [u8; 32],
    pub mint: Address,
    /// Sum of the amounts paid out so far.
    pub total_claimed: u64,
    pub bump: u8,
}

/// The record of a paid allocation.
#[derive(Clone, Copy, Debug, PartialEq, Eq)]
pub struct ClaimStatus {
    pub is_claimed: bool,
    pub amount: u64,
    pub claimant: Address,
}

impl ClaimStatus {
    /// Size of the persisted record in bytes.
    pub const LEN: usize = 8 + 1 + 8 + 32;
}

impl Distributor {
    /// Size of the persisted record in bytes.
    pub const LEN: usize = 8 + 32 + 32 + 8 + 1;

    /// The signing capability of the distributor record, under which its
    /// vault pays out.
    pub fn authority(&self) -> (out: Authority)
        ensures
            out == (Authority::Distributor { bump: self.bump }),
    {
        Authority::Distributor { bump: self.bump }
    }
}

/// Seeds a distribution round with `root` in an empty slot. A slot that
/// holds a round already is left as it is, and the call is rejected: a round
/// is never seeded twice.
pub fn init_distributor_handler(
    distributor: &mut Option<Distributor>,
    mint: Address,
    bump: u8,
    root: [u8; 32],
) -> (out: Result<(), ErrorCode>)
    ensures
        *old(distributor) is Some ==> out == Err::<(), ErrorCode>(ErrorCode::AlreadyInitialized)
            && *final(distributor) == *old(distributor),
        *old(distributor) is None ==> out is Ok && *final(distributor) == Some(
            Distributor { root, mint, total_claimed: 0, bump },
        ),
{
    if distributor.is_some() {
        return Err(ErrorCode::AlreadyInitialized);
    }
    *distributor = Some(Distributor { root, mint, total_claimed: 0, bump });
    Ok(())
}

/// Whether `proof` leads from `leaf` to `root`.
pub open spec fn proof_accepted(proof: Seq<[u8; 32]>, root: [u8; 32], leaf: [u8; 32]) -> bool {
    fold_proof(leaf, proof) == root
}

/// Checks a Merkle proof: starting from `leaf`, each node of `proof` is
/// hashed with what has been computed so far, the smaller of the two first.
/// The proof is accepted only if the last digest is exactly `root`.
pub fn verify(proof: Vec<[u8; 32]>, root: [u8; 32], leaf: [u8; 32]) -> (ok: bool)
    ensures
        ok == proof_accepted(proof@, root, leaf),
{
    let mut computed_hash: [u8; 32] = leaf;
    let mut i: usize = 0;
    while i < proof.len()
        invariant
            i <= proof.len(),
            computed_hash == fold_proof(leaf, proof@.take(i as int)),
        decreases proof.len() - i,
    {
        computed_hash = hash_pair(&computed_hash, &proof[i]);
        assert(proof@.take(i + 1).drop_last() =~= proof@.take(i as int));
        i += 1;
    }
    assert(proof@.take(i as int) =~= proof@);
    same_bytes(&computed_hash, &root)
}

/// The one transfer of a claim: from the distributor's vault to the
/// claimant, under the distributor's own authority.
pub open spec fn claim_payout(amount: u64, bump: u8) -> Seq<TokenInstruction> {
    seq![
        TokenInstruction::Transfer {
            from: TokenAccount::DistributorVault,
            to: TokenAccount::UserToken,
            mint: Token::Distributed,
            amount,
            authority: Authority::Distributor { bump },
        },
    ]
}

/// What a claim does once its proof has been checked, with `proven` the
/// outcome of that check and `existing` the claim record of the index, if
/// there is one.
pub open spec fn record_claim_spec(
    distributor: Distributor,
    existing: Option<ClaimStatus>,
    claimant: Address,
    amount: u64,
    proven: bool,
) -> Result<(Distributor, ClaimStatus, Seq<TokenInstruction>), ErrorCode> {
    if !proven {
        Err(ErrorCode::InvalidProof)
    } else if existing is Some {
        Err(ErrorCode::AlreadyClaimed)
    } else if distributor.total_claimed + amount > u64::MAX {
        Err(ErrorCode::ArithmeticOverflow)
    } else {
        Ok(
            (
                Distributor {
                    total_claimed: (distributor.total_claimed + amount) as u64,
                    ..distributor
                },
                ClaimStatus { is_claimed: true, amount, claimant },
                claim_payout(amount, distributor.bump),
            ),
        )
    }
}

/// Decides a claim whose proof has been checked with outcome `proven`.
///
/// A failed proof rejects the claim as invalid. A slot that holds a record
/// already rejects it as claimed, whatever the record says. Otherwise the
/// record is created, the amount is added to the round's total, and the
/// payout is returned. A rejected claim changes neither the round nor the
/// slot.
pub fn record_claim(
    distributor: &mut Distributor,
    claim_status: &mut Option<ClaimStatus>,
    claimant: &Address,
    amount: u64,
    proven: bool,
) -> (out: Result<Vec<TokenInstruction>, ErrorCode>)
    ensures
        match record_claim_spec(*old(distributor), *old(claim_status), *claimant, amount, proven) {
            Ok((round, record, orders)) => {
                &&& out matches Ok(v) && v@ == orders
                &&& *final(distributor) == round
                &&& *final(claim_status) == Some(record)
            },
            Err(e) => {
                &&& out == Err::<Vec<TokenInstruction>, ErrorCode>(e)
                &&& *final(distributor) == *old(distributor)
                &&& *final(claim_status) == *old(claim_status)
            },
        },
        final(distributor).total_claimed >= old(distributor).total_claimed,
{
    if !proven {
        return Err(ErrorCode::InvalidProof);
    }
    if claim_status.is_some() {
        return Err(ErrorCode::AlreadyClaimed);
    }
    let total: u64 = match distributor.total_claimed.checked_add(amount) {
        Some(t) => t,
        None => { return Err(ErrorCode::ArithmeticOverflow); },
    };
    let mut orders: Vec<TokenInstruction> = Vec::new();
    orders.push(
        TokenInstruction::Transfer {
            from: TokenAccount::DistributorVault,
            to: TokenAccount::UserToken,
            mint: Token::Distributed,
            amount,
            authority: distributor.authority(),
        },
    );
    assert(orders@ =~= claim_payout(amount, distributor.bump));
    *claim_status = Some(ClaimStatus { is_claimed: true, amount, claimant: *claimant });
    distributor.total_claimed = total;
    Ok(orders)
}

/// The leaf that commits to the allocation of `amount` to `claimant` under
/// `index`.
pub open spec fn claim_leaf(index: u64, claimant: Address, amount: u64) -> [u8; 32] {
    keccak256(leaf_bytes(index, claimant, amount))
}

/// Claims the allocation of `amount` to `user` under `index`.
///
/// The leaf of the three is hashed and checked against the round's root with
/// `proof`; the claim is then decided as [`record_claim`] says.
pub fn claim_handler(
    distributor: &mut Distributor,
    claim_status: &mut Option<ClaimStatus>,
    user: &Address,
    index: u64,
    amount: u64,
    proof: Vec<[u8; 32]>,
) -> (out: Result<Vec<TokenInstruction>, ErrorCode>)
    ensures
        match record_claim_spec(
            *old(distributor),
            *old(claim_status),
            *user,
            amount,
            proof_accepted(proof@, old(distributor).root, claim_leaf(index, *user, amount)),
        ) {
            Ok((round, record, orders)) => {
                &&& out matches Ok(v) && v@ == orders
                &&& *final(distributor) == round
                &&& *final(claim_status) == Some(record)
            },
            Err(e) => {
                &&& out == Err::<Vec<TokenInstruction>, ErrorCode>(e)
                &&& *final(distributor) == *old(distributor)
                &&& *final(claim_status) == *old(claim_status)
            },
        },
        final(distributor).total_claimed >= old(distributor).total_claimed,
{
    let leaf: [u8; 32] = leaf_hash(index, user, amount);
    let proven: bool = verify(proof, distributor.root, leaf);
    record_claim(distributor, claim_status, user, amount, proven)
}

} // verus!
