//! Histories of the ledger and of a distribution round.
//!
//! The operations of the library act on single records. This module puts the
//! records of a whole system side by side, replays sequences of operations
//! on them with the very functions that specify the operations, and proves
//! what holds after every sequence: the ledger's total is the sum of all
//! stakes, the accumulator never falls, no position is credited with more
//! than it has earned, and an allocation is paid at most once.

use vstd::prelude::*;
use crate::accumulator::{accrued, lemma_accrued_monotonic, pending_spec};
use crate::error::ErrorCode;
use crate::instructions::admin_ops::{
    distribute_rent_spec, trigger_inflation_spec, upgraded, UpgradeConfig,
};
use crate::instructions::rewards::{
    claim_leaf, claim_payout, proof_accepted, record_claim_spec, ClaimStatus, Distributor,
};
use crate::instructions::stake::{stake_spec, unstake_spec};
use crate::instructions::swap::buy_spec;
use crate::state::{GlobalConfig, UserAccount};
use crate::keccak::keccak_collision;
use crate::token::{Address, TokenInstruction};
use crate::tree::{
    lemma_accepted_claim_is_allocated, lemma_proof_for_is_accepted, AllocationTree,
};

verus! {

/// The ledger record together with the positions of all stakers.
pub struct Ledger {
    pub config: GlobalConfig,
    pub positions: Seq<UserAccount>,
}

/// One operation on the ledger. Positions are named by their place in
/// [`Ledger::positions`].
pub enum LedgerOp {
    OpenPosition { owner: Address, bump: u8 },
    Stake { position: int, amount: u64 },
    Unstake { position: int, amount: u64 },
    DistributeRent { admin: Address, amount: u64 },
    Buy { amount_xls: u64 },
    TriggerInflation { admin: Address, current_time: i64, current_supply: u64 },
    UpgradeConfig { accounts: UpgradeConfig, now: i64 },
}

/// The sum of the stakes of `positions`.
pub open spec fn total_stake(positions: Seq<UserAccount>) -> int
    decreases positions.len(),
{
    if positions.len() == 0 {
        0
    } else {
        total_stake(positions.drop_last()) + positions.last().staked_xls
    }
}

impl Ledger {
    /// The ledger after `op`. An operation that is rejected, or that names a
    /// position which does not exist, leaves the ledger as it is.
    pub open spec fn step(self, op: LedgerOp) -> Ledger {
        match op {
            LedgerOp::OpenPosition { owner, bump } => Ledger {
                config: self.config,
                positions: self.positions.push(
                    UserAccount { owner, staked_xls: 0, reward_debt: 0, bump },
                ),
            },
            LedgerOp::Stake { position, amount } => {
                if 0 <= position < self.positions.len() {
                    match stake_spec(self.config, self.positions[position], amount) {
                        Ok((config, user, _)) => Ledger {
                            config,
                            positions: self.positions.update(position, user),
                        },
                        Err(_) => self,
                    }
                } else {
                    self
                }
            },
            LedgerOp::Unstake { position, amount } => {
                if 0 <= position < self.positions.len() {
                    match unstake_spec(self.config, self.positions[position], amount) {
                        Ok((config, user, _)) => Ledger {
                            config,
                            positions: self.positions.update(position, user),
                        },
                        Err(_) => self,
                    }
                } else {
                    self
                }
            },
            LedgerOp::DistributeRent { admin, amount } => {
                match distribute_rent_spec(self.config, admin, amount) {
                    Ok((config, _)) => Ledger { config, positions: self.positions },
                    Err(_) => self,
                }
            },
            LedgerOp::Buy { amount_xls } => {
                match buy_spec(self.config, amount_xls) {
                    Ok((config, _)) => Ledger { config, positions: self.positions },
                    Err(_) => self,
                }
            },
            LedgerOp::TriggerInflation { admin, current_time, current_supply } => {
                match trigger_inflation_spec(self.config, admin, current_time, current_supply) {
                    Ok((config, _)) => Ledger { config, positions: self.positions },
                    Err(_) => self,
                }
            },
            LedgerOp::UpgradeConfig { accounts, now } => {
                if accounts.admin == self.config.admin {
                    Ledger {
                        config: upgraded(self.config, accounts, now),
                        positions: self.positions,
                    }
                } else {
                    self
                }
            },
        }
    }

    /// The ledger after the operations of `ops`, one after the other.
    pub open spec fn run(self, ops: Seq<LedgerOp>) -> Ledger
        decreases ops.len(),
    {
        if ops.len() == 0 {
            self
        } else {
            self.run(ops.drop_last()).step(ops.last())
        }
    }

    /// The ledger's total is the sum of the stakes of all positions.
    pub open spec fn balanced(self) -> bool {
        self.config.total_staked_xls as int == total_stake(self.positions)
    }

    /// No position has been credited with more than its stake has earned.
    pub open spec fn covered(self) -> bool {
        forall|i: int|
            0 <= i < self.positions.len() ==> (#[trigger] self.positions[i]).reward_debt as int
                <= accrued(self.positions[i].staked_xls, self.config.acc_rewards_per_share)
    }
}

/// Replacing one position changes the sum of the stakes by the difference of
/// the two stakes.
pub proof fn lemma_total_stake_update(positions: Seq<UserAccount>, i: int, user: UserAccount)
    requires
        0 <= i < positions.len(),
    ensures
        total_stake(positions.update(i, user)) == total_stake(positions)
            - positions[i].staked_xls + user.staked_xls,
    decreases positions.len(),
{
    let updated = positions.update(i, user);
    if i == positions.len() - 1 {
        assert(updated.drop_last() =~= positions.drop_last());
    } else {
        assert(updated.drop_last() =~= positions.drop_last().update(i, user));
        lemma_total_stake_update(positions.drop_last(), i, user);
    }
}

/// One operation keeps the total equal to the sum of all stakes.
pub proof fn lemma_step_balanced(ledger: Ledger, op: LedgerOp)
    requires
        ledger.balanced(),
    ensures
        ledger.step(op).balanced(),
{
    match op {
        LedgerOp::OpenPosition { owner, bump } => {
            let opened = UserAccount { owner, staked_xls: 0, reward_debt: 0, bump };
            assert(ledger.positions.push(opened).drop_last() =~= ledger.positions);
        },
        LedgerOp::Stake { position, amount } => {
            if 0 <= position < ledger.positions.len() {
                match stake_spec(ledger.config, ledger.positions[position], amount) {
                    Ok((_, user, _)) => {
                        lemma_total_stake_update(ledger.positions, position, user);
                    },
                    Err(_) => {},
                }
            }
        },
        LedgerOp::Unstake { position, amount } => {
            if 0 <= position < ledger.positions.len() {
                match unstake_spec(ledger.config, ledger.positions[position], amount) {
                    Ok((_, user, _)) => {
                        lemma_total_stake_update(ledger.positions, position, user);
                    },
                    Err(_) => {},
                }
            }
        },
        _ => {},
    }
}

/// One operation never lowers the accumulator.
pub proof fn lemma_step_accumulator_monotonic(ledger: Ledger, op: LedgerOp)
    ensures
        ledger.step(op).config.acc_rewards_per_share >= ledger.config.acc_rewards_per_share,
{
}

/// One operation keeps every position covered by what it has earned.
pub proof fn lemma_step_covered(ledger: Ledger, op: LedgerOp)
    requires
        ledger.covered(),
    ensures
        ledger.step(op).covered(),
{
    let next = ledger.step(op);
    lemma_step_accumulator_monotonic(ledger, op);
    assert forall|i: int| 0 <= i < next.positions.len() implies (
    #[trigger] next.positions[i]).reward_debt as int <= accrued(
        next.positions[i].staked_xls,
        next.config.acc_rewards_per_share,
    ) by {
        if i < ledger.positions.len() && next.positions[i] == ledger.positions[i] {
            lemma_accrued_monotonic(
                ledger.positions[i].staked_xls,
                ledger.config.acc_rewards_per_share,
                next.config.acc_rewards_per_share,
            );
        }
    }
}

/// After every sequence of operations on a balanced ledger, the ledger's
/// total is the sum of the stakes of all positions.
pub proof fn lemma_total_is_sum_of_stakes(ledger: Ledger, ops: Seq<LedgerOp>)
    requires
        ledger.balanced(),
    ensures
        ledger.run(ops).balanced(),
    decreases ops.len(),
{
    if ops.len() > 0 {
        lemma_total_is_sum_of_stakes(ledger, ops.drop_last());
        lemma_step_balanced(ledger.run(ops.drop_last()), ops.last());
    }
}

/// A ledger that has just been created, with no position yet, is balanced
/// and covered.
pub proof fn lemma_new_ledger_is_consistent(config: GlobalConfig)
    requires
        config.total_staked_xls == 0,
    ensures
        (Ledger { config, positions: Seq::empty() }).balanced(),
        (Ledger { config, positions: Seq::empty() }).covered(),
{
}

/// The accumulator is non-decreasing over the whole history: after every
/// sequence of operations it is at least what it was after any prefix of
/// the sequence.
pub proof fn lemma_accumulator_never_falls(ledger: Ledger, ops: Seq<LedgerOp>, k: int)
    requires
        0 <= k <= ops.len(),
    ensures
        ledger.run(ops.take(k)).config.acc_rewards_per_share <= ledger.run(
            ops,
        ).config.acc_rewards_per_share,
    decreases ops.len(),
{
    if k == ops.len() {
        assert(ops.take(k) =~= ops);
    } else {
        assert(ops.drop_last().take(k) =~= ops.take(k));
        lemma_accumulator_never_falls(ledger, ops.drop_last(), k);
        lemma_step_accumulator_monotonic(ledger.run(ops.drop_last()), ops.last());
    }
}

/// After every sequence of operations on a covered ledger, no position has
/// been credited with more than it has earned.
pub proof fn lemma_positions_stay_covered(ledger: Ledger, ops: Seq<LedgerOp>)
    requires
        ledger.covered(),
    ensures
        ledger.run(ops).covered(),
    decreases ops.len(),
{
    if ops.len() > 0 {
        lemma_positions_stay_covered(ledger, ops.drop_last());
        lemma_step_covered(ledger.run(ops.drop_last()), ops.last());
    }
}

/// On a covered ledger the settlement of a position never underflows.
pub proof fn lemma_covered_settlement_has_no_underflow(ledger: Ledger, position: int)
    requires
        ledger.covered(),
        0 <= position < ledger.positions.len(),
    ensures
        pending_spec(
            ledger.positions[position].staked_xls,
            ledger.config.acc_rewards_per_share,
            ledger.positions[position].reward_debt,
        ) != Err::<u64, ErrorCode>(ErrorCode::ArithmeticUnderflow),
{
}

/// Immediately after a stake or an unstake that was accepted, the debt of
/// the position is what its stake has earned under the accumulator.
pub proof fn lemma_settled_after_stake_or_unstake(ledger: Ledger, op: LedgerOp)
    ensures
        match op {
            LedgerOp::Stake { position, amount } => 0 <= position < ledger.positions.len()
                && stake_spec(ledger.config, ledger.positions[position], amount) is Ok
                ==> ledger.step(op).positions[position].settled_at(
                ledger.step(op).config.acc_rewards_per_share,
            ),
            LedgerOp::Unstake { position, amount } => 0 <= position < ledger.positions.len()
                && unstake_spec(ledger.config, ledger.positions[position], amount) is Ok
                ==> ledger.step(op).positions[position].settled_at(
                ledger.step(op).config.acc_rewards_per_share,
            ),
            _ => true,
        },
{
}

/// A distribution round together with the claim records of all indices.
pub struct Round {
    pub distributor: Distributor,
    pub records: Map<u64, ClaimStatus>,
}

/// One claim.
pub struct Claim {
    pub index: u64,
    pub claimant: Address,
    pub amount: u64,
    pub proof: Seq<[u8; 32]>,
}

impl Round {
    /// The claim record of `index`, if there is one.
    pub open spec fn record(self, index: u64) -> Option<ClaimStatus> {
        if self.records.contains_key(index) {
            Some(self.records[index])
        } else {
            None
        }
    }

    /// What the claim handler decides on `claim` in this round.
    pub open spec fn decide(self, claim: Claim) -> Result<
        (Distributor, ClaimStatus, Seq<TokenInstruction>),
        ErrorCode,
    > {
        record_claim_spec(
            self.distributor,
            self.record(claim.index),
            claim.claimant,
            claim.amount,
            proof_accepted(
                claim.proof,
                self.distributor.root,
                claim_leaf(claim.index, claim.claimant, claim.amount),
            ),
        )
    }

    /// The round after `claim`. A rejected claim leaves it as it is.
    pub open spec fn step(self, claim: Claim) -> Round {
        match self.decide(claim) {
            Ok((distributor, record, _)) => Round {
                distributor,
                records: self.records.insert(claim.index, record),
            },
            Err(_) => self,
        }
    }

    /// The round after the claims of `claims`, one after the other.
    pub open spec fn run(self, claims: Seq<Claim>) -> Round
        decreases claims.len(),
    {
        if claims.len() == 0 {
            self
        } else {
            self.run(claims.drop_last()).step(claims.last())
        }
    }
}

/// A claim with an accepted proof for an index without a record succeeds,
/// pays its amount, and adds the amount to the round's total, unless the
/// total would leave its range.
pub proof fn lemma_first_claim_succeeds(round: Round, claim: Claim)
    requires
        proof_accepted(
            claim.proof,
            round.distributor.root,
            claim_leaf(claim.index, claim.claimant, claim.amount),
        ),
        !round.records.contains_key(claim.index),
        round.distributor.total_claimed + claim.amount <= u64::MAX,
    ensures
        round.decide(claim) matches Ok((_, _, orders)) && orders == claim_payout(
            claim.amount,
            round.distributor.bump,
        ),
        round.step(claim).distributor.total_claimed == round.distributor.total_claimed
            + claim.amount,
        round.step(claim).records.contains_key(claim.index),
{
}

/// In a round seeded with the root of a tree, a claim for an allocation that
/// is not in the tree is rejected as an invalid proof, whatever proof it
/// brings, unless a collision of the hash function exists.
pub proof fn lemma_unallocated_claim_is_rejected(round: Round, tree: AllocationTree, claim: Claim)
    requires
        round.distributor.root == tree.root(),
        !tree.has_allocation(claim.index, claim.claimant, claim.amount),
    ensures
        round.decide(claim) == Err::<(Distributor, ClaimStatus, Seq<TokenInstruction>), ErrorCode>(
            ErrorCode::InvalidProof,
        ) || keccak_collision(),
        round.step(claim) == round || keccak_collision(),
{
    if proof_accepted(
        claim.proof,
        tree.root(),
        claim_leaf(claim.index, claim.claimant, claim.amount),
    ) {
        lemma_accepted_claim_is_allocated(
            tree,
            claim.index,
            claim.claimant,
            claim.amount,
            claim.proof,
        );
    }
}

/// In a round seeded with the root of a tree, every allocation of the tree
/// can be claimed with the proof along its path, as long as its index has no
/// record and the total stays in range.
pub proof fn lemma_allocated_claim_is_payable(
    round: Round,
    tree: AllocationTree,
    index: u64,
    claimant: Address,
    amount: u64,
)
    requires
        round.distributor.root == tree.root(),
        tree.has_allocation(index, claimant, amount),
        !round.records.contains_key(index),
        round.distributor.total_claimed + amount <= u64::MAX,
    ensures
        round.decide(
            Claim { index, claimant, amount, proof: tree.proof_for(index, claimant, amount) },
        ) is Ok,
{
    lemma_proof_for_is_accepted(tree, index, claimant, amount);
}

/// Claim records are never removed.
pub proof fn lemma_records_persist(round: Round, claims: Seq<Claim>, index: u64)
    requires
        round.records.contains_key(index),
    ensures
        round.run(claims).records.contains_key(index),
    decreases claims.len(),
{
    if claims.len() > 0 {
        lemma_records_persist(round, claims.drop_last(), index);
    }
}

/// Over every sequence of claims the root of the round stays what it was
/// seeded with, and the total paid out never falls.
pub proof fn lemma_round_is_stable(round: Round, claims: Seq<Claim>)
    ensures
        round.run(claims).distributor.root == round.distributor.root,
        round.run(claims).distributor.mint == round.distributor.mint,
        round.run(claims).distributor.bump == round.distributor.bump,
        round.run(claims).distributor.total_claimed >= round.distributor.total_claimed,
    decreases claims.len(),
{
    if claims.len() > 0 {
        lemma_round_is_stable(round, claims.drop_last());
    }
}

/// The replay guard: once a claim for an index has succeeded, every later
/// claim for that index is rejected, whatever has been claimed in between,
/// and changes nothing. With an accepted proof the rejection is
/// `AlreadyClaimed`.
pub proof fn lemma_claim_is_paid_once(round: Round, first: Claim, between: Seq<Claim>, again: Claim)
    requires
        round.decide(first) is Ok,
        again.index == first.index,
    ensures
        round.step(first).run(between).decide(again) is Err,
        proof_accepted(
            again.proof,
            round.distributor.root,
            claim_leaf(again.index, again.claimant, again.amount),
        ) ==> round.step(first).run(between).decide(again) == Err::<
            (Distributor, ClaimStatus, Seq<TokenInstruction>),
            ErrorCode,
        >(ErrorCode::AlreadyClaimed),
        round.step(first).run(between).step(again) == round.step(first).run(between),
{
    lemma_records_persist(round.step(first), between, first.index);
    lemma_round_is_stable(round.step(first), between);
}

} // verus!
