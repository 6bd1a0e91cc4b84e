use vstd::prelude::*;
use crate::accumulator::accrued;
use crate::token::Address;

verus! {

/// The position of one staker.
#[derive(Clone, Copy, Debug, PartialEq, Eq)]
pub struct UserAccount {
    pub owner: Address,
    pub staked_xls: u64,
    /// Reward already accounted for at the last settlement.
    pub reward_debt: u128,
    pub bump: u8,
}

impl UserAccount {
    /// Size of the persisted record in bytes.
    pub const LEN: usize = 8 + 32 + 8 + 16 + 1;

    /// The position has been settled against accumulator `acc`: its debt is
    /// all that its stake has earned under `acc`.
    pub open spec fn settled_at(self, acc: u128) -> bool {
        self.reward_debt as int == accrued(self.staked_xls, acc)
    }
}

} // verus!
