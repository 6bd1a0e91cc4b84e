use vstd::prelude::*;
use crate::token::{Address, Authority};

verus! {

/// The global ledger: one record for the whole system.
#[derive(Clone, Copy, Debug, PartialEq, Eq)]
pub struct GlobalConfig {
    pub admin: Address,
    pub xls_mint: Address,
    pub lxr_mint: Address,
    /// Token account of the reserve vault.
    pub rwa_vault_lxr: Address,
    /// Token account that holds the fixed supply offered for sale.
    pub xls_vault_supply: Address,
    /// Wallet that controls the reserve assets.
    pub rwa_wallet: Address,
    pub founder_wallet: Address,
    pub fee_basis_points: u16,
    pub max_fee_basis_points: u16,
    pub total_lxr_burned: u64,
    /// Sum of the stakes of all positions.
    pub total_staked_xls: u64,
    /// Cumulative reward per staked unit, scaled by the accumulator's scale.
    pub acc_rewards_per_share: u128,
    pub last_inflation_timestamp: i64,
    /// Token account that holds the staking rewards.
    pub lxr_vault_rewards: Address,
    pub bump: u8,
}

impl GlobalConfig {
    /// Size of the persisted record in bytes.
    pub const LEN: usize = 8 + 32 * 8 + 2 * 2 + 8 * 2 + 8 + 16 + 1;

    /// The signing capability of the ledger record, under which its vaults
    /// pay out.
    pub fn authority(&self) -> (out: Authority)
        ensures
            out == (Authority::GlobalConfig { bump: self.bump }),
    {
        Authority::GlobalConfig { bump: self.bump }
    }
}

} // verus!
