//! Creating the ledger record.

use vstd::prelude::*;
use crate::error::ErrorCode;
use crate::state::GlobalConfig;
use crate::token::Address;

verus! {

/// Hard cap of the fee in basis points.
pub const MAX_FEE_BASIS_POINTS: u16 = 300;

/// The identities that the ledger is created with.
#[derive(Clone, Copy, Debug, PartialEq, Eq)]
pub struct Initialize {
    pub admin: Address,
    /// Wallet that controls the reserve assets.
    pub rwa_wallet: Address,
    pub founder_wallet: Address,
    pub xls_mint: Address,
    pub lxr_mint: Address,
    pub rwa_vault_lxr: Address,
    pub xls_vault_supply: Address,
    pub lxr_vault_rewards: Address,
    pub bump: u8,
}

/// The parameters that the ledger is created with.
#[derive(Clone, Copy, Debug, PartialEq, Eq)]
pub struct InitParams {
    pub fee_basis_points: u16,
}

/// The ledger as it is created at time `now`: nothing staked, nothing burned,
/// the accumulator at zero, the inflation timer started.
pub open spec fn initial_config(
    accounts: Initialize,
    params: InitParams,
    now: i64,
) -> GlobalConfig {
    GlobalConfig {
        admin: accounts.admin,
        xls_mint: accounts.xls_mint,
        lxr_mint: accounts.lxr_mint,
        rwa_vault_lxr: accounts.rwa_vault_lxr,
        xls_vault_supply: accounts.xls_vault_supply,
        rwa_wallet: accounts.rwa_wallet,
        founder_wallet: accounts.founder_wallet,
        fee_basis_points: params.fee_basis_points,
        max_fee_basis_points: MAX_FEE_BASIS_POINTS,
        total_lxr_burned: 0,
        total_staked_xls: 0,
        acc_rewards_per_share: 0,
        last_inflation_timestamp: now,
        lxr_vault_rewards: accounts.lxr_vault_rewards,
        bump: accounts.bump,
    }
}

/// Creates the ledger record in an empty slot. A slot that holds a ledger
/// already is left as it is, and the call is rejected.
pub fn handler(
    global_config: &mut Option<GlobalConfig>,
    accounts: &Initialize,
    params: InitParams,
    now: i64,
) -> (out: Result<(), ErrorCode>)
    ensures
        *old(global_config) is Some ==> out == Err::<(), ErrorCode>(ErrorCode::AlreadyInitialized)
            && *final(global_config) == *old(global_config),
        *old(global_config) is None ==> out is Ok && *final(global_config) == Some(
            initial_config(*accounts, params, now),
        ),
{
    if global_config.is_some() {
        return Err(ErrorCode::AlreadyInitialized);
    }
    *global_config = Some(
        GlobalConfig {
            admin: accounts.admin,
            xls_mint: accounts.xls_mint,
            lxr_mint: accounts.lxr_mint,
            rwa_vault_lxr: accounts.rwa_vault_lxr,
            xls_vault_supply: accounts.xls_vault_supply,
            rwa_wallet: accounts.rwa_wallet,
            founder_wallet: accounts.founder_wallet,
            fee_basis_points: params.fee_basis_points,
            max_fee_basis_points: MAX_FEE_BASIS_POINTS,
            total_lxr_burned: 0,
            total_staked_xls: 0,
            acc_rewards_per_share: 0,
            last_inflation_timestamp: now,
            lxr_vault_rewards: accounts.lxr_vault_rewards,
            bump: accounts.bump,
        },
    );
    Ok(())
}

} // verus!
