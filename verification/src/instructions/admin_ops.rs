//! Operations reserved to the administrator: distributing income to the
//! reserve and to the stakers, the scheduled mint, and replacing the vaults
//! of the ledger.

use vstd::prelude::*;
use crate::accumulator::{accumulator_delta, share_delta};
use crate::error::ErrorCode;
use crate::state::GlobalConfig;
use crate::token::{same_bytes, Address, Authority, Token, TokenAccount, TokenInstruction};

verus! {

/// Share of distributed income that goes to the reserve vault, in percent.
/// The remainder goes to the stakers. Valid range: 0 to 100.
pub const RESERVE_PERCENT: u64 = 60;

/// Seconds that must pass between two scheduled mints: five years of 365
/// days.
pub const INFLATION_INTERVAL: i64 = 157_680_000;

/// Size of a scheduled mint in thousandths of the current supply.
/// Valid range: 0 to 1000.
pub const INFLATION_PER_MILLE: u64 = 25;

/// The part of `amount` that goes to the reserve vault, rounded down.
pub open spec fn reserve_share(amount: u64) -> int {
    amount as int * RESERVE_PERCENT as int / 100
}

/// The part of `amount` that goes to the stakers: all that the reserve does
/// not get.
pub open spec fn staker_share(amount: u64) -> int {
    amount as int - reserve_share(amount)
}

/// What [`split_rent`] returns: the reserve's share and the stakers' share.
pub open spec fn split_rent_spec(amount: u64) -> Result<(u64, u64), ErrorCode> {
    if amount as int * RESERVE_PERCENT as int > u64::MAX as int {
        Err(ErrorCode::ArithmeticOverflow)
    } else {
        Ok((reserve_share(amount) as u64, staker_share(amount) as u64))
    }
}

/// Splits `amount` of income between the reserve and the stakers. The
/// product of the amount and the percentage is formed in 64 bits and
/// reported as an overflow where it does not fit.
pub fn split_rent(amount: u64) -> (out: Result<(u64, u64), ErrorCode>)
    ensures
        out == split_rent_spec(amount),
        out matches Ok((reserve, stakers)) ==> reserve + stakers == amount,
{
    match amount.checked_mul(RESERVE_PERCENT) {
        Some(scaled) => {
            let reserve: u64 = scaled / 100;
            Ok((reserve, amount - reserve))
        },
        None => Err(ErrorCode::ArithmeticOverflow),
    }
}

/// The two transfers of an income distribution, each left out where its
/// amount is zero.
pub open spec fn rent_transfers(reserve: u64, stakers: u64) -> Seq<TokenInstruction> {
    (if reserve > 0 {
        seq![
            TokenInstruction::Transfer {
                from: TokenAccount::AdminLxr,
                to: TokenAccount::RwaVaultLxr,
                mint: Token::Lxr,
                amount: reserve,
                authority: Authority::Admin,
            },
        ]
    } else {
        Seq::empty()
    }) + (if stakers > 0 {
        seq![
            TokenInstruction::Transfer {
                from: TokenAccount::AdminLxr,
                to: TokenAccount::LxrVaultRewards,
                mint: Token::Lxr,
                amount: stakers,
                authority: Authority::Admin,
            },
        ]
    } else {
        Seq::empty()
    })
}

/// What distributing `amount` of income does to the ledger, and what it asks
/// of the token service.
pub open spec fn distribute_rent_spec(config: GlobalConfig, admin: Address, amount: u64) -> Result<
    (GlobalConfig, Seq<TokenInstruction>),
    ErrorCode,
> {
    if admin != config.admin {
        Err(ErrorCode::Unauthorized)
    } else if amount as int * RESERVE_PERCENT as int > u64::MAX as int {
        Err(ErrorCode::ArithmeticOverflow)
    } else {
        let acc = config.acc_rewards_per_share as int + accumulator_delta(
            staker_share(amount) as u64,
            config.total_staked_xls,
        );
        if acc > u128::MAX as int {
            Err(ErrorCode::ArithmeticOverflow)
        } else {
            Ok(
                (
                    GlobalConfig { acc_rewards_per_share: acc as u128, ..config },
                    rent_transfers(reserve_share(amount) as u64, staker_share(amount) as u64),
                ),
            )
        }
    }
}

/// Distributes `amount` of income: the reserve's percentage goes to the
/// reserve vault, the rest to the reward vault, and the accumulator grows by
/// the stakers' share per staked unit.
///
/// With nothing staked the stakers' share is still moved to the reward
/// vault, but the accumulator is left alone: that share is credited to no
/// position.
pub fn distribute_rent_handler(
    global_config: &mut GlobalConfig,
    admin: &Address,
    amount: u64,
) -> (out: Result<Vec<TokenInstruction>, ErrorCode>)
    ensures
        match distribute_rent_spec(*old(global_config), *admin, amount) {
            Ok((config, orders)) => {
                &&& out matches Ok(v) && v@ == orders
                &&& *final(global_config) == config
            },
            Err(e) => {
                &&& out == Err::<Vec<TokenInstruction>, ErrorCode>(e)
                &&& *final(global_config) == *old(global_config)
            },
        },
        final(global_config).acc_rewards_per_share >= old(global_config).acc_rewards_per_share,
        old(global_config).total_staked_xls == 0 ==> final(global_config).acc_rewards_per_share
            == old(global_config).acc_rewards_per_share,
        final(global_config).total_staked_xls == old(global_config).total_staked_xls,
{
    if !same_bytes(admin, &global_config.admin) {
        return Err(ErrorCode::Unauthorized);
    }
    let (reserve, stakers) = match split_rent(amount) {
        Ok(shares) => shares,
        Err(e) => { return Err(e); },
    };
    let delta: u128 = share_delta(stakers, global_config.total_staked_xls);
    let acc: u128 = match global_config.acc_rewards_per_share.checked_add(delta) {
        Some(a) => a,
        None => { return Err(ErrorCode::ArithmeticOverflow); },
    };
    let mut orders: Vec<TokenInstruction> = Vec::new();
    if reserve > 0 {
        orders.push(
            TokenInstruction::Transfer {
                from: TokenAccount::AdminLxr,
                to: TokenAccount::RwaVaultLxr,
                mint: Token::Lxr,
                amount: reserve,
                authority: Authority::Admin,
            },
        );
    }
    if stakers > 0 {
        orders.push(
            TokenInstruction::Transfer {
                from: TokenAccount::AdminLxr,
                to: TokenAccount::LxrVaultRewards,
                mint: Token::Lxr,
                amount: stakers,
                authority: Authority::Admin,
            },
        );
    }
    assert(orders@ =~= rent_transfers(reserve, stakers));
    global_config.acc_rewards_per_share = acc;
    Ok(orders)
}

/// The size of a scheduled mint on a supply of `supply`, rounded down.
pub open spec fn inflation_amount(supply: u64) -> int {
    supply as int * INFLATION_PER_MILLE as int / 1000
}

/// What triggering the scheduled mint does to the ledger, and what it asks
/// of the token service.
pub open spec fn trigger_inflation_spec(
    config: GlobalConfig,
    admin: Address,
    current_time: i64,
    current_supply: u64,
) -> Result<(GlobalConfig, Seq<TokenInstruction>), ErrorCode> {
    if admin != config.admin {
        Err(ErrorCode::Unauthorized)
    } else if (current_time as int) < config.last_inflation_timestamp as int
        + INFLATION_INTERVAL as int {
        Err(ErrorCode::InflationNotReady)
    } else if current_supply as int * INFLATION_PER_MILLE as int > u64::MAX as int {
        Err(ErrorCode::ArithmeticOverflow)
    } else {
        Ok(
            (
                GlobalConfig { last_inflation_timestamp: current_time, ..config },
                seq![
                    TokenInstruction::MintTo {
                        mint: Token::Lxr,
                        to: TokenAccount::ReserveWallet,
                        amount: inflation_amount(current_supply) as u64,
                        authority: Authority::Admin,
                    },
                ],
            ),
        )
    }
}

/// Triggers the scheduled mint at time `current_time` on a supply of
/// `current_supply`.
///
/// The call is rejected as not ready until a full interval has passed since
/// the last mint. Otherwise the fixed fraction of the supply is minted to the
/// reserve wallet under the administrator's authority, and the time of the
/// mint is recorded.
pub fn trigger_inflation_handler(
    global_config: &mut GlobalConfig,
    admin: &Address,
    current_time: i64,
    current_supply: u64,
) -> (out: Result<Vec<TokenInstruction>, ErrorCode>)
    ensures
        match trigger_inflation_spec(*old(global_config), *admin, current_time, current_supply) {
            Ok((config, orders)) => {
                &&& out matches Ok(v) && v@ == orders
                &&& *final(global_config) == config
            },
            Err(e) => {
                &&& out == Err::<Vec<TokenInstruction>, ErrorCode>(e)
                &&& *final(global_config) == *old(global_config)
            },
        },
        final(global_config).last_inflation_timestamp >= old(
            global_config,
        ).last_inflation_timestamp,
        final(global_config).acc_rewards_per_share == old(global_config).acc_rewards_per_share,
        final(global_config).total_staked_xls == old(global_config).total_staked_xls,
{
    if !same_bytes(admin, &global_config.admin) {
        return Err(ErrorCode::Unauthorized);
    }
    let ready: bool = match global_config.last_inflation_timestamp.checked_add(INFLATION_INTERVAL) {
        Some(due) => current_time >= due,
        None => false,
    };
    if !ready {
        return Err(ErrorCode::InflationNotReady);
    }
    let scaled: u64 = match current_supply.checked_mul(INFLATION_PER_MILLE) {
        Some(s) => s,
        None => { return Err(ErrorCode::ArithmeticOverflow); },
    };
    let mut orders: Vec<TokenInstruction> = Vec::new();
    orders.push(
        TokenInstruction::MintTo {
            mint: Token::Lxr,
            to: TokenAccount::ReserveWallet,
            amount: scaled / 1000,
            authority: Authority::Admin,
        },
    );
    assert(orders@ =~= seq![
        TokenInstruction::MintTo {
            mint: Token::Lxr,
            to: TokenAccount::ReserveWallet,
            amount: inflation_amount(current_supply) as u64,
            authority: Authority::Admin,
        },
    ]);
    global_config.last_inflation_timestamp = current_time;
    Ok(orders)
}

/// The new vaults of an upgrade, with the administrator who signs it.
#[derive(Clone, Copy, Debug, PartialEq, Eq)]
pub struct UpgradeConfig {
    pub admin: Address,
    pub rwa_vault_lxr: Address,
    pub xls_vault_supply: Address,
    pub lxr_vault_rewards: Address,
}

/// The ledger after an upgrade at time `now`: the three vaults replaced, the
/// inflation timer restarted, every other field as it was.
pub open spec fn upgraded(config: GlobalConfig, accounts: UpgradeConfig, now: i64) -> GlobalConfig {
    GlobalConfig {
        rwa_vault_lxr: accounts.rwa_vault_lxr,
        xls_vault_supply: accounts.xls_vault_supply,
        lxr_vault_rewards: accounts.lxr_vault_rewards,
        last_inflation_timestamp: now,
        ..config
    }
}

/// Replaces the vaults of the ledger and restarts the inflation timer at
/// `now`. Only the administrator of the ledger may do so.
pub fn upgrade_config_handler(
    global_config: &mut GlobalConfig,
    accounts: &UpgradeConfig,
    now: i64,
) -> (out: Result<(), ErrorCode>)
    ensures
        accounts.admin != old(global_config).admin ==> out == Err::<(), ErrorCode>(
            ErrorCode::Unauthorized,
        ) && *final(global_config) == *old(global_config),
        accounts.admin == old(global_config).admin ==> out is Ok && *final(global_config)
            == upgraded(*old(global_config), *accounts, now),
        final(global_config).acc_rewards_per_share == old(global_config).acc_rewards_per_share,
        final(global_config).total_staked_xls == old(global_config).total_staked_xls,
{
    if !same_bytes(&accounts.admin, &global_config.admin) {
        return Err(ErrorCode::Unauthorized);
    }
    global_config.rwa_vault_lxr = accounts.rwa_vault_lxr;
    global_config.xls_vault_supply = accounts.xls_vault_supply;
    global_config.lxr_vault_rewards = accounts.lxr_vault_rewards;
    global_config.last_inflation_timestamp = now;
    Ok(())
}

} // verus!
