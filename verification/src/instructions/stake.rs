//! The staking ledger: opening a position, staking and unstaking.
//!
//! Every operation on a position settles it first: the reward that the
//! position has earned since it was last touched is paid out, and its debt is
//! set to what its new stake has earned under the current accumulator.

use vstd::prelude::*;
use crate::accumulator::{pending, pending_spec, reward_debt, reward_debt_spec};
use crate::error::ErrorCode;
use crate::state::{GlobalConfig, UserAccount};
use crate::token::{Address, Authority, Token, TokenAccount, TokenInstruction};

verus! {

/// The payout of a settled reward: one transfer from the reward vault to the
/// user under the ledger's own authority, or nothing for a reward of zero.
pub open spec fn reward_payout(reward: u64, bump: u8) -> Seq<TokenInstruction> {
    if reward > 0 {
        seq![
            TokenInstruction::Transfer {
                from: TokenAccount::LxrVaultRewards,
                to: TokenAccount::UserLxr,
                mint: Token::Lxr,
                amount: reward,
                authority: Authority::GlobalConfig { bump },
            },
        ]
    } else {
        Seq::empty()
    }
}

/// The deposit of a stake: one transfer from the user to the staking vault,
/// signed by the user, or nothing for an amount of zero.
pub open spec fn stake_deposit(amount: u64) -> Seq<TokenInstruction> {
    if amount > 0 {
        seq![
            TokenInstruction::Transfer {
                from: TokenAccount::UserXls,
                to: TokenAccount::XlsVaultStaking,
                mint: Token::Xls,
                amount,
                authority: Authority::User,
            },
        ]
    } else {
        Seq::empty()
    }
}

/// The return of a stake: one transfer from the staking vault to the user
/// under the ledger's own authority, or nothing for an amount of zero.
pub open spec fn stake_withdrawal(amount: u64, bump: u8) -> Seq<TokenInstruction> {
    if amount > 0 {
        seq![
            TokenInstruction::Transfer {
                from: TokenAccount::XlsVaultStaking,
                to: TokenAccount::UserXls,
                mint: Token::Xls,
                amount,
                authority: Authority::GlobalConfig { bump },
            },
        ]
    } else {
        Seq::empty()
    }
}

/// What staking `amount` does to the ledger and the position, and what it
/// asks of the token service.
///
/// The reward is settled on the stake before the deposit; the new debt is
/// taken on the stake after it.
pub open spec fn stake_spec(config: GlobalConfig, user: UserAccount, amount: u64) -> Result<
    (GlobalConfig, UserAccount, Seq<TokenInstruction>),
    ErrorCode,
> {
    match pending_spec(user.staked_xls, config.acc_rewards_per_share, user.reward_debt) {
        Err(e) => Err(e),
        Ok(reward) => {
            if user.staked_xls + amount > u64::MAX || config.total_staked_xls + amount > u64::MAX {
                Err(ErrorCode::ArithmeticOverflow)
            } else {
                let staked = (user.staked_xls + amount) as u64;
                match reward_debt_spec(staked, config.acc_rewards_per_share) {
                    Err(e) => Err(e),
                    Ok(debt) => Ok(
                        (
                            GlobalConfig {
                                total_staked_xls: (config.total_staked_xls + amount) as u64,
                                ..config
                            },
                            UserAccount { staked_xls: staked, reward_debt: debt, ..user },
                            reward_payout(reward, config.bump) + stake_deposit(amount),
                        ),
                    ),
                }
            }
        },
    }
}

/// What unstaking `amount` does to the ledger and the position, and what it
/// asks of the token service.
pub open spec fn unstake_spec(config: GlobalConfig, user: UserAccount, amount: u64) -> Result<
    (GlobalConfig, UserAccount, Seq<TokenInstruction>),
    ErrorCode,
> {
    if amount > user.staked_xls {
        Err(ErrorCode::InsufficientFunds)
    } else {
        match pending_spec(user.staked_xls, config.acc_rewards_per_share, user.reward_debt) {
            Err(e) => Err(e),
            Ok(reward) => {
                if amount > config.total_staked_xls {
                    Err(ErrorCode::ArithmeticUnderflow)
                } else {
                    let staked = (user.staked_xls - amount) as u64;
                    match reward_debt_spec(staked, config.acc_rewards_per_share) {
                        Err(e) => Err(e),
                        Ok(debt) => Ok(
                            (
                                GlobalConfig {
                                    total_staked_xls: (config.total_staked_xls - amount) as u64,
                                    ..config
                                },
                                UserAccount { staked_xls: staked, reward_debt: debt, ..user },
                                reward_payout(reward, config.bump) + stake_withdrawal(
                                    amount,
                                    config.bump,
                                ),
                            ),
                        ),
                    }
                }
            },
        }
    }
}

/// Builds the instructions of one settlement followed by one movement of
/// stake.
fn settlement_orders(
    config: &GlobalConfig,
    reward: u64,
    movement: Option<TokenInstruction>,
) -> (out: Vec<TokenInstruction>)
    ensures
        out@ == reward_payout(reward, config.bump) + match movement {
            Some(m) => seq![m],
            None => Seq::empty(),
        },
{
    let mut orders: Vec<TokenInstruction> = Vec::new();
    if reward > 0 {
        orders.push(
            TokenInstruction::Transfer {
                from: TokenAccount::LxrVaultRewards,
                to: TokenAccount::UserLxr,
                mint: Token::Lxr,
                amount: reward,
                authority: config.authority(),
            },
        );
    }
    match movement {
        Some(m) => {
            orders.push(m);
        },
        None => {},
    }
    assert(orders@ =~= reward_payout(reward, config.bump) + match movement {
        Some(m) => seq![m],
        None => Seq::empty(),
    });
    orders
}

/// Opens the position of `owner` in an empty slot, with no stake and no
/// debt. A slot that holds a position already is left as it is, and the call
/// is rejected.
pub fn init_user_handler(
    user_account: &mut Option<UserAccount>,
    owner: Address,
    bump: u8,
) -> (out: Result<(), ErrorCode>)
    ensures
        *old(user_account) is Some ==> out == Err::<(), ErrorCode>(
            ErrorCode::AlreadyInitialized,
        ) && *final(user_account) == *old(user_account),
        *old(user_account) is None ==> out is Ok && *final(user_account) == Some(
            UserAccount { owner, staked_xls: 0, reward_debt: 0, bump },
        ),
        out is Ok ==> forall|acc: u128| (#[trigger] final(user_account)->Some_0.settled_at(acc)),
{
    if user_account.is_some() {
        return Err(ErrorCode::AlreadyInitialized);
    }
    *user_account = Some(UserAccount { owner, staked_xls: 0, reward_debt: 0, bump });
    Ok(())
}

/// Stakes `amount` on a position.
///
/// The pending reward is computed on the stake before the deposit and paid
/// from the reward vault; the amount moves from the user to the staking
/// vault and is added to the position and to the ledger's total; the debt is
/// then set to what the new stake has earned. Any arithmetic failure rejects
/// the call and leaves both records as they were.
pub fn stake_handler(
    global_config: &mut GlobalConfig,
    user_account: &mut UserAccount,
    amount: u64,
) -> (out: Result<Vec<TokenInstruction>, ErrorCode>)
    ensures
        match stake_spec(*old(global_config), *old(user_account), amount) {
            Ok((config, user, orders)) => {
                &&& out matches Ok(v) && v@ == orders
                &&& *final(global_config) == config
                &&& *final(user_account) == user
            },
            Err(e) => {
                &&& out == Err::<Vec<TokenInstruction>, ErrorCode>(e)
                &&& *final(global_config) == *old(global_config)
                &&& *final(user_account) == *old(user_account)
            },
        },
        out is Ok ==> final(user_account).settled_at(final(global_config).acc_rewards_per_share),
        final(global_config).acc_rewards_per_share == old(global_config).acc_rewards_per_share,
{
    let acc: u128 = global_config.acc_rewards_per_share;
    let reward: u64 = match pending(user_account.staked_xls, acc, user_account.reward_debt) {
        Ok(r) => r,
        Err(e) => { return Err(e); },
    };
    let staked: u64 = match user_account.staked_xls.checked_add(amount) {
        Some(s) => s,
        None => { return Err(ErrorCode::ArithmeticOverflow); },
    };
    let total: u64 = match global_config.total_staked_xls.checked_add(amount) {
        Some(t) => t,
        None => { return Err(ErrorCode::ArithmeticOverflow); },
    };
    let debt: u128 = match reward_debt(staked, acc) {
        Ok(d) => d,
        Err(e) => { return Err(e); },
    };
    let movement: Option<TokenInstruction> = if amount > 0 {
        Some(
            TokenInstruction::Transfer {
                from: TokenAccount::UserXls,
                to: TokenAccount::XlsVaultStaking,
                mint: Token::Xls,
                amount,
                authority: Authority::User,
            },
        )
    } else {
        None
    };
    let orders = settlement_orders(global_config, reward, movement);
    user_account.staked_xls = staked;
    user_account.reward_debt = debt;
    global_config.total_staked_xls = total;
    Ok(orders)
}

/// Unstakes `amount` from a position.
///
/// An amount above the position's stake is rejected as insufficient funds.
/// Otherwise the pending reward is settled, also for an amount of zero; the
/// amount moves from the staking vault back to the user and is taken from
/// the position and from the ledger's total; the debt is then set to what
/// the remaining stake has earned.
pub fn unstake_handler(
    global_config: &mut GlobalConfig,
    user_account: &mut UserAccount,
    amount: u64,
) -> (out: Result<Vec<TokenInstruction>, ErrorCode>)
    ensures
        match unstake_spec(*old(global_config), *old(user_account), amount) {
            Ok((config, user, orders)) => {
                &&& out matches Ok(v) && v@ == orders
                &&& *final(global_config) == config
                &&& *final(user_account) == user
            },
            Err(e) => {
                &&& out == Err::<Vec<TokenInstruction>, ErrorCode>(e)
                &&& *final(global_config) == *old(global_config)
                &&& *final(user_account) == *old(user_account)
            },
        },
        out is Ok ==> final(user_account).settled_at(final(global_config).acc_rewards_per_share),
        final(global_config).acc_rewards_per_share == old(global_config).acc_rewards_per_share,
{
    if amount > user_account.staked_xls {
        return Err(ErrorCode::InsufficientFunds);
    }
    let acc: u128 = global_config.acc_rewards_per_share;
    let reward: u64 = match pending(user_account.staked_xls, acc, user_account.reward_debt) {
        Ok(r) => r,
        Err(e) => { return Err(e); },
    };
    let staked: u64 = user_account.staked_xls - amount;
    let total: u64 = match global_config.total_staked_xls.checked_sub(amount) {
        Some(t) => t,
        None => { return Err(ErrorCode::ArithmeticUnderflow); },
    };
    let debt: u128 = match reward_debt(staked, acc) {
        Ok(d) => d,
        Err(e) => { return Err(e); },
    };
    let movement: Option<TokenInstruction> = if amount > 0 {
        Some(
            TokenInstruction::Transfer {
                from: TokenAccount::XlsVaultStaking,
                to: TokenAccount::UserXls,
                mint: Token::Xls,
                amount,
                authority: global_config.authority(),
            },
        )
    } else {
        None
    };
    let orders = settlement_orders(global_config, reward, movement);
    user_account.staked_xls = staked;
    user_account.reward_debt = debt;
    global_config.total_staked_xls = total;
    Ok(orders)
}

} // verus!
