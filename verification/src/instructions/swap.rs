//! Buying XLS for LXR at the fixed price, and redeeming it at book value.

use vstd::prelude::*;
use crate::error::ErrorCode;
use crate::state::GlobalConfig;
use crate::token::{Authority, Token, TokenAccount, TokenInstruction};

verus! {

/// Price of one unit of XLS in units of LXR.
pub const LXR_PER_XLS: u64 = 1_000_000;

/// Share of the purchase price that is burned, in percent; the rest enters
/// the reserve vault. Valid range: 0 to 100.
pub const BURN_PERCENT: u64 = 30;

/// What the reserve pays back for one redeemed unit of XLS, in units of LXR.
pub const REDEMPTION_LXR_PER_XLS: u64 = 700_000;

/// The price of `amount_xls` units.
pub open spec fn purchase_price(amount_xls: u64) -> int {
    amount_xls as int * LXR_PER_XLS as int
}

/// The part of the price of `amount_xls` units that is burned, rounded down.
pub open spec fn burn_share(amount_xls: u64) -> int {
    purchase_price(amount_xls) * BURN_PERCENT as int / 100
}

/// The part of the price of `amount_xls` units that enters the reserve
/// vault.
pub open spec fn vault_share(amount_xls: u64) -> int {
    purchase_price(amount_xls) - burn_share(amount_xls)
}

/// What buying `amount_xls` units does to the ledger, and what it asks of the
/// token service.
pub open spec fn buy_spec(config: GlobalConfig, amount_xls: u64) -> Result<
    (GlobalConfig, Seq<TokenInstruction>),
    ErrorCode,
> {
    if purchase_price(amount_xls) * BURN_PERCENT as int > u64::MAX as int
        || config.total_lxr_burned as int + burn_share(amount_xls) > u64::MAX as int {
        Err(ErrorCode::ArithmeticOverflow)
    } else {
        Ok(
            (
                GlobalConfig {
                    total_lxr_burned: (config.total_lxr_burned as int + burn_share(
                        amount_xls,
                    )) as u64,
                    ..config
                },
                seq![
                    TokenInstruction::Transfer {
                        from: TokenAccount::UserLxr,
                        to: TokenAccount::RwaVaultLxr,
                        mint: Token::Lxr,
                        amount: vault_share(amount_xls) as u64,
                        authority: Authority::User,
                    },
                    TokenInstruction::Burn {
                        mint: Token::Lxr,
                        from: TokenAccount::UserLxr,
                        amount: burn_share(amount_xls) as u64,
                        authority: Authority::User,
                    },
                    TokenInstruction::Transfer {
                        from: TokenAccount::XlsVaultSupply,
                        to: TokenAccount::UserXls,
                        mint: Token::Xls,
                        amount: amount_xls,
                        authority: Authority::GlobalConfig { bump: config.bump },
                    },
                ],
            ),
        )
    }
}

/// Buys `amount_xls` units at the fixed price.
///
/// The burned share of the price is burned from the user's account and added
/// to the ledger's counter, the rest is moved to the reserve vault, and the
/// units bought are paid from the supply vault under the ledger's authority.
pub fn buy_handler(
    global_config: &mut GlobalConfig,
    amount_xls: u64,
) -> (out: Result<Vec<TokenInstruction>, ErrorCode>)
    ensures
        match buy_spec(*old(global_config), amount_xls) {
            Ok((config, orders)) => {
                &&& out matches Ok(v) && v@ == orders
                &&& *final(global_config) == config
            },
            Err(e) => {
                &&& out == Err::<Vec<TokenInstruction>, ErrorCode>(e)
                &&& *final(global_config) == *old(global_config)
            },
        },
        final(global_config).total_lxr_burned >= old(global_config).total_lxr_burned,
        final(global_config).acc_rewards_per_share == old(global_config).acc_rewards_per_share,
        final(global_config).total_staked_xls == old(global_config).total_staked_xls,
{
    let price: u64 = match amount_xls.checked_mul(LXR_PER_XLS) {
        Some(p) => p,
        None => { return Err(ErrorCode::ArithmeticOverflow); },
    };
    let scaled: u64 = match price.checked_mul(BURN_PERCENT) {
        Some(s) => s,
        None => { return Err(ErrorCode::ArithmeticOverflow); },
    };
    let burned: u64 = scaled / 100;
    let to_vault: u64 = price - burned;
    let total_burned: u64 = match global_config.total_lxr_burned.checked_add(burned) {
        Some(t) => t,
        None => { return Err(ErrorCode::ArithmeticOverflow); },
    };
    let mut orders: Vec<TokenInstruction> = Vec::new();
    orders.push(
        TokenInstruction::Transfer {
            from: TokenAccount::UserLxr,
            to: TokenAccount::RwaVaultLxr,
            mint: Token::Lxr,
            amount: to_vault,
            authority: Authority::User,
        },
    );
    orders.push(
        TokenInstruction::Burn {
            mint: Token::Lxr,
            from: TokenAccount::UserLxr,
            amount: burned,
            authority: Authority::User,
        },
    );
    orders.push(
        TokenInstruction::Transfer {
            from: TokenAccount::XlsVaultSupply,
            to: TokenAccount::UserXls,
            mint: Token::Xls,
            amount: amount_xls,
            authority: global_config.authority(),
        },
    );
    assert(orders@ =~= buy_spec(*global_config, amount_xls)->Ok_0.1);
    global_config.total_lxr_burned = total_burned;
    Ok(orders)
}

/// What the reserve pays back for `amount_xls` redeemed units.
pub open spec fn redemption_value(amount_xls: u64) -> int {
    amount_xls as int * REDEMPTION_LXR_PER_XLS as int
}

/// What redeeming `amount_xls` units asks of the token service.
pub open spec fn redeem_spec(config: GlobalConfig, amount_xls: u64) -> Result<
    Seq<TokenInstruction>,
    ErrorCode,
> {
    if redemption_value(amount_xls) > u64::MAX as int {
        Err(ErrorCode::ArithmeticOverflow)
    } else {
        Ok(
            seq![
                TokenInstruction::Burn {
                    mint: Token::Xls,
                    from: TokenAccount::UserXls,
                    amount: amount_xls,
                    authority: Authority::User,
                },
                TokenInstruction::Transfer {
                    from: TokenAccount::RwaVaultLxr,
                    to: TokenAccount::UserLxr,
                    mint: Token::Lxr,
                    amount: redemption_value(amount_xls) as u64,
                    authority: Authority::GlobalConfig { bump: config.bump },
                },
            ],
        )
    }
}

/// Redeems `amount_xls` units at book value: the units are burned from the
/// user's account, and the reserve vault pays the fixed value of each back
/// under the ledger's authority. The ledger record does not change.
pub fn redeem_handler(
    global_config: &GlobalConfig,
    amount_xls: u64,
) -> (out: Result<Vec<TokenInstruction>, ErrorCode>)
    ensures
        match redeem_spec(*global_config, amount_xls) {
            Ok(orders) => out matches Ok(v) && v@ == orders,
            Err(e) => out == Err::<Vec<TokenInstruction>, ErrorCode>(e),
        },
{
    let value: u64 = match amount_xls.checked_mul(REDEMPTION_LXR_PER_XLS) {
        Some(v) => v,
        None => { return Err(ErrorCode::ArithmeticOverflow); },
    };
    let mut orders: Vec<TokenInstruction> = Vec::new();
    orders.push(
        TokenInstruction::Burn {
            mint: Token::Xls,
            from: TokenAccount::UserXls,
            amount: amount_xls,
            authority: Authority::User,
        },
    );
    orders.push(
        TokenInstruction::Transfer {
            from: TokenAccount::RwaVaultLxr,
            to: TokenAccount::UserLxr,
            mint: Token::Lxr,
            amount: value,
            authority: global_config.authority(),
        },
    );
    assert(orders@ =~= redeem_spec(*global_config, amount_xls)->Ok_0);
    Ok(orders)
}

} // verus!
