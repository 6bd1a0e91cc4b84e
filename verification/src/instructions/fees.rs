//! Harvesting withheld fees: half of what arrived in the reserve vault goes
//! to the founder.

use vstd::prelude::*;
use crate::error::ErrorCode;
use crate::state::GlobalConfig;
use crate::token::{same_bytes, Address, Authority, Token, TokenAccount, TokenInstruction};

verus! {

/// What arrived in the vault between two readings of its balance; nothing
/// where the balance fell.
pub open spec fn harvested_amount(pre_balance: u64, post_balance: u64) -> int {
    if post_balance >= pre_balance {
        post_balance - pre_balance
    } else {
        0
    }
}

/// The founder's half of what was harvested, rounded down.
pub open spec fn founder_share(pre_balance: u64, post_balance: u64) -> int {
    harvested_amount(pre_balance, post_balance) / 2
}

/// What a harvest asks of the token service.
pub open spec fn harvest_spec(
    config: GlobalConfig,
    admin: Address,
    pre_balance: u64,
    post_balance: u64,
) -> Result<
    Seq<TokenInstruction>,
    ErrorCode,
> {
    if admin != config.admin {
        Err(ErrorCode::Unauthorized)
    } else if founder_share(pre_balance, post_balance) > 0 {
        Ok(
            seq![
                TokenInstruction::Transfer {
                    from: TokenAccount::RwaVaultLxr,
                    to: TokenAccount::FounderWallet,
                    mint: Token::Lxr,
                    amount: founder_share(pre_balance, post_balance) as u64,
                    authority: Authority::GlobalConfig { bump: config.bump },
                },
            ],
        )
    } else {
        Ok(Seq::empty())
    }
}

/// Splits the fees that arrived in the reserve vault between the reading
/// `pre_balance` and the reading `post_balance`.
///
/// Half of them, rounded down, is paid to the founder under the ledger's
/// authority; the rest stays in the vault. Where nothing arrived, or the half
/// rounds to zero, nothing is asked of the token service.
pub fn harvest_handler(
    global_config: &GlobalConfig,
    admin: &Address,
    pre_balance: u64,
    post_balance: u64,
) -> (out: Result<Vec<TokenInstruction>, ErrorCode>)
    ensures
        match harvest_spec(*global_config, *admin, pre_balance, post_balance) {
            Ok(orders) => out matches Ok(v) && v@ == orders,
            Err(e) => out == Err::<Vec<TokenInstruction>, ErrorCode>(e),
        },
{
    if !same_bytes(admin, &global_config.admin) {
        return Err(ErrorCode::Unauthorized);
    }
    let harvested: u64 = post_balance.saturating_sub(pre_balance);
    let mut orders: Vec<TokenInstruction> = Vec::new();
    if harvested == 0 {
        return Ok(orders);
    }
    let share: u64 = harvested / 2;
    if share > 0 {
        orders.push(
            TokenInstruction::Transfer {
                from: TokenAccount::RwaVaultLxr,
                to: TokenAccount::FounderWallet,
                mint: Token::Lxr,
                amount: share,
                authority: global_config.authority(),
            },
        );
        assert(orders@ =~= harvest_spec(*global_config, *admin, pre_balance, post_balance)->Ok_0);
    }
    Ok(orders)
}

} // verus!
