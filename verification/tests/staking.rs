use excelsior::accumulator::{pending, reward_debt, share_delta, PRECISION};
use excelsior::instructions::admin_ops::distribute_rent_handler;
use excelsior::instructions::stake::{init_user_handler, stake_handler, unstake_handler};
use excelsior::state::{GlobalConfig, UserAccount};
use excelsior::token::{Authority, Token, TokenAccount, TokenInstruction};
use excelsior::ErrorCode;

const ADMIN: [u8; 32] = [7; 32];

fn ledger(total_staked_xls: u64, acc_rewards_per_share: u128) -> GlobalConfig {
    GlobalConfig {
        admin: ADMIN,
        xls_mint: [1; 32],
        lxr_mint: [2; 32],
        rwa_vault_lxr: [3; 32],
        xls_vault_supply: [4; 32],
        rwa_wallet: [5; 32],
        founder_wallet: [6; 32],
        fee_basis_points: 100,
        max_fee_basis_points: 300,
        total_lxr_burned: 0,
        total_staked_xls,
        acc_rewards_per_share,
        last_inflation_timestamp: 0,
        lxr_vault_rewards: [8; 32],
        bump: 254,
    }
}

fn position(staked_xls: u64, reward_debt: u128) -> UserAccount {
    UserAccount { owner: [9; 32], staked_xls, reward_debt, bump: 253 }
}

fn reward(amount: u64) -> TokenInstruction {
    TokenInstruction::Transfer {
        from: TokenAccount::LxrVaultRewards,
        to: TokenAccount::UserLxr,
        mint: Token::Lxr,
        amount,
        authority: Authority::GlobalConfig { bump: 254 },
    }
}

fn deposit(amount: u64) -> TokenInstruction {
    TokenInstruction::Transfer {
        from: TokenAccount::UserXls,
        to: TokenAccount::XlsVaultStaking,
        mint: Token::Xls,
        amount,
        authority: Authority::User,
    }
}

fn withdrawal(amount: u64) -> TokenInstruction {
    TokenInstruction::Transfer {
        from: TokenAccount::XlsVaultStaking,
        to: TokenAccount::UserXls,
        mint: Token::Xls,
        amount,
        authority: Authority::GlobalConfig { bump: 254 },
    }
}

#[test]
fn precision_is_ten_to_the_twelfth() {
    assert_eq!(PRECISION, 1_000_000_000_000);
}

#[test]
fn pending_of_a_fresh_share() {
    assert_eq!(pending(10_000, 40_000_000_000, 0), Ok(400));
}

#[test]
fn pending_rounds_down() {
    // 3 * 333_333_333_333 / 1e12 = 0.999...
    assert_eq!(pending(3, 333_333_333_333, 0), Ok(0));
    assert_eq!(pending(3, 333_333_333_334, 0), Ok(1));
}

#[test]
fn pending_subtracts_the_debt() {
    assert_eq!(pending(10_000, 40_000_000_000, 150), Ok(250));
    assert_eq!(pending(10_000, 40_000_000_000, 400), Ok(0));
}

#[test]
fn pending_rejects_a_debt_above_the_accrued_reward() {
    assert_eq!(pending(10_000, 40_000_000_000, 401), Err(ErrorCode::ArithmeticUnderflow));
    assert_eq!(pending(0, 40_000_000_000, 1), Err(ErrorCode::ArithmeticUnderflow));
}

#[test]
fn pending_rejects_a_product_beyond_128_bits() {
    assert_eq!(pending(2, u128::MAX, 0), Err(ErrorCode::ArithmeticOverflow));
    assert_eq!(pending(u64::MAX, u128::MAX, 0), Err(ErrorCode::ArithmeticOverflow));
}

#[test]
fn pending_rejects_a_reward_beyond_64_bits() {
    // one unit staked, accumulator worth 2^64 whole tokens per unit
    let acc: u128 = (1u128 << 64) * PRECISION;
    assert_eq!(pending(1, acc, 0), Err(ErrorCode::ArithmeticOverflow));
    assert_eq!(pending(1, acc, 1), Ok(u64::MAX));
}

#[test]
fn reward_debt_is_the_accrued_reward() {
    assert_eq!(reward_debt(10_000, 40_000_000_000), Ok(400));
    assert_eq!(reward_debt(0, u128::MAX), Ok(0));
    assert_eq!(reward_debt(1, u128::MAX), Ok(u128::MAX / PRECISION));
    assert_eq!(reward_debt(u64::MAX, u128::MAX), Err(ErrorCode::ArithmeticOverflow));
}

#[test]
fn share_delta_scales_and_divides() {
    assert_eq!(share_delta(40_000, 1_000_000), 40_000_000_000);
    assert_eq!(share_delta(1, 3), 333_333_333_333);
    assert_eq!(share_delta(40_000, 0), 0);
    assert_eq!(share_delta(u64::MAX, 1), (u64::MAX as u128) * PRECISION);
}

#[test]
fn open_position_starts_empty() {
    let mut slot: Option<UserAccount> = None;
    assert_eq!(init_user_handler(&mut slot, [9; 32], 253), Ok(()));
    assert_eq!(slot, Some(position(0, 0)));
}

#[test]
fn open_position_fails_if_one_exists() {
    let mut slot: Option<UserAccount> = Some(position(50, 2));
    assert_eq!(init_user_handler(&mut slot, [9; 32], 1), Err(ErrorCode::AlreadyInitialized));
    assert_eq!(slot, Some(position(50, 2)));
}

#[test]
fn distribution_then_pending_scenario() {
    let mut config = ledger(1_000_000, 0);
    let orders = distribute_rent_handler(&mut config, &ADMIN, 100_000).unwrap();
    assert_eq!(config.acc_rewards_per_share, 40_000_000_000);
    assert_eq!(orders.len(), 2);
    assert_eq!(pending(10_000, config.acc_rewards_per_share, 0), Ok(400));
}

#[test]
fn stake_settles_then_deposits_then_resets_debt() {
    let mut config = ledger(1_000_000, 40_000_000_000);
    let mut user = position(10_000, 0);
    let orders = stake_handler(&mut config, &mut user, 5_000).unwrap();
    assert_eq!(orders, vec![reward(400), deposit(5_000)]);
    assert_eq!(user.staked_xls, 15_000);
    assert_eq!(config.total_staked_xls, 1_005_000);
    // debt on the stake after the deposit: 15_000 * 0.04
    assert_eq!(user.reward_debt, 600);
    assert_eq!(config.acc_rewards_per_share, 40_000_000_000);
}

#[test]
fn stake_on_an_empty_position_pays_nothing() {
    let mut config = ledger(0, 40_000_000_000);
    let mut user = position(0, 0);
    let orders = stake_handler(&mut config, &mut user, 250).unwrap();
    assert_eq!(orders, vec![deposit(250)]);
    assert_eq!(user, position(250, 10));
    assert_eq!(config.total_staked_xls, 250);
}

#[test]
fn stake_of_zero_only_settles() {
    let mut config = ledger(10_000, 40_000_000_000);
    let mut user = position(10_000, 100);
    let orders = stake_handler(&mut config, &mut user, 0).unwrap();
    assert_eq!(orders, vec![reward(300)]);
    assert_eq!(user, position(10_000, 400));
    assert_eq!(config.total_staked_xls, 10_000);
}

#[test]
fn stake_with_nothing_pending_and_nothing_staked_asks_for_nothing() {
    let mut config = ledger(10_000, 40_000_000_000);
    let mut user = position(10_000, 400);
    let orders = stake_handler(&mut config, &mut user, 0).unwrap();
    assert_eq!(orders, vec![]);
    assert_eq!(user, position(10_000, 400));
}

#[test]
fn stake_overflow_changes_nothing() {
    let mut config = ledger(10, 0);
    let mut user = position(10, 0);
    assert_eq!(stake_handler(&mut config, &mut user, u64::MAX), Err(ErrorCode::ArithmeticOverflow));
    assert_eq!(user, position(10, 0));
    assert_eq!(config, ledger(10, 0));

    let mut config = ledger(u64::MAX, 0);
    let mut user = position(10, 0);
    assert_eq!(stake_handler(&mut config, &mut user, 1), Err(ErrorCode::ArithmeticOverflow));
    assert_eq!(user, position(10, 0));
    assert_eq!(config, ledger(u64::MAX, 0));
}

#[test]
fn stake_with_inconsistent_debt_is_rejected() {
    let mut config = ledger(10_000, 40_000_000_000);
    let mut user = position(10_000, 401);
    assert_eq!(stake_handler(&mut config, &mut user, 5), Err(ErrorCode::ArithmeticUnderflow));
    assert_eq!(user, position(10_000, 401));
    assert_eq!(config, ledger(10_000, 40_000_000_000));
}

#[test]
fn stake_rejects_a_new_debt_beyond_128_bits() {
    let acc: u128 = u128::MAX / 2;
    let mut config = ledger(1, acc);
    let debt = acc / PRECISION;
    let mut user = position(1, debt);
    // settling one unit fits, the debt of three units does not
    assert_eq!(stake_handler(&mut config, &mut user, 2), Err(ErrorCode::ArithmeticOverflow));
    assert_eq!(user, position(1, debt));
    assert_eq!(config, ledger(1, acc));
}

#[test]
fn unstake_settles_then_returns_then_resets_debt() {
    let mut config = ledger(1_000_000, 40_000_000_000);
    let mut user = position(10_000, 0);
    let orders = unstake_handler(&mut config, &mut user, 4_000).unwrap();
    assert_eq!(orders, vec![reward(400), withdrawal(4_000)]);
    assert_eq!(user, position(6_000, 240));
    assert_eq!(config.total_staked_xls, 996_000);
}

#[test]
fn unstake_of_zero_flushes_the_pending_reward() {
    let mut config = ledger(10_000, 40_000_000_000);
    let mut user = position(10_000, 0);
    let orders = unstake_handler(&mut config, &mut user, 0).unwrap();
    assert_eq!(orders, vec![reward(400)]);
    assert_eq!(user, position(10_000, 400));
    assert_eq!(config.total_staked_xls, 10_000);
}

#[test]
fn unstake_everything_leaves_no_debt() {
    let mut config = ledger(10_000, 40_000_000_000);
    let mut user = position(10_000, 400);
    let orders = unstake_handler(&mut config, &mut user, 10_000).unwrap();
    assert_eq!(orders, vec![withdrawal(10_000)]);
    assert_eq!(user, position(0, 0));
    assert_eq!(config.total_staked_xls, 0);
}

#[test]
fn unstake_more_than_staked_fails_and_changes_nothing() {
    let mut config = ledger(1_000_000, 40_000_000_000);
    let mut user = position(10_000, 123);
    assert_eq!(
        unstake_handler(&mut config, &mut user, 10_001),
        Err(ErrorCode::InsufficientFunds)
    );
    assert_eq!(user.staked_xls, 10_000);
    assert_eq!(user.reward_debt, 123);
    assert_eq!(config.total_staked_xls, 1_000_000);
    assert_eq!(config, ledger(1_000_000, 40_000_000_000));
}

#[test]
fn unstake_beyond_the_ledger_total_is_an_underflow() {
    let mut config = ledger(5, 0);
    let mut user = position(10, 0);
    assert_eq!(unstake_handler(&mut config, &mut user, 6), Err(ErrorCode::ArithmeticUnderflow));
    assert_eq!(user, position(10, 0));
    assert_eq!(config, ledger(5, 0));
}

#[test]
fn total_staked_is_the_sum_of_all_positions() {
    let mut config = ledger(0, 0);
    let mut alice = position(0, 0);
    let mut bob = position(0, 0);
    let mut carol = position(0, 0);
    stake_handler(&mut config, &mut alice, 700).unwrap();
    stake_handler(&mut config, &mut bob, 200).unwrap();
    distribute_rent_handler(&mut config, &ADMIN, 1_000).unwrap();
    stake_handler(&mut config, &mut carol, 100).unwrap();
    unstake_handler(&mut config, &mut alice, 300).unwrap();
    assert!(unstake_handler(&mut config, &mut bob, 201).is_err());
    distribute_rent_handler(&mut config, &ADMIN, 5_000).unwrap();
    unstake_handler(&mut config, &mut bob, 200).unwrap();
    stake_handler(&mut config, &mut carol, 900).unwrap();
    assert_eq!(alice.staked_xls, 400);
    assert_eq!(bob.staked_xls, 0);
    assert_eq!(carol.staked_xls, 1_000);
    assert_eq!(
        config.total_staked_xls,
        alice.staked_xls + bob.staked_xls + carol.staked_xls
    );
}

#[test]
fn debt_matches_stake_and_accumulator_after_every_settlement() {
    let mut config = ledger(0, 0);
    let mut user = position(0, 0);
    let amounts: [u64; 4] = [1_000, 0, 333, 77];
    for amount in amounts {
        stake_handler(&mut config, &mut user, amount).unwrap();
        assert_eq!(
            user.reward_debt,
            user.staked_xls as u128 * config.acc_rewards_per_share / PRECISION
        );
        distribute_rent_handler(&mut config, &ADMIN, 12_345).unwrap();
        unstake_handler(&mut config, &mut user, amount / 2).unwrap();
        assert_eq!(
            user.reward_debt,
            user.staked_xls as u128 * config.acc_rewards_per_share / PRECISION
        );
    }
}

#[test]
fn accumulator_never_falls() {
    let mut config = ledger(0, 0);
    let mut user = position(0, 0);
    let mut last = config.acc_rewards_per_share;
    for round in 0..6u64 {
        stake_handler(&mut config, &mut user, 10 + round).unwrap();
        assert!(config.acc_rewards_per_share >= last);
        last = config.acc_rewards_per_share;
        distribute_rent_handler(&mut config, &ADMIN, 1_000 * round).unwrap();
        assert!(config.acc_rewards_per_share >= last);
        last = config.acc_rewards_per_share;
        unstake_handler(&mut config, &mut user, round).unwrap();
        assert!(config.acc_rewards_per_share >= last);
        last = config.acc_rewards_per_share;
    }
    assert!(last > 0);
}

#[test]
fn rewards_are_shared_in_proportion_to_stake() {
    let mut config = ledger(0, 0);
    let mut small = position(0, 0);
    let mut large = position(0, 0);
    stake_handler(&mut config, &mut small, 1_000).unwrap();
    stake_handler(&mut config, &mut large, 3_000).unwrap();
    distribute_rent_handler(&mut config, &ADMIN, 10_000).unwrap();
    // 4_000 to the stakers: one token per staked unit
    assert_eq!(config.acc_rewards_per_share, PRECISION);
    assert_eq!(unstake_handler(&mut config, &mut small, 0).unwrap(), vec![reward(1_000)]);
    assert_eq!(unstake_handler(&mut config, &mut large, 0).unwrap(), vec![reward(3_000)]);
    // settled: a second touch pays nothing
    assert_eq!(unstake_handler(&mut config, &mut small, 0).unwrap(), vec![]);
}
