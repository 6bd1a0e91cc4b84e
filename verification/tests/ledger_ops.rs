use excelsior::instructions::admin_ops::{
    distribute_rent_handler, split_rent, trigger_inflation_handler, upgrade_config_handler,
    UpgradeConfig, INFLATION_INTERVAL, INFLATION_PER_MILLE, RESERVE_PERCENT,
};
use excelsior::instructions::fees::harvest_handler;
use excelsior::instructions::init_ix::{handler, InitParams, Initialize, MAX_FEE_BASIS_POINTS};
use excelsior::instructions::swap::{
    buy_handler, redeem_handler, BURN_PERCENT, LXR_PER_XLS, REDEMPTION_LXR_PER_XLS,
};
use excelsior::state::{GlobalConfig, UserAccount};
use excelsior::token::{same_bytes, Authority, Token, TokenAccount, TokenInstruction};
use excelsior::ErrorCode;

const ADMIN: [u8; 32] = [7; 32];
const STRANGER: [u8; 32] = [66; 32];

fn accounts() -> Initialize {
    Initialize {
        admin: ADMIN,
        rwa_wallet: [5; 32],
        founder_wallet: [6; 32],
        xls_mint: [1; 32],
        lxr_mint: [2; 32],
        rwa_vault_lxr: [3; 32],
        xls_vault_supply: [4; 32],
        lxr_vault_rewards: [8; 32],
        bump: 254,
    }
}

fn fresh() -> GlobalConfig {
    let mut slot: Option<GlobalConfig> = None;
    handler(&mut slot, &accounts(), InitParams { fee_basis_points: 100 }, 1_700_000_000).unwrap();
    slot.unwrap()
}

fn to_reserve(amount: u64) -> TokenInstruction {
    TokenInstruction::Transfer {
        from: TokenAccount::AdminLxr,
        to: TokenAccount::RwaVaultLxr,
        mint: Token::Lxr,
        amount,
        authority: Authority::Admin,
    }
}

fn to_rewards(amount: u64) -> TokenInstruction {
    TokenInstruction::Transfer {
        from: TokenAccount::AdminLxr,
        to: TokenAccount::LxrVaultRewards,
        mint: Token::Lxr,
        amount,
        authority: Authority::Admin,
    }
}

#[test]
fn named_parameters_have_their_documented_values() {
    assert_eq!(RESERVE_PERCENT, 60);
    assert_eq!(INFLATION_INTERVAL, 5 * 365 * 24 * 60 * 60);
    assert_eq!(INFLATION_PER_MILLE, 25);
    assert_eq!(MAX_FEE_BASIS_POINTS, 300);
    assert_eq!(LXR_PER_XLS, 1_000_000);
    assert_eq!(BURN_PERCENT, 30);
    assert_eq!(REDEMPTION_LXR_PER_XLS, 700_000);
    assert_eq!(GlobalConfig::LEN, 309);
    assert_eq!(UserAccount::LEN, 65);
}

#[test]
fn initialize_fills_the_ledger() {
    let config = fresh();
    assert_eq!(
        config,
        GlobalConfig {
            admin: ADMIN,
            xls_mint: [1; 32],
            lxr_mint: [2; 32],
            rwa_vault_lxr: [3; 32],
            xls_vault_supply: [4; 32],
            rwa_wallet: [5; 32],
            founder_wallet: [6; 32],
            fee_basis_points: 100,
            max_fee_basis_points: 300,
            total_lxr_burned: 0,
            total_staked_xls: 0,
            acc_rewards_per_share: 0,
            last_inflation_timestamp: 1_700_000_000,
            lxr_vault_rewards: [8; 32],
            bump: 254,
        }
    );
}

#[test]
fn initialize_is_refused_for_an_existing_ledger() {
    let mut existing = fresh();
    existing.total_staked_xls = 12;
    let mut slot = Some(existing);
    assert_eq!(
        handler(&mut slot, &accounts(), InitParams { fee_basis_points: 5 }, 9),
        Err(ErrorCode::AlreadyInitialized)
    );
    assert_eq!(slot, Some(existing));
}

#[test]
fn same_bytes_compares_all_32_bytes() {
    let mut other = ADMIN;
    assert!(same_bytes(&ADMIN, &other));
    other[31] ^= 1;
    assert!(!same_bytes(&ADMIN, &other));
    other[31] ^= 1;
    other[0] ^= 0x80;
    assert!(!same_bytes(&ADMIN, &other));
}

#[test]
fn split_rent_is_sixty_forty() {
    assert_eq!(split_rent(100_000), Ok((60_000, 40_000)));
    assert_eq!(split_rent(0), Ok((0, 0)));
    // the reserve's share is rounded down, the stakers get the rest
    assert_eq!(split_rent(1), Ok((0, 1)));
    assert_eq!(split_rent(99), Ok((59, 40)));
    assert_eq!(split_rent(u64::MAX / 60), Ok((184467440737095516, 122978293824730344)));
    assert_eq!(split_rent(u64::MAX / 60 + 1), Err(ErrorCode::ArithmeticOverflow));
}

#[test]
fn distribute_rent_moves_both_shares_and_feeds_the_accumulator() {
    let mut config = fresh();
    config.total_staked_xls = 1_000_000;
    let orders = distribute_rent_handler(&mut config, &ADMIN, 100_000).unwrap();
    assert_eq!(orders, vec![to_reserve(60_000), to_rewards(40_000)]);
    assert_eq!(config.acc_rewards_per_share, 40_000_000_000);
    assert_eq!(config.total_staked_xls, 1_000_000);
}

#[test]
fn distribute_rent_adds_to_the_accumulator() {
    let mut config = fresh();
    config.total_staked_xls = 3;
    config.acc_rewards_per_share = 5;
    distribute_rent_handler(&mut config, &ADMIN, 5).unwrap();
    // 2 * 1e12 / 3, rounded down
    assert_eq!(config.acc_rewards_per_share, 5 + 666_666_666_666);
}

#[test]
fn distribute_rent_with_nothing_staked_leaves_the_accumulator() {
    let mut config = fresh();
    config.acc_rewards_per_share = 77;
    let orders = distribute_rent_handler(&mut config, &ADMIN, 100_000).unwrap();
    // the stakers' share still reaches the reward vault, credited to nobody
    assert_eq!(orders, vec![to_reserve(60_000), to_rewards(40_000)]);
    assert_eq!(config.acc_rewards_per_share, 77);
}

#[test]
fn distribute_rent_leaves_out_transfers_of_zero() {
    let mut config = fresh();
    config.total_staked_xls = 10;
    assert_eq!(distribute_rent_handler(&mut config, &ADMIN, 0), Ok(vec![]));
    assert_eq!(config.acc_rewards_per_share, 0);
    assert_eq!(distribute_rent_handler(&mut config, &ADMIN, 1), Ok(vec![to_rewards(1)]));
    assert_eq!(config.acc_rewards_per_share, 100_000_000_000);
}

#[test]
fn distribute_rent_by_a_stranger_is_unauthorized() {
    let mut config = fresh();
    config.total_staked_xls = 10;
    let before = config;
    assert_eq!(
        distribute_rent_handler(&mut config, &STRANGER, 100),
        Err(ErrorCode::Unauthorized)
    );
    assert_eq!(config, before);
}

#[test]
fn distribute_rent_overflow_changes_nothing() {
    let mut config = fresh();
    config.total_staked_xls = 10;
    let before = config;
    assert_eq!(
        distribute_rent_handler(&mut config, &ADMIN, u64::MAX),
        Err(ErrorCode::ArithmeticOverflow)
    );
    assert_eq!(config, before);

    config.total_staked_xls = 1;
    config.acc_rewards_per_share = u128::MAX - 399_999_999_999;
    let before = config;
    // the stakers' share of 1 on one staked unit adds 1e12, which no longer fits
    assert_eq!(
        distribute_rent_handler(&mut config, &ADMIN, 1),
        Err(ErrorCode::ArithmeticOverflow)
    );
    assert_eq!(config, before);
}

#[test]
fn inflation_mints_a_fortieth_after_five_years() {
    let mut config = fresh();
    let due = 1_700_000_000 + 157_680_000;
    let orders = trigger_inflation_handler(&mut config, &ADMIN, due, 1_000_000).unwrap();
    assert_eq!(
        orders,
        vec![TokenInstruction::MintTo {
            mint: Token::Lxr,
            to: TokenAccount::ReserveWallet,
            amount: 25_000,
            authority: Authority::Admin,
        }]
    );
    assert_eq!(config.last_inflation_timestamp, due);
    // the timer starts again
    assert_eq!(
        trigger_inflation_handler(&mut config, &ADMIN, due + 157_679_999, 1_000_000),
        Err(ErrorCode::InflationNotReady)
    );
}

#[test]
fn inflation_rounds_down() {
    let mut config = fresh();
    let orders =
        trigger_inflation_handler(&mut config, &ADMIN, 1_700_000_000 + 157_680_000, 39).unwrap();
    assert_eq!(
        orders,
        vec![TokenInstruction::MintTo {
            mint: Token::Lxr,
            to: TokenAccount::ReserveWallet,
            amount: 0,
            authority: Authority::Admin,
        }]
    );
}

#[test]
fn inflation_too_early_is_not_ready() {
    let mut config = fresh();
    let before = config;
    assert_eq!(
        trigger_inflation_handler(&mut config, &ADMIN, 1_700_000_000 + 157_679_999, 1_000_000),
        Err(ErrorCode::InflationNotReady)
    );
    assert_eq!(config, before);
    config.last_inflation_timestamp = i64::MAX - 10;
    assert_eq!(
        trigger_inflation_handler(&mut config, &ADMIN, i64::MAX, 1_000_000),
        Err(ErrorCode::InflationNotReady)
    );
}

#[test]
fn inflation_by_a_stranger_is_unauthorized() {
    let mut config = fresh();
    let before = config;
    assert_eq!(
        trigger_inflation_handler(&mut config, &STRANGER, i64::MAX, 1_000_000),
        Err(ErrorCode::Unauthorized)
    );
    assert_eq!(config, before);
}

#[test]
fn inflation_overflow_changes_nothing() {
    let mut config = fresh();
    let before = config;
    assert_eq!(
        trigger_inflation_handler(&mut config, &ADMIN, i64::MAX, u64::MAX / 25 + 1),
        Err(ErrorCode::ArithmeticOverflow)
    );
    assert_eq!(config, before);
    assert!(trigger_inflation_handler(&mut config, &ADMIN, i64::MAX, u64::MAX / 25).is_ok());
}

#[test]
fn upgrade_replaces_the_vaults_and_keeps_the_rest() {
    let mut config = fresh();
    config.total_staked_xls = 500;
    config.acc_rewards_per_share = 9;
    config.total_lxr_burned = 3;
    let before = config;
    let new_vaults = UpgradeConfig {
        admin: ADMIN,
        rwa_vault_lxr: [31; 32],
        xls_vault_supply: [32; 32],
        lxr_vault_rewards: [33; 32],
    };
    assert_eq!(upgrade_config_handler(&mut config, &new_vaults, 1_800_000_000), Ok(()));
    assert_eq!(
        config,
        GlobalConfig {
            rwa_vault_lxr: [31; 32],
            xls_vault_supply: [32; 32],
            lxr_vault_rewards: [33; 32],
            last_inflation_timestamp: 1_800_000_000,
            ..before
        }
    );
}

#[test]
fn upgrade_by_a_stranger_is_unauthorized() {
    let mut config = fresh();
    let before = config;
    let new_vaults = UpgradeConfig {
        admin: STRANGER,
        rwa_vault_lxr: [31; 32],
        xls_vault_supply: [32; 32],
        lxr_vault_rewards: [33; 32],
    };
    assert_eq!(
        upgrade_config_handler(&mut config, &new_vaults, 1_800_000_000),
        Err(ErrorCode::Unauthorized)
    );
    assert_eq!(config, before);
}

#[test]
fn harvest_pays_half_to_the_founder() {
    let config = fresh();
    let orders = harvest_handler(&config, &ADMIN, 1_000, 1_501).unwrap();
    assert_eq!(
        orders,
        vec![TokenInstruction::Transfer {
            from: TokenAccount::RwaVaultLxr,
            to: TokenAccount::FounderWallet,
            mint: Token::Lxr,
            amount: 250,
            authority: Authority::GlobalConfig { bump: 254 },
        }]
    );
}

#[test]
fn harvest_of_nothing_asks_for_nothing() {
    let config = fresh();
    assert_eq!(harvest_handler(&config, &ADMIN, 1_000, 1_000), Ok(vec![]));
    assert_eq!(harvest_handler(&config, &ADMIN, 1_000, 999), Ok(vec![]));
    assert_eq!(harvest_handler(&config, &ADMIN, 1_000, 1_001), Ok(vec![]));
    assert_eq!(harvest_handler(&config, &ADMIN, u64::MAX, 0), Ok(vec![]));
}

#[test]
fn harvest_by_a_stranger_is_unauthorized() {
    let config = fresh();
    assert_eq!(harvest_handler(&config, &STRANGER, 0, 1_000), Err(ErrorCode::Unauthorized));
}

#[test]
fn buy_burns_thirty_percent_and_pays_from_the_supply() {
    let mut config = fresh();
    let orders = buy_handler(&mut config, 3).unwrap();
    assert_eq!(
        orders,
        vec![
            TokenInstruction::Transfer {
                from: TokenAccount::UserLxr,
                to: TokenAccount::RwaVaultLxr,
                mint: Token::Lxr,
                amount: 2_100_000,
                authority: Authority::User,
            },
            TokenInstruction::Burn {
                mint: Token::Lxr,
                from: TokenAccount::UserLxr,
                amount: 900_000,
                authority: Authority::User,
            },
            TokenInstruction::Transfer {
                from: TokenAccount::XlsVaultSupply,
                to: TokenAccount::UserXls,
                mint: Token::Xls,
                amount: 3,
                authority: Authority::GlobalConfig { bump: 254 },
            },
        ]
    );
    assert_eq!(config.total_lxr_burned, 900_000);
    buy_handler(&mut config, 1).unwrap();
    assert_eq!(config.total_lxr_burned, 1_200_000);
}

#[test]
fn buy_overflow_changes_nothing() {
    let mut config = fresh();
    config.total_lxr_burned = 17;
    let before = config;
    // the price fits, thirty times the price does not
    let amount = u64::MAX / 1_000_000;
    assert_eq!(buy_handler(&mut config, amount), Err(ErrorCode::ArithmeticOverflow));
    assert_eq!(buy_handler(&mut config, u64::MAX), Err(ErrorCode::ArithmeticOverflow));
    assert_eq!(config, before);
    let largest = u64::MAX / 30_000_000;
    assert!(buy_handler(&mut config, largest).is_ok());
    assert_eq!(buy_handler(&mut config, largest), Ok(vec![
        TokenInstruction::Transfer {
            from: TokenAccount::UserLxr,
            to: TokenAccount::RwaVaultLxr,
            mint: Token::Lxr,
            amount: largest * 700_000,
            authority: Authority::User,
        },
        TokenInstruction::Burn {
            mint: Token::Lxr,
            from: TokenAccount::UserLxr,
            amount: largest * 300_000,
            authority: Authority::User,
        },
        TokenInstruction::Transfer {
            from: TokenAccount::XlsVaultSupply,
            to: TokenAccount::UserXls,
            mint: Token::Xls,
            amount: largest,
            authority: Authority::GlobalConfig { bump: 254 },
        },
    ]));
    config.total_lxr_burned = u64::MAX;
    let before = config;
    assert_eq!(buy_handler(&mut config, 1), Err(ErrorCode::ArithmeticOverflow));
    assert_eq!(config, before);
}

#[test]
fn redeem_burns_the_units_and_returns_book_value() {
    let config = fresh();
    assert_eq!(
        redeem_handler(&config, 2),
        Ok(vec![
            TokenInstruction::Burn {
                mint: Token::Xls,
                from: TokenAccount::UserXls,
                amount: 2,
                authority: Authority::User,
            },
            TokenInstruction::Transfer {
                from: TokenAccount::RwaVaultLxr,
                to: TokenAccount::UserLxr,
                mint: Token::Lxr,
                amount: 1_400_000,
                authority: Authority::GlobalConfig { bump: 254 },
            },
        ])
    );
    assert_eq!(redeem_handler(&config, u64::MAX / 700_000 + 1), Err(ErrorCode::ArithmeticOverflow));
    assert!(redeem_handler(&config, u64::MAX / 700_000).is_ok());
}

#[test]
fn ledger_authority_is_derived_from_the_record() {
    let authority = fresh().authority();
    assert_eq!(authority, Authority::GlobalConfig { bump: 254 });
    assert_eq!(authority.seed(), "global_config");
    assert_eq!(Authority::User.seed(), "");
    assert_eq!(Authority::Admin.seed(), "");
}

#[test]
fn every_error_has_its_message() {
    assert_eq!(ErrorCode::InsufficientFunds.message(), "Insufficient funds.");
    assert_eq!(ErrorCode::InvalidProof.message(), "Invalid Merkle proof.");
    assert_eq!(ErrorCode::InflationNotReady.message(), "Inflation trigger not yet ready.");
    assert_eq!(ErrorCode::AlreadyClaimed.message(), "Reward already claimed.");
    assert_eq!(ErrorCode::AlreadyInitialized.message(), "Record already initialized.");
    assert_eq!(ErrorCode::Unauthorized.message(), "Signer is not authorized.");
    assert_eq!(ErrorCode::ArithmeticOverflow.message(), "Arithmetic overflow.");
    assert_eq!(ErrorCode::ArithmeticUnderflow.message(), "Arithmetic underflow.");
}
