pub mod admin_ops;
pub mod fees;
pub mod init_ix;
pub mod rewards;
pub mod stake;
pub mod swap;

pub use admin_ops::{
    distribute_rent_handler, trigger_inflation_handler, upgrade_config_handler, UpgradeConfig,
};
pub use fees::harvest_handler;
pub use rewards::{
    claim_handler, init_distributor_handler, record_claim, verify, ClaimStatus, Distributor,
};
pub use stake::{init_user_handler, stake_handler, unstake_handler};
pub use swap::{buy_handler, redeem_handler};
