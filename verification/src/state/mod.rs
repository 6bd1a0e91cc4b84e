pub mod config;
pub mod user_account;

pub use config::GlobalConfig;
pub use user_account::UserAccount;
