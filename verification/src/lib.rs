//! Accounting core of the Excelsior token economy.
//!
//! The crate holds the rules of the protocol as verified functions on plain
//! records: the reward accumulator, the staking ledger, the income splitter,
//! the Merkle claim distributor and the auxiliary swap and inflation
//! arithmetic. Token movements are never executed here; every operation
//! returns the list of [`token::TokenInstruction`]s that the token service has
//! to carry out within the same atomic unit of work.

pub mod accumulator;
pub mod error;
pub mod history;
pub mod instructions;
pub mod keccak;
pub mod merkle;
pub mod state;
pub mod token;
pub mod tree;

pub use error::ErrorCode;
