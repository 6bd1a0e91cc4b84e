use vstd::prelude::*;

verus! {

/// Every way in which an operation can be rejected.
///
/// A rejected operation leaves all records exactly as they were.
#[derive(Clone, Copy, Debug, PartialEq, Eq, Structural)]
pub enum ErrorCode {
    /// An amount exceeds the balance it is taken from.
    InsufficientFunds,
    /// A Merkle proof does not reduce to the committed root.
    InvalidProof,
    /// The scheduled mint was triggered before its interval has passed.
    InflationNotReady,
    /// A claim record for the index exists already.
    AlreadyClaimed,
    /// A record that is created once exists already.
    AlreadyInitialized,
    /// The signer is not the administrator of the ledger.
    Unauthorized,
    /// A checked operation left the range of its type at the upper end.
    ArithmeticOverflow,
    /// A checked subtraction would have gone below zero.
    ArithmeticUnderflow,
}

impl ErrorCode {
    /// The text shown to a user for this error.
    pub open spec fn message_spec(self) -> Seq<char> {
        match self {
            ErrorCode::InsufficientFunds => "Insufficient funds."@,
            ErrorCode::InvalidProof => "Invalid Merkle proof."@,
            ErrorCode::InflationNotReady => "Inflation trigger not yet ready."@,
            ErrorCode::AlreadyClaimed => "Reward already claimed."@,
            ErrorCode::AlreadyInitialized => "Record already initialized."@,
            ErrorCode::Unauthorized => "Signer is not authorized."@,
            ErrorCode::ArithmeticOverflow => "Arithmetic overflow."@,
            ErrorCode::ArithmeticUnderflow => "Arithmetic underflow."@,
        }
    }

    pub fn message(&self) -> (text: &'static str)
        ensures
            text@ == self.message_spec(),
    {
        match self {
            ErrorCode::InsufficientFunds => "Insufficient funds.",
            ErrorCode::InvalidProof => "Invalid Merkle proof.",
            ErrorCode::InflationNotReady => "Inflation trigger not yet ready.",
            ErrorCode::AlreadyClaimed => "Reward already claimed.",
            ErrorCode::AlreadyInitialized => "Record already initialized.",
            ErrorCode::Unauthorized => "Signer is not authorized.",
            ErrorCode::ArithmeticOverflow => "Arithmetic overflow.",
            ErrorCode::ArithmeticUnderflow => "Arithmetic underflow.",
        }
    }
}

} // verus!
