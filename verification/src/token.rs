//! What the ledger asks of the token service.
//!
//! The core never moves tokens itself. Each operation hands back the
//! instructions that the token service has to execute, in order, within the
//! same atomic unit of work as the state change that the operation made.

use vstd::prelude::*;

verus! {

/// Identity of an account or a signer: 32 raw bytes.
pub type Address = [u8; 32];

/// Whether two identities, or two digests, are the same.
pub fn same_bytes(a: &Address, b: &Address) -> (same: bool)
    ensures
        same == (*a == *b),
{
    let mut i: usize = 0;
    while i < 32
        invariant
            i <= 32,
            forall|k: int| 0 <= k < i ==> a[k] == b[k],
        decreases 32 - i,
    {
        if a[i] != b[i] {
            return false;
        }
        i += 1;
    }
    assert(*a =~= *b);
    true
}

/// The token accounts that an operation can debit or credit.
#[derive(Clone, Copy, Debug, PartialEq, Eq, Structural)]
pub enum TokenAccount {
    /// The caller's XLS account.
    UserXls,
    /// The caller's LXR account.
    UserLxr,
    /// The vault that holds staked XLS.
    XlsVaultStaking,
    /// The vault that holds LXR staking rewards.
    LxrVaultRewards,
    /// The reserve vault.
    RwaVaultLxr,
    /// The vault that holds the XLS offered for sale.
    XlsVaultSupply,
    /// The founder's LXR account.
    FounderWallet,
    /// The administrator's LXR account.
    AdminLxr,
    /// The account that receives scheduled mints.
    ReserveWallet,
    /// The vault of a distribution round.
    DistributorVault,
    /// The claimant's account for the distributed token.
    UserToken,
}

/// The token that an instruction moves.
#[derive(Clone, Copy, Debug, PartialEq, Eq, Structural)]
pub enum Token {
    Xls,
    Lxr,
    /// The token of a distribution round.
    Distributed,
}

/// Who authorizes an instruction.
///
/// The two record variants are signing capabilities derived from a record of
/// the ledger: the domain-separation tag of the record's kind together with
/// the record's bump. They are built by [`crate::state::GlobalConfig::authority`]
/// and [`crate::instructions::rewards::Distributor::authority`].
#[derive(Clone, Copy, Debug, PartialEq, Eq, Structural)]
pub enum Authority {
    /// The end user who signed the operation.
    User,
    /// The administrator who signed the operation.
    Admin,
    /// The global ledger record itself.
    GlobalConfig { bump: u8 },
    /// The distributor record itself.
    Distributor { bump: u8 },
}

impl Authority {
    /// The domain-separation tag from which the capability is derived; empty
    /// for a signer who is a person.
    pub open spec fn seed_spec(self) -> Seq<char> {
        match self {
            Authority::User => ""@,
            Authority::Admin => ""@,
            Authority::GlobalConfig { .. } => "global_config"@,
            Authority::Distributor { .. } => "distributor"@,
        }
    }

    pub fn seed(&self) -> (tag: &'static str)
        ensures
            tag@ == self.seed_spec(),
    {
        match self {
            Authority::User => "",
            Authority::Admin => "",
            Authority::GlobalConfig { .. } => "global_config",
            Authority::Distributor { .. } => "distributor",
        }
    }
}

/// One request to the token service.
#[derive(Clone, Copy, Debug, PartialEq, Eq, Structural)]
pub enum TokenInstruction {
    Transfer { from: TokenAccount, to: TokenAccount, mint: Token, amount: u64, authority: Authority },
    Burn { mint: Token, from: TokenAccount, amount: u64, authority: Authority },
    MintTo { mint: Token, to: TokenAccount, amount: u64, authority: Authority },
}

} // verus!
