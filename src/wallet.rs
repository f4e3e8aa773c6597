use vstd::prelude::*;

verus! {

/// A 256-bit account identifier, held as four 64-bit words.
#[derive(Clone, Copy, Debug, PartialEq, Eq, Structural)]
pub struct AccountId {
    pub w0: u64,
    pub w1: u64,
    pub w2: u64,
    pub w3: u64,
}

/// One burn account: its identifier and its balance in the asset's smallest unit.
#[derive(Clone, Copy, Debug, PartialEq, Eq, Structural)]
pub struct BurnWallet {
    pub id: AccountId,
    pub amount: u64,
}

/// The distinct ways in which creating or burning can fail.
#[derive(Clone, Copy, Debug, PartialEq, Eq, Structural)]
pub enum ErrorCode {
    /// No account has the given identifier.
    AccountNotFound,
    /// The proof was judged invalid, or its verifier faulted.
    InvalidProof,
    /// The amount exceeds the account's balance.
    InsufficientBalance,
    /// No fresh identifier could be drawn within the allowed attempts.
    AllocationError,
}

/// What the proof verifier said of a proof for one (account, amount) pair.
#[derive(Clone, Copy, Debug, PartialEq, Eq, Structural)]
pub enum ProofCheck {
    Valid,
    Invalid,
    /// The verifier failed (malformed proof, crash): treated as invalid.
    Faulted,
}

/// A request to open a burn account.
#[derive(Clone, Copy, Debug, PartialEq, Eq, Structural)]
pub struct CreateBurnWallet {
    pub initial_balance: u64,
}

/// A request to burn `amount` from the account `burn_wallet`.
#[derive(Clone, Copy, Debug, PartialEq, Eq, Structural)]
pub struct BurnFunds {
    pub burn_wallet: AccountId,
    pub amount: u64,
}

/// One audit record per burn attempt: the account, the amount asked for, and
/// the outcome (the new balance, or the error).
#[derive(Clone, Copy, Debug)]
pub struct BurnEvent {
    pub account: AccountId,
    pub amount: u64,
    pub outcome: Result<u64, ErrorCode>,
}

impl ProofCheck {
    /// Only a verdict of `Valid` lets a burn through.
    pub open spec fn accepts(self) -> bool {
        self == ProofCheck::Valid
    }

    /// The verdict for what a verifier reported: `Some(true)` is valid,
    /// `Some(false)` invalid, and `None` (the verifier faulted) is `Faulted`,
    /// which is never accepted.
    pub fn from_verifier(reported: Option<bool>) -> (r: ProofCheck)
        ensures
            r.accepts() <==> reported == Some(true),
            reported is None <==> r == ProofCheck::Faulted,
    {
        match reported {
            Some(true) => ProofCheck::Valid,
            Some(false) => ProofCheck::Invalid,
            None => ProofCheck::Faulted,
        }
    }
}

} // verus!
