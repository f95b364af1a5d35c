//! Typed failures of the ledger transitions.

use vstd::prelude::*;

verus! {

/// Why a ledger transition was rejected. Every error is recoverable by the
/// caller: the transition performs no write before all of its checks have
/// passed, so a failed operation leaves the store exactly as it was.
#[derive(Clone, Copy, Debug, PartialEq, Eq, Structural)]
pub enum LedgerError {
    /// The combined size of an entry's content and external ids exceeds the
    /// per-entry cap.
    EntryTooLarge,
    /// An entry was appended to a chain that has never been created.
    ChainNotFound,
    /// A chain creation collided with a chain that already exists.
    ChainAlreadyExists,
    /// The signer's entry-credit balance cannot cover the charge.
    InsufficientCredits,
    /// The signer's factoid balance cannot cover the transfer or conversion.
    InsufficientBalance,
    /// A chain's entry counter would wrap past the unsigned integer range.
    CounterOverflow,
    /// A balance would wrap past the unsigned integer range.
    BalanceOverflow,
}

impl LedgerError {
    /// A short stable name for the error, for hosts that report it as text.
    pub fn message(&self) -> (r: &'static str)
        ensures
            r@ == self.spec_message(),
    {
        match self {
            LedgerError::EntryTooLarge => "EntryTooLarge",
            LedgerError::ChainNotFound => "ChainNotFound",
            LedgerError::ChainAlreadyExists => "ChainAlreadyExists",
            LedgerError::InsufficientCredits => "InsufficientCredits",
            LedgerError::InsufficientBalance => "InsufficientBalance",
            LedgerError::CounterOverflow => "CounterOverflow",
            LedgerError::BalanceOverflow => "BalanceOverflow",
        }
    }

    /// The name that [`Self::message`] returns.
    pub open spec fn spec_message(self) -> Seq<char> {
        match self {
            LedgerError::EntryTooLarge => "EntryTooLarge"@,
            LedgerError::ChainNotFound => "ChainNotFound"@,
            LedgerError::ChainAlreadyExists => "ChainAlreadyExists"@,
            LedgerError::InsufficientCredits => "InsufficientCredits"@,
            LedgerError::InsufficientBalance => "InsufficientBalance"@,
            LedgerError::CounterOverflow => "CounterOverflow"@,
            LedgerError::BalanceOverflow => "BalanceOverflow"@,
        }
    }
}

} // verus!
