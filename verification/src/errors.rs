use vstd::prelude::*;

verus! {

/// Why an ownership-ledger operation failed.
#[derive(Clone, Copy, Debug, PartialEq, Eq, Structural)]
pub enum LedgerError {
    /// A mint was attempted for a token id that already has an owner.
    AlreadyMinted,
    /// An owner lookup was attempted for a token id that was never minted.
    Unminted,
}

/// Why a contract operation failed.
#[derive(Clone, Copy, Debug, PartialEq, Eq, Structural)]
pub enum ContractError {
    /// A researcher mint was attempted while the eligibility flag is clear.
    NotEligible,
    /// A mint was attempted by an address whose ledger balance is positive.
    AlreadyHolds,
    /// A milestone mint was attempted while the global counter is not a
    /// positive multiple of ten.
    NotAtMilestone,
    /// The ownership ledger refused the operation; the ledger's own error is
    /// carried along unchanged.
    Ledger(LedgerError),
    /// The operation would have pushed a stored quantity past `u128::MAX`;
    /// nothing was written.
    ArithmeticOverflow,
}

} // verus!
