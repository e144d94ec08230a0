use vstd::prelude::*;

verus! {

/// Errors reported by the balance ledger itself.
#[derive(Clone, Copy, Debug, PartialEq, Eq, Structural)]
pub enum LedgerError {
    /// The authorizing party may not move funds out of the source account.
    Unauthorized,
    /// The source account holds less than the requested amount.
    InsufficientFunds,
    /// Crediting the destination would wrap its balance.
    MathOverflow,
}

/// Errors reported by the token manager operations.
#[derive(Clone, Copy, Debug, PartialEq, Eq, Structural)]
pub enum TokenManagerError {
    /// Only the mint authority can perform this action.
    UnauthorizedMintAuthority,
    /// The token manager has been emergency-stopped.
    TokenManagerInactive,
    /// A checked arithmetic operation would wrap.
    MathOverflow,
}

/// Errors reported by the order workflow.
#[derive(Clone, Copy, Debug, PartialEq, Eq, Structural)]
pub enum OrderError {
    /// The operation is not permitted in the order's current status.
    InvalidState,
    /// An order with this id already exists in the order ledger.
    DuplicateOrder,
    /// A checked arithmetic operation would wrap.
    MathOverflow,
    /// A fund movement failed; the ledger's error is passed on verbatim.
    Ledger(LedgerError),
}

} // verus!
