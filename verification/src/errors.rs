//! Error and outcome types of the ledger engine.

use vstd::prelude::*;

verus! {

/// Which leg of a transfer a freeze rejection refers to.
#[derive(Clone, Copy, Debug, PartialEq, Eq, Structural)]
pub enum FrozenSide {
    /// The account to debit is frozen.
    Source,
    /// The account to credit is frozen.
    Destination,
}

/// The terminal outcome of a rejected transfer. Exactly one code is
/// returned per failed transfer; a successful transfer returns none.
#[derive(Clone, Copy, Debug, PartialEq, Eq, Structural)]
pub enum TransferError {
    /// The source or destination identity does not name an account.
    AccountNotFound,
    /// The named side of the transfer is frozen; the source is
    /// checked before the destination.
    FrozenAccount(FrozenSide),
    /// The signature does not verify against the source identity's key
    /// (malformed key, malformed signature encoding, or mismatch).
    InvalidSignature,
    /// The requested amount exceeds the source account's balance.
    InsufficientBalance,
    /// Crediting the destination would exceed the unsigned 64-bit range.
    BalanceOverflow,
    /// Reserved for outcomes the engine cannot classify; never produced
    /// by the operations of this crate.
    Unknown,
}

/// Failure of an account-creation request.
#[derive(Clone, Copy, Debug, PartialEq, Eq, Structural)]
pub enum CreateError {
    /// An account with the supplied identity already exists.
    IdentityExists,
}

/// Failure of a single-account operation (lookup, freeze, unfreeze,
/// history query).
#[derive(Clone, Copy, Debug, PartialEq, Eq, Structural)]
pub enum LedgerError {
    /// The identity does not name an account.
    AccountNotFound,
}

} // verus!
