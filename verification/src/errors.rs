//! Rejection reasons.
//!
//! Every operation of the protocol and of the ledger either succeeds or is
//! rejected for exactly one of these named reasons; no rejection changes any
//! state.

use vstd::prelude::*;

verus! {

/// The named condition on which an operation was rejected.
#[derive(Clone, Copy, Debug, PartialEq, Eq, Structural)]
pub enum EscrowError {
    /// A referenced ledger account does not exist.
    UnknownAccount,
    /// An account with this key already exists.
    AccountExists,
    /// The authorizing identity does not control the debited account.
    AuthorityMismatch,
    /// The debited account holds less than the requested amount.
    InsufficientBalance,
    /// Source and destination accounts hold different assets.
    AssetMismatch,
    /// The credited balance would exceed the largest representable amount.
    BalanceOverflow,
    /// The account still holds funds and cannot be closed.
    NotEmpty,
    /// An escrow record is already active.
    EscrowInUse,
    /// The vault account is not freshly provisioned (it already holds funds).
    VaultNotFresh,
    /// No active escrow record exists (it was never created, or a terminal
    /// transition already consumed it).
    NoActiveRecord,
    /// The signer is not the identity recorded in the escrow record.
    IdentityMismatch,
    /// A supplied account does not match the one recorded in the escrow
    /// record.
    AccountMismatch,
    /// A client operation tried to sign as the derived controller identity,
    /// which no external party can do.
    ControllerImpersonation,
}

} // verus!
