//! The error taxonomy of the fee-aware token operations.
//!
//! Every error aborts the whole request with no partial state change; none is
//! retried internally.

use vstd::prelude::*;

verus! {

/// Terminal outcomes of a rejected request.
#[derive(Clone, Copy, Debug, PartialEq, Eq, Structural)]
pub enum ContractError {
    /// The caller is not authorized for the operation, or no fee policy
    /// exists to authorize against.
    Unauthorized,
    /// A transfer (or a transfer leg) of zero tokens was requested.
    InvalidZeroAmount,
    /// A caller-supplied account identifier is malformed.
    InvalidAddress,
    /// The payer's balance does not cover the requested amount.
    InsufficientFunds,
    /// The executor's allowance does not cover the delegated transfer.
    InsufficientAllowance,
    /// An allowance cannot be granted to the granting account itself.
    CannotSetOwnAccount,
}

} // verus!
