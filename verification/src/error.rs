//! The typed failures a handler can return.
//!
//! Every precondition failure maps to exactly one of these variants and is
//! returned to the caller immediately; no handler continues past its first
//! failing precondition.

use vstd::prelude::*;

verus! {

/// One typed failure per precondition class.
#[derive(Clone, Copy, PartialEq, Eq, Structural, Debug)]
pub enum LedgerError {
    /// The operation bytes could not be decoded, or a record's structured
    /// bytes are too short for their layout.
    MalformedOperation,
    /// A record that must be in this program's custody is tagged for another
    /// owner.
    NotOwned,
    /// The record that must carry an authorization proof does not carry one.
    Unauthorized,
    /// A valid proof was presented, but for a party other than the one the
    /// record names as creator.
    Forbidden,
    /// A record that must be mutable was not declared mutable by the call,
    /// or too few records were supplied.
    InvalidAccountState,
    /// A balance is too low for the requested transfer.
    InsufficientFunds,
    /// The campaign record's balance does not meet the storage reservation
    /// required at creation.
    InsufficientReserve,
    /// A balance or accounting field would exceed `u64::MAX`.
    ArithmeticOverflow,
}

} // verus!
