//! The storage-reservation validator.
//!
//! A record is durably retained by the store only while its custodied
//! balance covers a minimum deposit that grows with the record's byte
//! length. The schedule itself is the execution environment's; the core
//! only asks whether a given balance meets it for a given length.

use vstd::prelude::*;

use crate::record::Record;

verus! {

/// Whether a balance meets the retention deposit for a buffer of `len`
/// bytes. The schedule is fixed by the environment, so the verdict is a
/// function of the two arguments alone.
pub uninterp spec fn reserve_met(balance: u64, len: nat) -> bool;

/// Relies on `solana_program::rent::Rent::is_exempt`: under the default
/// rent parameters it decides, from the balance and the data length alone,
/// whether the balance covers the deposit that keeps a buffer of that
/// length retained.
#[verifier::external_body]
pub(crate) fn is_reserved(account: &Record) -> (r: bool)
    ensures
        r == reserve_met(account.balance, account.data@.len()),
{
    solana_program::rent::Rent::default().is_exempt(account.balance, account.data.len())
}

} // verus!
