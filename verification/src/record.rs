//! The record model: a fixed-size byte buffer with an attached balance,
//! custody tag, and per-call capability flags.
//!
//! A record is what the store hands a handler for one call: its address,
//! the custody tag naming the logic allowed to interpret its bytes, whether
//! this call carries an authorization proof for it, whether the call shape
//! declared it mutable, its custodied balance, and its structured bytes.

use vstd::prelude::*;

use crate::pubkey::Pubkey;

verus! {

/// One key-addressed record as seen by a single call.
#[derive(Clone)]
pub struct Record {
    /// The record's external address.
    pub key: Pubkey,
    /// Custody tag: the program permitted to mutate the structured bytes.
    pub owner: Pubkey,
    /// Whether this call carries an authorization proof bound to this record.
    pub is_signer: bool,
    /// Whether the call shape declared this record mutable.
    pub is_writable: bool,
    /// The custodied balance, in the native value unit.
    pub balance: u64,
    /// The structured bytes.
    pub data: Vec<u8>,
}

/// The address, custody tag and capability flags of `post` are those of
/// `pre`: a handler may move balances and rewrite structured bytes, never
/// re-tag a record or grant it capabilities.
pub open spec fn same_meta(pre: Record, post: Record) -> bool {
    &&& post.key@ == pre.key@
    &&& post.owner@ == pre.owner@
    &&& post.is_signer == pre.is_signer
    &&& post.is_writable == pre.is_writable
}

/// `post` is `pre` untouched: same metadata, same balance, and
/// byte-for-byte identical structured bytes.
pub open spec fn unchanged(pre: Record, post: Record) -> bool {
    &&& same_meta(pre, post)
    &&& post.balance == pre.balance
    &&& post.data@ == pre.data@
}

} // verus!
