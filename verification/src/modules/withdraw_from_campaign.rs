//! The withdrawal handler: moving balance out of a campaign record to a
//! recipient record, gated on the campaign creator's authorization.
//!
//! Three records take part: the campaign paying out, the creator-designated
//! record that carries the authorization proof and receives the withdrawal
//! slip, and the recipient record that receives the funds. The slip
//! recorder and the recipient are distinct by design and must not be
//! conflated.

use vstd::prelude::*;

use crate::codec::append_tail;
use crate::error::LedgerError;
use crate::pubkey::Pubkey;
use crate::record::{same_meta, unchanged, Record};
use crate::state::{campaign_view_of, withdraw_bytes, CampaignState, WithdrawState, WithdrawView,
    CAMPAIGN_RECORD_LEN, WITHDRAW_RECORD_LEN};

verus! {

/// The first failing precondition of `withdraw_from_campaign`, or `None`
/// when the operation must succeed.
pub open spec fn withdraw_check(
    program_id: Seq<u8>,
    camp: Record,
    cre: Record,
    rcp: Record,
    amount: u64,
) -> Option<LedgerError> {
    if camp.owner@ != program_id {
        Some(LedgerError::NotOwned)
    } else if !camp.is_writable || !cre.is_writable {
        Some(LedgerError::InvalidAccountState)
    } else if !cre.is_signer {
        Some(LedgerError::Unauthorized)
    } else if camp.data@.len() < CAMPAIGN_RECORD_LEN {
        Some(LedgerError::MalformedOperation)
    } else if campaign_view_of(camp.data@).creator != cre.key@ {
        Some(LedgerError::Forbidden)
    } else if cre.data@.len() < WITHDRAW_RECORD_LEN {
        Some(LedgerError::MalformedOperation)
    } else if camp.balance < amount {
        Some(LedgerError::InsufficientFunds)
    } else if rcp.balance + amount > u64::MAX {
        Some(LedgerError::ArithmeticOverflow)
    } else {
        None
    }
}

/// What a successful withdrawal leaves behind: exactly `amount` moves from
/// the campaign's balance to the recipient's, the creator record's 104-byte
/// prefix holds this call's details, and every other byte of every record
/// is untouched.
pub open spec fn withdraw_post(
    camp_pre: Record,
    camp_post: Record,
    cre_pre: Record,
    cre_post: Record,
    rcp_pre: Record,
    rcp_post: Record,
    campaign: Seq<u8>,
    creator: Seq<u8>,
    recipient: Seq<u8>,
    amount: u64,
) -> bool {
    &&& same_meta(camp_pre, camp_post)
    &&& same_meta(cre_pre, cre_post)
    &&& same_meta(rcp_pre, rcp_post)
    &&& camp_post.balance == camp_pre.balance - amount
    &&& rcp_post.balance == rcp_pre.balance + amount
    &&& cre_post.balance == cre_pre.balance
    &&& camp_post.data@ == camp_pre.data@
    &&& rcp_post.data@ == rcp_pre.data@
    &&& cre_post.data@ == withdraw_bytes(WithdrawView { campaign, creator, recipient, amount })
        + cre_pre.data@.skip(WITHDRAW_RECORD_LEN as int)
}

/// Moves `amount` from the campaign record to the recipient record and
/// records `{campaign, creator, recipient, amount}` in the creator
/// record's withdrawal slip.
///
/// Preconditions, in order, each with its own failure: campaign custody,
/// mutability of campaign and creator records, the creator record's
/// authorization proof, a decodable campaign buffer, the campaign's stored
/// creator naming exactly the record that carries the proof (else
/// `Forbidden`), a decodable slip buffer, the campaign balance covering
/// `amount`, and the recipient balance not overflowing. On any failure all
/// three records are left byte-for-byte as they were.
pub fn withdraw_from_campaign(
    program_id: &Pubkey,
    campaign_account: &mut Record,
    creator_account: &mut Record,
    recipient_account: &mut Record,
    campaign: Pubkey,
    creator: Pubkey,
    recipient: Pubkey,
    amount: u64,
) -> (r: Result<(), LedgerError>)
    ensures
        match withdraw_check(
            program_id@,
            *old(campaign_account),
            *old(creator_account),
            *old(recipient_account),
            amount,
        ) {
            Some(e) => r == Err::<(), LedgerError>(e) && unchanged(
                *old(campaign_account),
                *final(campaign_account),
            ) && unchanged(*old(creator_account), *final(creator_account)) && unchanged(
                *old(recipient_account),
                *final(recipient_account),
            ),
            None => r == Ok::<(), LedgerError>(()) && withdraw_post(
                *old(campaign_account),
                *final(campaign_account),
                *old(creator_account),
                *final(creator_account),
                *old(recipient_account),
                *final(recipient_account),
                campaign@,
                creator@,
                recipient@,
                amount,
            ),
        },
{
    if !campaign_account.owner.equals(program_id) {
        return Err(LedgerError::NotOwned);
    }
    if !campaign_account.is_writable || !creator_account.is_writable {
        return Err(LedgerError::InvalidAccountState);
    }
    if !creator_account.is_signer {
        return Err(LedgerError::Unauthorized);
    }
    let camp_state = match CampaignState::decode(campaign_account.data.as_slice()) {
        Ok(s) => s,
        Err(e) => {
            return Err(e);
        },
    };
    if !camp_state.creator.equals(&creator_account.key) {
        return Err(LedgerError::Forbidden);
    }
    match WithdrawState::decode(creator_account.data.as_slice()) {
        Ok(_) => {},
        Err(e) => {
            return Err(e);
        },
    }
    if campaign_account.balance < amount {
        return Err(LedgerError::InsufficientFunds);
    }
    if amount > u64::MAX - recipient_account.balance {
        return Err(LedgerError::ArithmeticOverflow);
    }
    let slip = WithdrawState { campaign, creator, recipient, amount };
    let mut slip_out = slip.encode();
    append_tail(&mut slip_out, creator_account.data.as_slice(), WITHDRAW_RECORD_LEN);
    campaign_account.balance = campaign_account.balance - amount;
    recipient_account.balance = recipient_account.balance + amount;
    creator_account.data = slip_out;
    Ok(())
}

/// The authorization gate: when the record carrying the proof is not the
/// party the campaign names as creator, the withdrawal is always refused
/// with `Forbidden` — an identity mismatch, distinct from a missing proof;
/// the handler's contract then leaves every record unchanged.
pub proof fn lemma_withdraw_forbidden(
    program_id: Seq<u8>,
    camp: Record,
    cre: Record,
    rcp: Record,
    amount: u64,
)
    requires
        camp.owner@ == program_id,
        camp.is_writable,
        cre.is_writable,
        cre.is_signer,
        camp.data@.len() >= CAMPAIGN_RECORD_LEN,
        campaign_view_of(camp.data@).creator != cre.key@,
    ensures
        withdraw_check(program_id, camp, cre, rcp, amount) == Some(LedgerError::Forbidden),
{
}

/// No wrap on success: a withdrawal that passes every precondition
/// neither drives the campaign's balance below zero nor the recipient's
/// above `u64::MAX`, so the exact balance arithmetic of `withdraw_post`
/// stays in range.
pub proof fn lemma_withdraw_no_wrap(
    program_id: Seq<u8>,
    camp: Record,
    cre: Record,
    rcp: Record,
    amount: u64,
)
    requires
        withdraw_check(program_id, camp, cre, rcp, amount) is None,
    ensures
        camp.balance >= amount,
        rcp.balance + amount <= u64::MAX,
{
}

/// A withdrawal whose amount exceeds the campaign's balance is always
/// refused with `InsufficientFunds` once the custody, mutability,
/// authorization and identity gates pass; the handler's contract then
/// leaves every record unchanged.
pub proof fn lemma_withdraw_insufficient_funds(
    program_id: Seq<u8>,
    camp: Record,
    cre: Record,
    rcp: Record,
    amount: u64,
)
    requires
        camp.owner@ == program_id,
        camp.is_writable,
        cre.is_writable,
        cre.is_signer,
        camp.data@.len() >= CAMPAIGN_RECORD_LEN,
        campaign_view_of(camp.data@).creator == cre.key@,
        cre.data@.len() >= WITHDRAW_RECORD_LEN,
        camp.balance < amount,
    ensures
        withdraw_check(program_id, camp, cre, rcp, amount) == Some(LedgerError::InsufficientFunds),
{
}

} // verus!
