//! The donation handler: moving balance from a donation slip record into a
//! campaign record.
//!
//! All preconditions are validated before any mutation, so a failed
//! donation is observationally a no-op. A successful one moves exactly
//! `amount` from the slip's balance to the campaign's balance, rewrites the
//! slip with this call's details, and raises the campaign's `amount_raised`
//! by the same amount.

use vstd::prelude::*;

use crate::codec::append_tail;
use crate::error::LedgerError;
use crate::pubkey::Pubkey;
use crate::record::{same_meta, unchanged, Record};
use crate::state::{campaign_bytes, campaign_view_of, donation_bytes, CampaignState, CampaignView,
    DonationState, DonationView, CAMPAIGN_RECORD_LEN, DONATION_RECORD_LEN};

verus! {

/// The first failing precondition of `donate_to_campaign`, or `None` when
/// the operation must succeed.
pub open spec fn donate_check(
    program_id: Seq<u8>,
    camp: Record,
    don: Record,
    amount: u64,
) -> Option<LedgerError> {
    if camp.owner@ != program_id {
        Some(LedgerError::NotOwned)
    } else if !camp.is_writable {
        Some(LedgerError::InvalidAccountState)
    } else if !don.is_signer {
        Some(LedgerError::Unauthorized)
    } else if don.balance < amount {
        Some(LedgerError::InsufficientFunds)
    } else if don.data@.len() < DONATION_RECORD_LEN {
        Some(LedgerError::MalformedOperation)
    } else if camp.data@.len() < CAMPAIGN_RECORD_LEN {
        Some(LedgerError::MalformedOperation)
    } else if camp.balance + amount > u64::MAX {
        Some(LedgerError::ArithmeticOverflow)
    } else if campaign_view_of(camp.data@).amount_raised + amount > u64::MAX {
        Some(LedgerError::ArithmeticOverflow)
    } else {
        None
    }
}

/// What a successful donation leaves behind: exactly `amount` moves from
/// the slip's balance to the campaign's, the slip's 72-byte prefix holds
/// this call's details, and the campaign's `amount_raised` grows by
/// `amount` with its creator and goal untouched.
pub open spec fn donate_post(
    camp_pre: Record,
    camp_post: Record,
    don_pre: Record,
    don_post: Record,
    campaign: Seq<u8>,
    donor: Seq<u8>,
    amount: u64,
) -> bool {
    let camp_view = campaign_view_of(camp_pre.data@);
    &&& same_meta(camp_pre, camp_post)
    &&& same_meta(don_pre, don_post)
    &&& don_post.balance == don_pre.balance - amount
    &&& camp_post.balance == camp_pre.balance + amount
    &&& don_post.data@ == donation_bytes(DonationView { campaign, donor, amount })
        + don_pre.data@.skip(DONATION_RECORD_LEN as int)
    &&& camp_post.data@ == campaign_bytes(
        CampaignView {
            creator: camp_view.creator,
            goal: camp_view.goal,
            amount_raised: (camp_view.amount_raised + amount) as u64,
        },
    ) + camp_pre.data@.skip(CAMPAIGN_RECORD_LEN as int)
}

/// Moves `amount` from the donation slip record into the campaign record
/// and records `{campaign, donor, amount}` in the slip.
///
/// Preconditions, in order, each with its own failure: campaign custody,
/// campaign mutability, the slip's authorization proof, the slip's balance
/// covering `amount`, both buffers decodable, and neither the campaign
/// balance nor `amount_raised` overflowing. On any failure both records are
/// left byte-for-byte as they were.
pub fn donate_to_campaign(
    program_id: &Pubkey,
    campaign_account: &mut Record,
    donation_account: &mut Record,
    campaign: Pubkey,
    donor: Pubkey,
    amount: u64,
) -> (r: Result<(), LedgerError>)
    ensures
        match donate_check(program_id@, *old(campaign_account), *old(donation_account), amount) {
            Some(e) => r == Err::<(), LedgerError>(e) && unchanged(
                *old(campaign_account),
                *final(campaign_account),
            ) && unchanged(*old(donation_account), *final(donation_account)),
            None => r == Ok::<(), LedgerError>(()) && donate_post(
                *old(campaign_account),
                *final(campaign_account),
                *old(donation_account),
                *final(donation_account),
                campaign@,
                donor@,
                amount,
            ),
        },
{
    if !campaign_account.owner.equals(program_id) {
        return Err(LedgerError::NotOwned);
    }
    if !campaign_account.is_writable {
        return Err(LedgerError::InvalidAccountState);
    }
    if !donation_account.is_signer {
        return Err(LedgerError::Unauthorized);
    }
    if donation_account.balance < amount {
        return Err(LedgerError::InsufficientFunds);
    }
    match DonationState::decode(donation_account.data.as_slice()) {
        Ok(_) => {},
        Err(e) => {
            return Err(e);
        },
    }
    let camp_state = match CampaignState::decode(campaign_account.data.as_slice()) {
        Ok(s) => s,
        Err(e) => {
            return Err(e);
        },
    };
    if amount > u64::MAX - campaign_account.balance {
        return Err(LedgerError::ArithmeticOverflow);
    }
    if amount > u64::MAX - camp_state.amount_raised {
        return Err(LedgerError::ArithmeticOverflow);
    }
    let slip = DonationState { campaign, donor, amount };
    let mut slip_out = slip.encode();
    append_tail(&mut slip_out, donation_account.data.as_slice(), DONATION_RECORD_LEN);
    let updated = CampaignState {
        creator: camp_state.creator,
        goal: camp_state.goal,
        amount_raised: camp_state.amount_raised + amount,
    };
    let mut camp_out = updated.encode();
    append_tail(&mut camp_out, campaign_account.data.as_slice(), CAMPAIGN_RECORD_LEN);
    donation_account.balance = donation_account.balance - amount;
    campaign_account.balance = campaign_account.balance + amount;
    donation_account.data = slip_out;
    campaign_account.data = camp_out;
    Ok(())
}

/// Conservation: a successful donation moves value, it never mints or
/// burns it. The campaign gains exactly what the slip loses, and both
/// equal the requested amount.
pub proof fn lemma_donate_conserves(
    camp_pre: Record,
    camp_post: Record,
    don_pre: Record,
    don_post: Record,
    campaign: Seq<u8>,
    donor: Seq<u8>,
    amount: u64,
)
    requires
        donate_post(camp_pre, camp_post, don_pre, don_post, campaign, donor, amount),
    ensures
        camp_post.balance - camp_pre.balance == amount,
        don_pre.balance - don_post.balance == amount,
        camp_post.balance - camp_pre.balance == don_pre.balance - don_post.balance,
        camp_post.balance + don_post.balance == camp_pre.balance + don_pre.balance,
{
}

/// No wrap on success: a donation that passes every precondition neither
/// drives the slip's balance below zero nor the campaign's above
/// `u64::MAX`, so the exact balance arithmetic of `donate_post` stays in
/// range.
pub proof fn lemma_donate_no_wrap(program_id: Seq<u8>, camp: Record, don: Record, amount: u64)
    requires
        donate_check(program_id, camp, don, amount) is None,
    ensures
        don.balance >= amount,
        camp.balance + amount <= u64::MAX,
        campaign_view_of(camp.data@).amount_raised + amount <= u64::MAX,
{
}

/// A donation whose amount exceeds the slip's balance is always refused
/// with `InsufficientFunds` once the custody, mutability and authorization
/// gates pass; the handler's contract then leaves both records unchanged.
pub proof fn lemma_donate_insufficient_funds(
    program_id: Seq<u8>,
    camp: Record,
    don: Record,
    amount: u64,
)
    requires
        camp.owner@ == program_id,
        camp.is_writable,
        don.is_signer,
        don.balance < amount,
    ensures
        donate_check(program_id, camp, don, amount) == Some(LedgerError::InsufficientFunds),
{
}

} // verus!
