//! The campaign lifecycle handler: initializing (or fully re-initializing)
//! a campaign record.
//!
//! Creation moves no balance: the campaign record is presumed pre-funded
//! before this call. Its structured bytes are overwritten wholesale, so a
//! repeated creation on the same record is a full reset to the new payload,
//! never an additive update.

use vstd::prelude::*;

use crate::error::LedgerError;
use crate::pubkey::Pubkey;
use crate::record::{same_meta, unchanged, Record};
use crate::rent::{is_reserved, reserve_met};
use crate::state::{campaign_bytes, CampaignState, CampaignView, CAMPAIGN_RECORD_LEN};
use crate::codec::append_tail;

verus! {

/// The first failing precondition of `create_campaign`, or `None` when the
/// operation must succeed.
pub open spec fn create_check(program_id: Seq<u8>, camp: Record, cre: Record) -> Option<
    LedgerError,
> {
    if camp.owner@ != program_id {
        Some(LedgerError::NotOwned)
    } else if !cre.is_signer {
        Some(LedgerError::Unauthorized)
    } else if !reserve_met(camp.balance, camp.data@.len()) {
        Some(LedgerError::InsufficientReserve)
    } else if camp.data@.len() < CAMPAIGN_RECORD_LEN {
        Some(LedgerError::MalformedOperation)
    } else {
        None
    }
}

/// What a successful creation leaves behind: the campaign record's 48-byte
/// prefix holds exactly the new payload, bytes beyond it are untouched, and
/// no balance moves.
pub open spec fn create_post(
    pre: Record,
    post: Record,
    creator: Seq<u8>,
    goal: u64,
    amount_raised: u64,
) -> bool {
    &&& same_meta(pre, post)
    &&& post.balance == pre.balance
    &&& post.data@ == campaign_bytes(CampaignView { creator, goal, amount_raised })
        + pre.data@.skip(CAMPAIGN_RECORD_LEN as int)
}

/// Initializes the campaign record with `{creator, goal, amount_raised}`.
///
/// Preconditions, in order, each with its own failure: the campaign record
/// must be in this program's custody, the creator record must carry an
/// authorization proof, the campaign balance must meet the storage
/// reservation, and the buffer must be long enough for the layout. On any
/// failure both records are left byte-for-byte as they were.
pub fn create_campaign(
    program_id: &Pubkey,
    campaign_account: &mut Record,
    creator_account: &Record,
    creator: Pubkey,
    goal: u64,
    amount_raised: u64,
) -> (r: Result<(), LedgerError>)
    ensures
        match create_check(program_id@, *old(campaign_account), *creator_account) {
            Some(e) => r == Err::<(), LedgerError>(e) && unchanged(
                *old(campaign_account),
                *final(campaign_account),
            ),
            None => r == Ok::<(), LedgerError>(()) && create_post(
                *old(campaign_account),
                *final(campaign_account),
                creator@,
                goal,
                amount_raised,
            ),
        },
{
    if !campaign_account.owner.equals(program_id) {
        return Err(LedgerError::NotOwned);
    }
    if !creator_account.is_signer {
        return Err(LedgerError::Unauthorized);
    }
    if !is_reserved(campaign_account) {
        return Err(LedgerError::InsufficientReserve);
    }
    if campaign_account.data.len() < CAMPAIGN_RECORD_LEN {
        return Err(LedgerError::MalformedOperation);
    }
    let state = CampaignState { creator, goal, amount_raised };
    let mut out = state.encode();
    append_tail(&mut out, campaign_account.data.as_slice(), CAMPAIGN_RECORD_LEN);
    campaign_account.data = out;
    Ok(())
}

/// Creation is overwrite, not accumulation: whatever payload a first
/// creation wrote, a second creation leaves the record exactly as a single
/// creation with the second payload would have.
pub proof fn lemma_create_overwrite(
    r0: Record,
    r1: Record,
    r2: Record,
    creator1: Seq<u8>,
    goal1: u64,
    amount_raised1: u64,
    creator2: Seq<u8>,
    goal2: u64,
    amount_raised2: u64,
)
    requires
        creator1.len() == 32,
        create_post(r0, r1, creator1, goal1, amount_raised1),
        create_post(r1, r2, creator2, goal2, amount_raised2),
    ensures
        create_post(r0, r2, creator2, goal2, amount_raised2),
{
    let first = campaign_bytes(
        CampaignView { creator: creator1, goal: goal1, amount_raised: amount_raised1 },
    );
    assert(first.len() == CAMPAIGN_RECORD_LEN);
    assert(r1.data@.skip(CAMPAIGN_RECORD_LEN as int) =~= r0.data@.skip(
        CAMPAIGN_RECORD_LEN as int,
    ));
}

} // verus!
