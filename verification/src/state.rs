//! The structured state of the three record types, and the typed read/write
//! view over their raw bytes.
//!
//! Each record type has a fixed layout with no padding: identifiers are 32
//! raw bytes, amounts are eight little-endian bytes. A buffer shorter than
//! the layout fails to decode; a longer one is accepted, its excess bytes
//! ignored on read and left untouched on write beyond the encoded prefix.

use vstd::prelude::*;

use crate::codec::{append_key, append_u64_le, le8, le8_val, lemma_le8_round_trip, read_key,
    read_u64_le};
use crate::error::LedgerError;
use crate::pubkey::Pubkey;

verus! {

/// Byte length of an encoded campaign: 32-byte creator, goal, amount raised.
pub const CAMPAIGN_RECORD_LEN: usize = 48;

/// Byte length of an encoded donation slip: campaign, donor, amount.
pub const DONATION_RECORD_LEN: usize = 72;

/// Byte length of an encoded withdrawal slip: campaign, creator, recipient,
/// amount.
pub const WITHDRAW_RECORD_LEN: usize = 104;

/// The aggregation point for donated funds.
pub struct CampaignState {
    /// The party that created the campaign; only it may withdraw.
    pub creator: Pubkey,
    /// The fundraising goal, an accounting annotation.
    pub goal: u64,
    /// Total donated so far through the donation handler.
    pub amount_raised: u64,
}

/// The most recent donation recorded through a donation slip record.
pub struct DonationState {
    /// Address of the campaign donated to.
    pub campaign: Pubkey,
    /// The donating party.
    pub donor: Pubkey,
    /// The donated amount.
    pub amount: u64,
}

/// The most recent withdrawal recorded through a withdrawal slip record.
pub struct WithdrawState {
    /// Address of the campaign withdrawn from.
    pub campaign: Pubkey,
    /// The authorizing creator.
    pub creator: Pubkey,
    /// The party whose record received the funds.
    pub recipient: Pubkey,
    /// The withdrawn amount.
    pub amount: u64,
}

/// Mathematical image of a `CampaignState`.
pub ghost struct CampaignView {
    pub creator: Seq<u8>,
    pub goal: u64,
    pub amount_raised: u64,
}

/// Mathematical image of a `DonationState`.
pub ghost struct DonationView {
    pub campaign: Seq<u8>,
    pub donor: Seq<u8>,
    pub amount: u64,
}

/// Mathematical image of a `WithdrawState`.
pub ghost struct WithdrawView {
    pub campaign: Seq<u8>,
    pub creator: Seq<u8>,
    pub recipient: Seq<u8>,
    pub amount: u64,
}

impl View for CampaignState {
    type V = CampaignView;

    open spec fn view(&self) -> CampaignView {
        CampaignView { creator: self.creator@, goal: self.goal, amount_raised: self.amount_raised }
    }
}

impl View for DonationState {
    type V = DonationView;

    open spec fn view(&self) -> DonationView {
        DonationView { campaign: self.campaign@, donor: self.donor@, amount: self.amount }
    }
}

impl View for WithdrawState {
    type V = WithdrawView;

    open spec fn view(&self) -> WithdrawView {
        WithdrawView {
            campaign: self.campaign@,
            creator: self.creator@,
            recipient: self.recipient@,
            amount: self.amount,
        }
    }
}

/// The 48-byte image of a campaign.
pub open spec fn campaign_bytes(c: CampaignView) -> Seq<u8> {
    c.creator + le8(c.goal) + le8(c.amount_raised)
}

/// The 72-byte image of a donation slip.
pub open spec fn donation_bytes(d: DonationView) -> Seq<u8> {
    d.campaign + d.donor + le8(d.amount)
}

/// The 104-byte image of a withdrawal slip.
pub open spec fn withdraw_bytes(w: WithdrawView) -> Seq<u8> {
    w.campaign + w.creator + w.recipient + le8(w.amount)
}

/// The campaign encoded in the first 48 bytes of `s`.
pub open spec fn campaign_view_of(s: Seq<u8>) -> CampaignView
    recommends
        s.len() >= CAMPAIGN_RECORD_LEN,
{
    CampaignView {
        creator: s.subrange(0, 32),
        goal: le8_val(s.subrange(32, 40)),
        amount_raised: le8_val(s.subrange(40, 48)),
    }
}

/// The donation slip encoded in the first 72 bytes of `s`.
pub open spec fn donation_view_of(s: Seq<u8>) -> DonationView
    recommends
        s.len() >= DONATION_RECORD_LEN,
{
    DonationView {
        campaign: s.subrange(0, 32),
        donor: s.subrange(32, 64),
        amount: le8_val(s.subrange(64, 72)),
    }
}

/// The withdrawal slip encoded in the first 104 bytes of `s`.
pub open spec fn withdraw_view_of(s: Seq<u8>) -> WithdrawView
    recommends
        s.len() >= WITHDRAW_RECORD_LEN,
{
    WithdrawView {
        campaign: s.subrange(0, 32),
        creator: s.subrange(32, 64),
        recipient: s.subrange(64, 96),
        amount: le8_val(s.subrange(96, 104)),
    }
}

impl CampaignState {
    /// Encodes this campaign into its 48-byte image.
    pub fn encode(&self) -> (out: Vec<u8>)
        ensures
            out@ == campaign_bytes(self@),
            out@.len() == CAMPAIGN_RECORD_LEN,
    {
        let mut out: Vec<u8> = Vec::new();
        append_key(&mut out, &self.creator);
        append_u64_le(&mut out, self.goal);
        append_u64_le(&mut out, self.amount_raised);
        assert(out@ =~= campaign_bytes(self@));
        out
    }

    /// Decodes a campaign from the first 48 bytes of `data`; a shorter
    /// buffer fails, and excess bytes are ignored.
    pub fn decode(data: &[u8]) -> (r: Result<CampaignState, LedgerError>)
        ensures
            data@.len() >= CAMPAIGN_RECORD_LEN ==> (r matches Ok(c) && c@ == campaign_view_of(
                data@)),
            data@.len() < CAMPAIGN_RECORD_LEN ==> r == Err::<CampaignState, LedgerError>(
                LedgerError::MalformedOperation),
    {
        if data.len() < CAMPAIGN_RECORD_LEN {
            return Err(LedgerError::MalformedOperation);
        }
        Ok(CampaignState {
            creator: read_key(data, 0),
            goal: read_u64_le(data, 32),
            amount_raised: read_u64_le(data, 40),
        })
    }
}

impl DonationState {
    /// Encodes this donation slip into its 72-byte image.
    pub fn encode(&self) -> (out: Vec<u8>)
        ensures
            out@ == donation_bytes(self@),
            out@.len() == DONATION_RECORD_LEN,
    {
        let mut out: Vec<u8> = Vec::new();
        append_key(&mut out, &self.campaign);
        append_key(&mut out, &self.donor);
        append_u64_le(&mut out, self.amount);
        assert(out@ =~= donation_bytes(self@));
        out
    }

    /// Decodes a donation slip from the first 72 bytes of `data`.
    pub fn decode(data: &[u8]) -> (r: Result<DonationState, LedgerError>)
        ensures
            data@.len() >= DONATION_RECORD_LEN ==> (r matches Ok(d) && d@ == donation_view_of(
                data@)),
            data@.len() < DONATION_RECORD_LEN ==> r == Err::<DonationState, LedgerError>(
                LedgerError::MalformedOperation),
    {
        if data.len() < DONATION_RECORD_LEN {
            return Err(LedgerError::MalformedOperation);
        }
        Ok(DonationState {
            campaign: read_key(data, 0),
            donor: read_key(data, 32),
            amount: read_u64_le(data, 64),
        })
    }
}

impl WithdrawState {
    /// Encodes this withdrawal slip into its 104-byte image.
    pub fn encode(&self) -> (out: Vec<u8>)
        ensures
            out@ == withdraw_bytes(self@),
            out@.len() == WITHDRAW_RECORD_LEN,
    {
        let mut out: Vec<u8> = Vec::new();
        append_key(&mut out, &self.campaign);
        append_key(&mut out, &self.creator);
        append_key(&mut out, &self.recipient);
        append_u64_le(&mut out, self.amount);
        assert(out@ =~= withdraw_bytes(self@));
        out
    }

    /// Decodes a withdrawal slip from the first 104 bytes of `data`.
    pub fn decode(data: &[u8]) -> (r: Result<WithdrawState, LedgerError>)
        ensures
            data@.len() >= WITHDRAW_RECORD_LEN ==> (r matches Ok(w) && w@ == withdraw_view_of(
                data@)),
            data@.len() < WITHDRAW_RECORD_LEN ==> r == Err::<WithdrawState, LedgerError>(
                LedgerError::MalformedOperation),
    {
        if data.len() < WITHDRAW_RECORD_LEN {
            return Err(LedgerError::MalformedOperation);
        }
        Ok(WithdrawState {
            campaign: read_key(data, 0),
            creator: read_key(data, 32),
            recipient: read_key(data, 64),
            amount: read_u64_le(data, 96),
        })
    }
}

/// Encoding a campaign and reading it back, with any tail after the 48-byte
/// prefix, yields the campaign unchanged.
pub proof fn lemma_campaign_round_trip(c: CampaignView, tail: Seq<u8>)
    requires
        c.creator.len() == 32,
    ensures
        campaign_bytes(c).len() == CAMPAIGN_RECORD_LEN,
        campaign_view_of(campaign_bytes(c) + tail) == c,
{
    let s = campaign_bytes(c) + tail;
    assert(s.subrange(0, 32) =~= c.creator);
    assert(s.subrange(32, 40) =~= le8(c.goal));
    assert(s.subrange(40, 48) =~= le8(c.amount_raised));
    lemma_le8_round_trip(c.goal);
    lemma_le8_round_trip(c.amount_raised);
}

/// Encoding a donation slip and reading it back, with any tail after the
/// 72-byte prefix, yields the slip unchanged.
pub proof fn lemma_donation_round_trip(d: DonationView, tail: Seq<u8>)
    requires
        d.campaign.len() == 32,
        d.donor.len() == 32,
    ensures
        donation_bytes(d).len() == DONATION_RECORD_LEN,
        donation_view_of(donation_bytes(d) + tail) == d,
{
    let s = donation_bytes(d) + tail;
    assert(s.subrange(0, 32) =~= d.campaign);
    assert(s.subrange(32, 64) =~= d.donor);
    assert(s.subrange(64, 72) =~= le8(d.amount));
    lemma_le8_round_trip(d.amount);
}

/// Encoding a withdrawal slip and reading it back, with any tail after the
/// 104-byte prefix, yields the slip unchanged.
pub proof fn lemma_withdraw_round_trip(w: WithdrawView, tail: Seq<u8>)
    requires
        w.campaign.len() == 32,
        w.creator.len() == 32,
        w.recipient.len() == 32,
    ensures
        withdraw_bytes(w).len() == WITHDRAW_RECORD_LEN,
        withdraw_view_of(withdraw_bytes(w) + tail) == w,
{
    let s = withdraw_bytes(w) + tail;
    assert(s.subrange(0, 32) =~= w.campaign);
    assert(s.subrange(32, 64) =~= w.creator);
    assert(s.subrange(64, 96) =~= w.recipient);
    assert(s.subrange(96, 104) =~= le8(w.amount));
    lemma_le8_round_trip(w.amount);
}

} // verus!
