//! Byte-level layout of the three record types: exact images, round trips,
//! and rejection of short buffers.

use crowdfunding_program::error::LedgerError;
use crowdfunding_program::pubkey::Pubkey;
use crowdfunding_program::state::{CampaignState, DonationState, WithdrawState};

fn key(b: u8) -> Pubkey {
    Pubkey { bytes: [b; 32] }
}

#[test]
fn campaign_encode_exact_layout() {
    let state = CampaignState { creator: key(7), goal: 1_000_000, amount_raised: 258 };
    let out = state.encode();
    assert_eq!(out.len(), 48);
    assert_eq!(&out[0..32], &[7u8; 32]);
    // 1_000_000 = 0x000F4240, little-endian.
    assert_eq!(&out[32..40], &[0x40, 0x42, 0x0F, 0, 0, 0, 0, 0]);
    // 258 = 0x0102, little-endian.
    assert_eq!(&out[40..48], &[2, 1, 0, 0, 0, 0, 0, 0]);
}

#[test]
fn campaign_round_trip() {
    let state = CampaignState { creator: key(9), goal: u64::MAX, amount_raised: 12345 };
    let mut bytes = state.encode();
    // Excess bytes beyond the 48-byte prefix are ignored on read.
    bytes.push(0xAA);
    bytes.push(0xBB);
    let back = CampaignState::decode(&bytes).unwrap();
    assert_eq!(back.creator.bytes, [9u8; 32]);
    assert_eq!(back.goal, u64::MAX);
    assert_eq!(back.amount_raised, 12345);
}

#[test]
fn donation_round_trip() {
    let state = DonationState { campaign: key(1), donor: key(2), amount: 500_000 };
    let bytes = state.encode();
    assert_eq!(bytes.len(), 72);
    let back = DonationState::decode(&bytes).unwrap();
    assert_eq!(back.campaign.bytes, [1u8; 32]);
    assert_eq!(back.donor.bytes, [2u8; 32]);
    assert_eq!(back.amount, 500_000);
}

#[test]
fn withdraw_round_trip() {
    let state =
        WithdrawState { campaign: key(3), creator: key(4), recipient: key(5), amount: 200_000 };
    let bytes = state.encode();
    assert_eq!(bytes.len(), 104);
    let back = WithdrawState::decode(&bytes).unwrap();
    assert_eq!(back.campaign.bytes, [3u8; 32]);
    assert_eq!(back.creator.bytes, [4u8; 32]);
    assert_eq!(back.recipient.bytes, [5u8; 32]);
    assert_eq!(back.amount, 200_000);
}

#[test]
fn decode_short_buffers_fail() {
    let short = vec![0u8; 47];
    assert_eq!(
        CampaignState::decode(&short).err(),
        Some(LedgerError::MalformedOperation)
    );
    let short = vec![0u8; 71];
    assert_eq!(
        DonationState::decode(&short).err(),
        Some(LedgerError::MalformedOperation)
    );
    let short = vec![0u8; 103];
    assert_eq!(
        WithdrawState::decode(&short).err(),
        Some(LedgerError::MalformedOperation)
    );
}

#[test]
fn decode_exact_length_succeeds() {
    let bytes = vec![0u8; 48];
    let back = CampaignState::decode(&bytes).unwrap();
    assert_eq!(back.creator.bytes, [0u8; 32]);
    assert_eq!(back.goal, 0);
    assert_eq!(back.amount_raised, 0);
}
