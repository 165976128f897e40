//! The dispatcher path: decoding operation bytes and running the whole
//! lifecycle scenario through `process_instruction`.

use crowdfunding_program::error::LedgerError;
use crowdfunding_program::instruction::ProgramInstruction;
use crowdfunding_program::process_instruction;
use crowdfunding_program::pubkey::Pubkey;
use crowdfunding_program::record::Record;
use crowdfunding_program::state::CampaignState;

fn key(b: u8) -> Pubkey {
    Pubkey { bytes: [b; 32] }
}

fn record(key_b: u8, owner_b: u8, signer: bool, writable: bool, balance: u64, len: usize) -> Record {
    Record {
        key: key(key_b),
        owner: key(owner_b),
        is_signer: signer,
        is_writable: writable,
        balance,
        data: vec![0u8; len],
    }
}

const PROGRAM: u8 = 42;

fn create_ix(creator: &Pubkey, goal: u64, amount_raised: u64) -> Vec<u8> {
    let mut v = vec![0u8];
    v.extend_from_slice(&creator.bytes);
    v.extend_from_slice(&goal.to_le_bytes());
    v.extend_from_slice(&amount_raised.to_le_bytes());
    v
}

fn donate_ix(campaign: &Pubkey, donor: &Pubkey, amount: u64) -> Vec<u8> {
    let mut v = vec![1u8];
    v.extend_from_slice(&campaign.bytes);
    v.extend_from_slice(&donor.bytes);
    v.extend_from_slice(&amount.to_le_bytes());
    v
}

fn withdraw_ix(campaign: &Pubkey, creator: &Pubkey, recipient: &Pubkey, amount: u64) -> Vec<u8> {
    let mut v = vec![2u8];
    v.extend_from_slice(&campaign.bytes);
    v.extend_from_slice(&creator.bytes);
    v.extend_from_slice(&recipient.bytes);
    v.extend_from_slice(&amount.to_le_bytes());
    v
}

#[test]
fn unpack_create() {
    let ix = create_ix(&key(20), 1_000_000, 3);
    match ProgramInstruction::unpack(&ix).unwrap() {
        ProgramInstruction::CreateCampaign { creator, goal, amount_raised } => {
            assert_eq!(creator.bytes, [20u8; 32]);
            assert_eq!(goal, 1_000_000);
            assert_eq!(amount_raised, 3);
        },
        _ => panic!("wrong variant"),
    }
}

#[test]
fn unpack_donate() {
    let ix = donate_ix(&key(10), &key(30), 500_000);
    match ProgramInstruction::unpack(&ix).unwrap() {
        ProgramInstruction::DonateFunds { campaign, donor, amount } => {
            assert_eq!(campaign.bytes, [10u8; 32]);
            assert_eq!(donor.bytes, [30u8; 32]);
            assert_eq!(amount, 500_000);
        },
        _ => panic!("wrong variant"),
    }
}

#[test]
fn unpack_withdraw() {
    let ix = withdraw_ix(&key(10), &key(20), &key(40), 200_000);
    match ProgramInstruction::unpack(&ix).unwrap() {
        ProgramInstruction::WithdrawFunds { campaign, creator, recipient, amount } => {
            assert_eq!(campaign.bytes, [10u8; 32]);
            assert_eq!(creator.bytes, [20u8; 32]);
            assert_eq!(recipient.bytes, [40u8; 32]);
            assert_eq!(amount, 200_000);
        },
        _ => panic!("wrong variant"),
    }
}

#[test]
fn unpack_rejects_bad_input() {
    assert_eq!(
        ProgramInstruction::unpack(&[]).err(),
        Some(LedgerError::MalformedOperation)
    );
    // Unknown tag.
    let mut ix = create_ix(&key(20), 1, 0);
    ix[0] = 3;
    assert_eq!(
        ProgramInstruction::unpack(&ix).err(),
        Some(LedgerError::MalformedOperation)
    );
    // Payload one byte short.
    let ix = create_ix(&key(20), 1, 0);
    assert_eq!(
        ProgramInstruction::unpack(&ix[..ix.len() - 1]).err(),
        Some(LedgerError::MalformedOperation)
    );
    // Trailing byte after the payload.
    let mut ix = donate_ix(&key(10), &key(30), 5);
    ix.push(0);
    assert_eq!(
        ProgramInstruction::unpack(&ix).err(),
        Some(LedgerError::MalformedOperation)
    );
}

#[test]
fn process_too_few_accounts() {
    let program_id = key(PROGRAM);
    let ix = create_ix(&key(20), 1, 0);
    let mut accounts = vec![record(10, PROGRAM, false, true, 100_000_000_000, 48)];
    let r = process_instruction(&program_id, &mut accounts, &ix);
    assert_eq!(r, Err(LedgerError::InvalidAccountState));
    let ix = withdraw_ix(&key(10), &key(20), &key(40), 1);
    let mut accounts = vec![
        record(10, PROGRAM, false, true, 100_000_000_000, 48),
        record(20, 0, true, true, 0, 104),
    ];
    let r = process_instruction(&program_id, &mut accounts, &ix);
    assert_eq!(r, Err(LedgerError::InvalidAccountState));
}

#[test]
fn process_malformed_bytes() {
    let program_id = key(PROGRAM);
    let mut accounts = vec![
        record(10, PROGRAM, false, true, 100_000_000_000, 48),
        record(20, 0, true, true, 0, 0),
    ];
    let r = process_instruction(&program_id, &mut accounts, &[9, 9, 9]);
    assert_eq!(r, Err(LedgerError::MalformedOperation));
    assert_eq!(accounts[0].balance, 100_000_000_000);
}

/// The full lifecycle: create, read back, donate, withdraw, then an
/// overdrawn withdrawal that fails and moves nothing.
#[test]
fn crowdfunding_lifecycle() {
    let program_id = key(PROGRAM);
    let creator = key(20);
    let donor = key(30);
    let recipient_key = key(40);

    // The campaign record is pre-funded above the storage reservation.
    let mut campaign = record(10, PROGRAM, false, true, 2_000_000, 48);
    let mut creator_rec = record(20, 0, true, true, 0, 104);
    let mut donor_slip = record(30, 0, true, true, 700_000, 72);
    let mut recipient = record(40, 0, false, true, 1_000, 0);

    // createCampaign(creator = C, goal = 1_000_000, amount_raised = 0).
    let ix = create_ix(&creator, 1_000_000, 0);
    let mut accounts = vec![campaign, creator_rec];
    process_instruction(&program_id, &mut accounts, &ix).unwrap();
    creator_rec = accounts.pop().unwrap();
    campaign = accounts.pop().unwrap();
    let back = CampaignState::decode(&campaign.data).unwrap();
    assert_eq!(back.creator.bytes, creator.bytes);
    assert_eq!(back.goal, 1_000_000);
    assert_eq!(back.amount_raised, 0);

    // donate 500_000 from a slip holding at least that much.
    let ix = donate_ix(&key(10), &donor, 500_000);
    let mut accounts = vec![campaign, donor_slip];
    process_instruction(&program_id, &mut accounts, &ix).unwrap();
    donor_slip = accounts.pop().unwrap();
    campaign = accounts.pop().unwrap();
    assert_eq!(campaign.balance, 2_500_000);
    assert_eq!(donor_slip.balance, 200_000);
    let back = CampaignState::decode(&campaign.data).unwrap();
    assert_eq!(back.amount_raised, 500_000);

    // withdraw 200_000, authorized as the creator.
    let ix = withdraw_ix(&key(10), &creator, &recipient_key, 200_000);
    let mut accounts = vec![campaign, creator_rec, recipient];
    process_instruction(&program_id, &mut accounts, &ix).unwrap();
    recipient = accounts.pop().unwrap();
    creator_rec = accounts.pop().unwrap();
    campaign = accounts.pop().unwrap();
    assert_eq!(campaign.balance, 2_300_000);
    assert_eq!(recipient.balance, 201_000);

    // An overdrawn withdrawal fails and leaves every balance unchanged.
    let ix = withdraw_ix(&key(10), &creator, &recipient_key, 10_000_000);
    let mut accounts = vec![campaign, creator_rec, recipient];
    let r = process_instruction(&program_id, &mut accounts, &ix);
    assert_eq!(r, Err(LedgerError::InsufficientFunds));
    recipient = accounts.pop().unwrap();
    let _ = accounts.pop().unwrap();
    campaign = accounts.pop().unwrap();
    assert_eq!(campaign.balance, 2_300_000);
    assert_eq!(recipient.balance, 201_000);
}
