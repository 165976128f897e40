//! Invariant-preserving transition logic for a small fund-custody ledger.
//!
//! Campaign records aggregate donated funds; donation and withdrawal slips
//! are reusable scratch records that carry per-call details. Every handler
//! validates all of its preconditions before mutating anything, so a failed
//! operation leaves every record exactly as it found it.

use vstd::prelude::*;

mod codec;
pub mod instruction;
pub mod error;
pub mod modules;
pub mod pubkey;
pub mod record;
pub mod rent;
pub mod state;

use error::LedgerError;
use instruction::{unpack_spec, InstructionView, ProgramInstruction};
use modules::create_campaign::{create_campaign, create_check, create_post};
use modules::donate_to_campaign::{donate_check, donate_post, donate_to_campaign};
use modules::withdraw_from_campaign::{withdraw_check, withdraw_from_campaign, withdraw_post};
use pubkey::Pubkey;
use record::{unchanged, Record};

verus! {

/// Every record of `post` from index `k` on is exactly the record of `pre`:
/// an operation touches only the records at the front of the call's list.
pub open spec fn tail_same(pre: Seq<Record>, post: Seq<Record>, k: int) -> bool {
    forall|i: int| k <= i < pre.len() ==> post[i] == pre[i]
}

/// An inert record to swap into a slot while its real record is handled.
fn blank_record() -> Record {
    Record {
        key: Pubkey::filled(0),
        owner: Pubkey::filled(0),
        is_signer: false,
        is_writable: false,
        balance: 0,
        data: Vec::new(),
    }
}

/// Decodes one operation from `instruction_data` and runs its handler on
/// the records at the front of `accounts`: a creation reads the campaign
/// record and the creator record, a donation the campaign record and the
/// donation slip, a withdrawal the campaign record, the creator record and
/// the recipient record, in that order. Any failure — an undecodable
/// operation, too few records, or a handler precondition — is returned as
/// is, with every record left byte-for-byte as it was; records beyond the
/// ones an operation names are never touched.
pub fn process_instruction(
    program_id: &Pubkey,
    accounts: &mut Vec<Record>,
    instruction_data: &[u8],
) -> (r: Result<(), LedgerError>)
    ensures
        final(accounts)@.len() == old(accounts)@.len(),
        match unpack_spec(instruction_data@) {
            Err(e) => r == Err::<(), LedgerError>(e) && final(accounts)@ == old(accounts)@,
            Ok(iv) => match iv {
                InstructionView::CreateCampaign { creator, goal, amount_raised } => {
                    if old(accounts)@.len() < 2 {
                        r == Err::<(), LedgerError>(LedgerError::InvalidAccountState)
                            && final(accounts)@ == old(accounts)@
                    } else {
                        tail_same(old(accounts)@, final(accounts)@, 2) && final(accounts)@[1]
                            == old(accounts)@[1] && match create_check(
                            program_id@,
                            old(accounts)@[0],
                            old(accounts)@[1],
                        ) {
                            Some(e) => r == Err::<(), LedgerError>(e) && unchanged(
                                old(accounts)@[0],
                                final(accounts)@[0],
                            ),
                            None => r == Ok::<(), LedgerError>(()) && create_post(
                                old(accounts)@[0],
                                final(accounts)@[0],
                                creator,
                                goal,
                                amount_raised,
                            ),
                        }
                    }
                },
                InstructionView::DonateFunds { campaign, donor, amount } => {
                    if old(accounts)@.len() < 2 {
                        r == Err::<(), LedgerError>(LedgerError::InvalidAccountState)
                            && final(accounts)@ == old(accounts)@
                    } else {
                        tail_same(old(accounts)@, final(accounts)@, 2) && match donate_check(
                            program_id@,
                            old(accounts)@[0],
                            old(accounts)@[1],
                            amount,
                        ) {
                            Some(e) => r == Err::<(), LedgerError>(e) && unchanged(
                                old(accounts)@[0],
                                final(accounts)@[0],
                            ) && unchanged(old(accounts)@[1], final(accounts)@[1]),
                            None => r == Ok::<(), LedgerError>(()) && donate_post(
                                old(accounts)@[0],
                                final(accounts)@[0],
                                old(accounts)@[1],
                                final(accounts)@[1],
                                campaign,
                                donor,
                                amount,
                            ),
                        }
                    }
                },
                InstructionView::WithdrawFunds { campaign, creator, recipient, amount } => {
                    if old(accounts)@.len() < 3 {
                        r == Err::<(), LedgerError>(LedgerError::InvalidAccountState)
                            && final(accounts)@ == old(accounts)@
                    } else {
                        tail_same(old(accounts)@, final(accounts)@, 3) && match withdraw_check(
                            program_id@,
                            old(accounts)@[0],
                            old(accounts)@[1],
                            old(accounts)@[2],
                            amount,
                        ) {
                            Some(e) => r == Err::<(), LedgerError>(e) && unchanged(
                                old(accounts)@[0],
                                final(accounts)@[0],
                            ) && unchanged(old(accounts)@[1], final(accounts)@[1]) && unchanged(
                                old(accounts)@[2],
                                final(accounts)@[2],
                            ),
                            None => r == Ok::<(), LedgerError>(()) && withdraw_post(
                                old(accounts)@[0],
                                final(accounts)@[0],
                                old(accounts)@[1],
                                final(accounts)@[1],
                                old(accounts)@[2],
                                final(accounts)@[2],
                                campaign,
                                creator,
                                recipient,
                                amount,
                            ),
                        }
                    }
                },
            },
        },
{
    let instruction = match ProgramInstruction::unpack(instruction_data) {
        Ok(ins) => ins,
        Err(e) => {
            return Err(e);
        },
    };
    match instruction {
        ProgramInstruction::CreateCampaign { creator, goal, amount_raised } => {
            if accounts.len() < 2 {
                return Err(LedgerError::InvalidAccountState);
            }
            let mut campaign_account = blank_record();
            accounts.set_and_swap(0, &mut campaign_account);
            let mut creator_account = blank_record();
            accounts.set_and_swap(1, &mut creator_account);
            let r = create_campaign(
                program_id,
                &mut campaign_account,
                &creator_account,
                creator,
                goal,
                amount_raised,
            );
            accounts.set_and_swap(0, &mut campaign_account);
            accounts.set_and_swap(1, &mut creator_account);
            assert(accounts@ =~= old(accounts)@.update(
                0,
                accounts@[0],
            ).update(1, accounts@[1]));
            r
        },
        ProgramInstruction::DonateFunds { campaign, donor, amount } => {
            if accounts.len() < 2 {
                return Err(LedgerError::InvalidAccountState);
            }
            let mut campaign_account = blank_record();
            accounts.set_and_swap(0, &mut campaign_account);
            let mut donation_account = blank_record();
            accounts.set_and_swap(1, &mut donation_account);
            let r = donate_to_campaign(
                program_id,
                &mut campaign_account,
                &mut donation_account,
                campaign,
                donor,
                amount,
            );
            accounts.set_and_swap(0, &mut campaign_account);
            accounts.set_and_swap(1, &mut donation_account);
            assert(accounts@ =~= old(accounts)@.update(
                0,
                accounts@[0],
            ).update(1, accounts@[1]));
            r
        },
        ProgramInstruction::WithdrawFunds { campaign, creator, recipient, amount } => {
            if accounts.len() < 3 {
                return Err(LedgerError::InvalidAccountState);
            }
            let mut campaign_account = blank_record();
            accounts.set_and_swap(0, &mut campaign_account);
            let mut creator_account = blank_record();
            accounts.set_and_swap(1, &mut creator_account);
            let mut recipient_account = blank_record();
            accounts.set_and_swap(2, &mut recipient_account);
            let r = withdraw_from_campaign(
                program_id,
                &mut campaign_account,
                &mut creator_account,
                &mut recipient_account,
                campaign,
                creator,
                recipient,
                amount,
            );
            accounts.set_and_swap(0, &mut campaign_account);
            accounts.set_and_swap(1, &mut creator_account);
            accounts.set_and_swap(2, &mut recipient_account);
            assert(accounts@ =~= old(accounts)@.update(0, accounts@[0]).update(
                1,
                accounts@[1],
            ).update(2, accounts@[2]));
            r
        },
    }
}

} // verus!
