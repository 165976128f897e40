//! Decoding the opaque operation buffer the dispatcher hands in.
//!
//! The wire format is one tag byte followed by a fixed-width payload:
//! tag 0 creates a campaign (creator, goal, amount raised), tag 1 donates
//! (campaign, donor, amount), tag 2 withdraws (campaign, creator,
//! recipient, amount). Identifiers are 32 raw bytes and amounts eight
//! little-endian bytes. Any other tag, a payload shorter than its layout,
//! or trailing bytes after it fail with `MalformedOperation` before any
//! handler runs.

use vstd::prelude::*;

use crate::codec::{le8_val, read_key, read_u64_le};
use crate::error::LedgerError;
use crate::pubkey::Pubkey;

verus! {

/// Total byte length of a create operation: tag, creator, goal, amount
/// raised.
pub const CREATE_OP_LEN: usize = 49;

/// Total byte length of a donate operation: tag, campaign, donor, amount.
pub const DONATE_OP_LEN: usize = 73;

/// Total byte length of a withdraw operation: tag, campaign, creator,
/// recipient, amount.
pub const WITHDRAW_OP_LEN: usize = 105;

/// The payload of a create operation.
pub struct CreateCampaignPayload {
    pub creator: Pubkey,
    pub goal: u64,
    pub amount_raised: u64,
}

/// The payload of a donate operation.
pub struct DonateFundsPayload {
    pub campaign: Pubkey,
    pub donor: Pubkey,
    pub amount: u64,
}

/// The payload of a withdraw operation.
pub struct WithdrawFundsPayload {
    pub campaign: Pubkey,
    pub creator: Pubkey,
    pub recipient: Pubkey,
    pub amount: u64,
}

/// One typed operation, as decoded from the dispatcher's byte buffer.
pub enum ProgramInstruction {
    CreateCampaign { creator: Pubkey, goal: u64, amount_raised: u64 },
    DonateFunds { campaign: Pubkey, donor: Pubkey, amount: u64 },
    WithdrawFunds { campaign: Pubkey, creator: Pubkey, recipient: Pubkey, amount: u64 },
}

/// Mathematical image of a `ProgramInstruction`.
pub ghost enum InstructionView {
    CreateCampaign { creator: Seq<u8>, goal: u64, amount_raised: u64 },
    DonateFunds { campaign: Seq<u8>, donor: Seq<u8>, amount: u64 },
    WithdrawFunds { campaign: Seq<u8>, creator: Seq<u8>, recipient: Seq<u8>, amount: u64 },
}

impl View for ProgramInstruction {
    type V = InstructionView;

    open spec fn view(&self) -> InstructionView {
        match *self {
            ProgramInstruction::CreateCampaign { creator, goal, amount_raised } =>
                InstructionView::CreateCampaign { creator: creator@, goal, amount_raised },
            ProgramInstruction::DonateFunds { campaign, donor, amount } =>
                InstructionView::DonateFunds { campaign: campaign@, donor: donor@, amount },
            ProgramInstruction::WithdrawFunds { campaign, creator, recipient, amount } =>
                InstructionView::WithdrawFunds {
                    campaign: campaign@,
                    creator: creator@,
                    recipient: recipient@,
                    amount,
                },
        }
    }
}

/// The operation encoded in `data`, or the failure `unpack` must return:
/// an empty buffer, an unknown tag, a short payload and trailing bytes are
/// all malformed.
pub open spec fn unpack_spec(data: Seq<u8>) -> Result<InstructionView, LedgerError> {
    if data.len() == 0 {
        Err(LedgerError::MalformedOperation)
    } else if data[0] == 0 && data.len() == CREATE_OP_LEN {
        Ok(
            InstructionView::CreateCampaign {
                creator: data.subrange(1, 33),
                goal: le8_val(data.subrange(33, 41)),
                amount_raised: le8_val(data.subrange(41, 49)),
            },
        )
    } else if data[0] == 1 && data.len() == DONATE_OP_LEN {
        Ok(
            InstructionView::DonateFunds {
                campaign: data.subrange(1, 33),
                donor: data.subrange(33, 65),
                amount: le8_val(data.subrange(65, 73)),
            },
        )
    } else if data[0] == 2 && data.len() == WITHDRAW_OP_LEN {
        Ok(
            InstructionView::WithdrawFunds {
                campaign: data.subrange(1, 33),
                creator: data.subrange(33, 65),
                recipient: data.subrange(65, 97),
                amount: le8_val(data.subrange(97, 105)),
            },
        )
    } else {
        Err(LedgerError::MalformedOperation)
    }
}

impl ProgramInstruction {
    /// Decodes one operation from the dispatcher's buffer, exactly as
    /// `unpack_spec` reads it.
    pub fn unpack(instruction_data: &[u8]) -> (r: Result<ProgramInstruction, LedgerError>)
        ensures
            match unpack_spec(instruction_data@) {
                Ok(iv) => r matches Ok(ins) && ins@ == iv,
                Err(e) => r == Err::<ProgramInstruction, LedgerError>(e),
            },
    {
        if instruction_data.len() == 0 {
            return Err(LedgerError::MalformedOperation);
        }
        let tag = instruction_data[0];
        if tag == 0 && instruction_data.len() == CREATE_OP_LEN {
            let payload = CreateCampaignPayload {
                creator: read_key(instruction_data, 1),
                goal: read_u64_le(instruction_data, 33),
                amount_raised: read_u64_le(instruction_data, 41),
            };
            Ok(
                ProgramInstruction::CreateCampaign {
                    creator: payload.creator,
                    goal: payload.goal,
                    amount_raised: payload.amount_raised,
                },
            )
        } else if tag == 1 && instruction_data.len() == DONATE_OP_LEN {
            let payload = DonateFundsPayload {
                campaign: read_key(instruction_data, 1),
                donor: read_key(instruction_data, 33),
                amount: read_u64_le(instruction_data, 65),
            };
            Ok(
                ProgramInstruction::DonateFunds {
                    campaign: payload.campaign,
                    donor: payload.donor,
                    amount: payload.amount,
                },
            )
        } else if tag == 2 && instruction_data.len() == WITHDRAW_OP_LEN {
            let payload = WithdrawFundsPayload {
                campaign: read_key(instruction_data, 1),
                creator: read_key(instruction_data, 33),
                recipient: read_key(instruction_data, 65),
                amount: read_u64_le(instruction_data, 97),
            };
            Ok(
                ProgramInstruction::WithdrawFunds {
                    campaign: payload.campaign,
                    creator: payload.creator,
                    recipient: payload.recipient,
                    amount: payload.amount,
                },
            )
        } else {
            Err(LedgerError::MalformedOperation)
        }
    }
}

} // verus!
