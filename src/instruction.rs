//! Instruction payloads: the leading operation code, and the arguments that
//! each operation reads after it.

use vstd::prelude::*;
use vstd::slice::*;
use crate::state::{CampaignCategory, ProcessError};
use crate::codec::{Reader, take_text, take_u64, take_i64, take_category, text_fits};
use crate::codec::lemma_text_dec;

verus! {

/// The operations that the leading byte of an instruction selects.
#[derive(Debug, Clone, Copy, PartialEq, Eq, Structural)]
pub enum Instruction {
    CreateCampaign,
    Donate,
    Withdraw,
    GetCampaignInfo,
    CancelCampaign,
    UpdateCampaign,
}

pub open spec fn spec_instruction(code: u8) -> Option<Instruction> {
    if code == 0 {
        Some(Instruction::CreateCampaign)
    } else if code == 1 {
        Some(Instruction::Donate)
    } else if code == 2 {
        Some(Instruction::Withdraw)
    } else if code == 3 {
        Some(Instruction::GetCampaignInfo)
    } else if code == 4 {
        Some(Instruction::CancelCampaign)
    } else if code == 5 {
        Some(Instruction::UpdateCampaign)
    } else {
        None
    }
}

/// Splits an instruction into its operation and the payload after the code.
/// An empty instruction or an unknown code is `InvalidInstructionData`.
pub fn decode_instruction(data: &[u8]) -> (r: Result<(Instruction, &[u8]), ProcessError>)
    ensures
        r is Ok <==> (data@.len() >= 1 && data@[0] < 6),
        r matches Ok((op, payload)) ==> Some(op) == spec_instruction(data@[0]) && payload@
            == data@.skip(1),
        r matches Err(e) ==> e == ProcessError::InvalidInstructionData,
{
    if data.len() == 0 {
        return Err(ProcessError::InvalidInstructionData);
    }
    let op = match data[0] {
        0 => Instruction::CreateCampaign,
        1 => Instruction::Donate,
        2 => Instruction::Withdraw,
        3 => Instruction::GetCampaignInfo,
        4 => Instruction::CancelCampaign,
        5 => Instruction::UpdateCampaign,
        _ => return Err(ProcessError::InvalidInstructionData),
    };
    let payload = slice_subrange(data, 1, data.len());
    assert(payload@ =~= data@.skip(1));
    Ok((op, payload))
}

/// The arguments of a campaign creation.
#[derive(Debug, Clone)]
pub struct CreateArgs {
    pub title: String,
    pub description: String,
    pub goal_amount: u64,
    pub deadline: i64,
    pub category: CampaignCategory,
}

pub struct CreateArgsView {
    pub title: Seq<char>,
    pub description: Seq<char>,
    pub goal_amount: u64,
    pub deadline: i64,
    pub category: CampaignCategory,
}

impl View for CreateArgs {
    type V = CreateArgsView;

    open spec fn view(&self) -> CreateArgsView {
        CreateArgsView {
            title: self.title@,
            description: self.description@,
            goal_amount: self.goal_amount,
            deadline: self.deadline,
            category: self.category,
        }
    }
}

/// The creation arguments at the front of a payload: title, description,
/// goal, deadline and category byte. Bytes after the category are ignored.
pub open spec fn parse_create_args(b: Seq<u8>) -> Option<CreateArgsView> {
    match take_text(b) {
        None => None,
        Some((title, b1)) => match take_text(b1) {
            None => None,
            Some((description, b2)) => match take_u64(b2) {
                None => None,
                Some((goal_amount, b3)) => match take_i64(b3) {
                    None => None,
                    Some((deadline, b4)) => match take_category(b4) {
                        None => None,
                        Some((category, _)) => Some(
                            CreateArgsView { title, description, goal_amount, deadline, category },
                        ),
                    },
                },
            },
        },
    }
}

/// Decodes the creation arguments; fails closed on truncation, invalid
/// UTF-8 or a category byte past the last category.
pub fn decode_create_args(data: &[u8]) -> (r: Option<CreateArgs>)
    ensures
        match r {
            Some(a) => parse_create_args(data@) == Some(a@),
            None => parse_create_args(data@) is None,
        },
        r matches Some(a) ==> text_fits(a.title@) && text_fits(a.description@),
{
    let mut rd = Reader::new(data);
    let ghost b0 = rd.rest();
    let title = match rd.read_text() {
        Some(v) => v,
        None => return None,
    };
    let ghost b1 = rd.rest();
    let description = match rd.read_text() {
        Some(v) => v,
        None => return None,
    };
    let goal_amount = match rd.read_u64() {
        Some(v) => v,
        None => return None,
    };
    let deadline = match rd.read_i64() {
        Some(v) => v,
        None => return None,
    };
    let category = match rd.read_category() {
        Some(v) => v,
        None => return None,
    };
    proof {
        lemma_text_dec(b0);
        lemma_text_dec(b1);
    }
    Some(CreateArgs { title, description, goal_amount, deadline, category })
}

/// The donation amount at the front of a payload; bytes after it are ignored.
pub open spec fn parse_amount(b: Seq<u8>) -> Option<u64> {
    match take_u64(b) {
        Some((v, _)) => Some(v),
        None => None,
    }
}

/// Decodes the 8-byte little-endian donation amount.
pub fn decode_amount(data: &[u8]) -> (r: Option<u64>)
    ensures
        r == parse_amount(data@),
        r is Some <==> data@.len() >= 8,
{
    let mut rd = Reader::new(data);
    rd.read_u64()
}

} // verus!
