//! The campaign lifecycle: creation, donation and withdrawal as decisions on
//! plain values. The host supplies what only it knows (signatures, balances,
//! the clock, stored bytes) and carries out what is decided (allocations,
//! transfers, writes).

use vstd::prelude::*;
use crate::state::{
    Address, Campaign, CampaignView, CrowdfundingError, DonorInfo, DonorInfoView, ProcessError,
};
use crate::record::{
    campaign_wf, campaign_bytes, parse_campaign, donor_bytes, encode_campaign, decode_campaign,
    encode_donor, lemma_campaign_len, DONOR_RECORD_LEN,
};
use crate::instruction::{CreateArgsView, parse_create_args, parse_amount, decode_create_args, decode_amount};

verus! {

/// The campaign that a creation opens.
pub open spec fn created(creator: Seq<u8>, a: CreateArgsView, now: i64) -> CampaignView {
    CampaignView {
        creator,
        title: a.title,
        description: a.description,
        goal_amount: a.goal_amount,
        amount_raised: 0,
        donors_count: 0,
        created_at: now,
        deadline: a.deadline,
        is_active: true,
        category: a.category,
        withdrawn: false,
    }
}

/// What a creation request leads to.
pub open spec fn create_model(creator: Seq<u8>, signed: bool, now: i64, payload: Seq<u8>) -> Result<
    CampaignView,
    ProcessError,
> {
    if !signed {
        Err(ProcessError::MissingRequiredSignature)
    } else {
        match parse_create_args(payload) {
            None => Err(ProcessError::Campaign(CrowdfundingError::InvalidCampaignData)),
            Some(a) => if a.deadline <= now {
                Err(ProcessError::Campaign(CrowdfundingError::InvalidCampaignData))
            } else {
                Ok(created(creator, a, now))
            },
        }
    }
}

/// Opens a campaign for `creator` from a creation payload, at time `now`.
/// The host then allocates an account of the record's encoded length and
/// stores the record there.
pub fn create_campaign(creator: &Address, creator_signed: bool, now: i64, data: &[u8]) -> (r: Result<
    Campaign,
    ProcessError,
>)
    ensures
        r matches Ok(c) ==> create_model(creator@, creator_signed, now, data@) == Ok::<
            CampaignView,
            ProcessError,
        >(c@) && campaign_wf(c@),
        r matches Err(e) ==> create_model(creator@, creator_signed, now, data@) == Err::<
            CampaignView,
            ProcessError,
        >(e),
{
    if !creator_signed {
        return Err(ProcessError::MissingRequiredSignature);
    }
    let args = match decode_create_args(data) {
        Some(a) => a,
        None => return Err(ProcessError::Campaign(CrowdfundingError::InvalidCampaignData)),
    };
    if args.deadline <= now {
        return Err(ProcessError::Campaign(CrowdfundingError::InvalidCampaignData));
    }
    Ok(
        Campaign {
            creator: *creator,
            title: args.title,
            description: args.description,
            goal_amount: args.goal_amount,
            amount_raised: 0,
            donors_count: 0,
            created_at: now,
            deadline: args.deadline,
            is_active: true,
            category: args.category,
            withdrawn: false,
        },
    )
}

/// The campaign after one accepted donation of `amount`.
pub open spec fn donated(c: CampaignView, amount: u64) -> CampaignView {
    CampaignView {
        amount_raised: (c.amount_raised + amount) as u64,
        donors_count: (c.donors_count + 1) as u32,
        ..c
    }
}

/// The campaign once its deadline has been seen to pass.
pub open spec fn ended(c: CampaignView) -> CampaignView {
    CampaignView { is_active: false, ..c }
}

/// The campaign after its funds were withdrawn.
pub open spec fn withdrawn(c: CampaignView) -> CampaignView {
    CampaignView { is_active: false, withdrawn: true, ..c }
}

/// What a donation request leads to.
pub enum DonateModel {
    /// The donation goes through: this campaign and this donor record are stored.
    Accepted { campaign: CampaignView, record: DonorInfoView, amount: u64 },
    /// The deadline has passed: the campaign is stored as ended, and the
    /// donation is refused with `CampaignEnded`.
    Ended { campaign: CampaignView },
    /// The donation is refused and nothing is stored.
    Refused { error: ProcessError },
}

pub open spec fn donate_model(
    donor: Seq<u8>,
    signed: bool,
    donor_balance: u64,
    campaign_id: Seq<u8>,
    stored: Seq<u8>,
    donor_slot_len: usize,
    now: i64,
    payload: Seq<u8>,
) -> DonateModel {
    if !signed {
        DonateModel::Refused { error: ProcessError::MissingRequiredSignature }
    } else {
        match parse_amount(payload) {
            None => DonateModel::Refused { error: ProcessError::InvalidInstructionData },
            Some(amount) => if amount == 0 {
                DonateModel::Refused {
                    error: ProcessError::Campaign(CrowdfundingError::InvalidAmount),
                }
            } else if donor_balance < amount {
                DonateModel::Refused {
                    error: ProcessError::Campaign(CrowdfundingError::InsufficientFunds),
                }
            } else {
                match parse_campaign(stored) {
                    None => DonateModel::Refused { error: ProcessError::InvalidAccountData },
                    Some(c) => if !c.is_active {
                        DonateModel::Refused {
                            error: ProcessError::Campaign(CrowdfundingError::CampaignNotActive),
                        }
                    } else if now > c.deadline {
                        DonateModel::Ended { campaign: ended(c) }
                    } else if c.amount_raised + amount > u64::MAX || c.donors_count + 1
                        > u32::MAX {
                        DonateModel::Refused { error: ProcessError::ArithmeticOverflow }
                    } else if donor_slot_len != 0 && donor_slot_len < DONOR_RECORD_LEN {
                        DonateModel::Refused { error: ProcessError::AccountDataTooSmall }
                    } else {
                        DonateModel::Accepted {
                            campaign: donated(c, amount),
                            record: DonorInfoView {
                                donor,
                                amount,
                                donated_at: now,
                                campaign_id,
                            },
                            amount,
                        }
                    },
                }
            },
        }
    }
}

/// An accepted donation: move `amount` from the donor to the campaign, then
/// store `campaign_data` at the campaign and `record_data` in the donor slot,
/// allocating the slot first when `allocate_record` says it is empty.
pub struct Donation {
    pub amount: u64,
    pub allocate_record: bool,
    pub campaign: Campaign,
    pub campaign_data: Vec<u8>,
    pub record: DonorInfo,
    pub record_data: Vec<u8>,
}

/// A refused donation; `ended` holds the campaign record to store even so,
/// when the refusal is the observation that the deadline passed.
pub struct Rejection {
    pub error: ProcessError,
    pub ended: Option<Vec<u8>>,
}

/// Decides a donation of the amount in `data` by `donor` to the campaign
/// stored as `campaign_data` at `campaign_id`, at time `now`.
pub fn donate_to_campaign(
    donor: &Address,
    donor_signed: bool,
    donor_balance: u64,
    campaign_id: &Address,
    campaign_data: &[u8],
    donor_slot_len: usize,
    now: i64,
    data: &[u8],
) -> (r: Result<Donation, Rejection>)
    ensures
        r matches Ok(d) ==> donate_model(
            donor@,
            donor_signed,
            donor_balance,
            campaign_id@,
            campaign_data@,
            donor_slot_len,
            now,
            data@,
        ) == (DonateModel::Accepted { campaign: d.campaign@, record: d.record@, amount: d.amount })
            && d.campaign_data@ == campaign_bytes(d.campaign@) && d.campaign_data@.len()
            == campaign_data@.len() && d.record_data@ == donor_bytes(d.record@)
            && d.record_data@.len() == DONOR_RECORD_LEN && d.allocate_record == (donor_slot_len
            == 0),
        r matches Err(j) ==> match donate_model(
            donor@,
            donor_signed,
            donor_balance,
            campaign_id@,
            campaign_data@,
            donor_slot_len,
            now,
            data@,
        ) {
            DonateModel::Ended { campaign } => j.error == ProcessError::Campaign(
                CrowdfundingError::CampaignEnded,
            ) && (j.ended matches Some(b) && b@ == campaign_bytes(campaign) && b@.len()
                == campaign_data@.len()),
            DonateModel::Refused { error } => j.error == error && j.ended is None,
            DonateModel::Accepted { .. } => false,
        },
{
    if !donor_signed {
        return Err(Rejection { error: ProcessError::MissingRequiredSignature, ended: None });
    }
    let amount = match decode_amount(data) {
        Some(a) => a,
        None => return Err(Rejection { error: ProcessError::InvalidInstructionData, ended: None }),
    };
    if amount == 0 {
        return Err(
            Rejection {
                error: ProcessError::Campaign(CrowdfundingError::InvalidAmount),
                ended: None,
            },
        );
    }
    if donor_balance < amount {
        return Err(
            Rejection {
                error: ProcessError::Campaign(CrowdfundingError::InsufficientFunds),
                ended: None,
            },
        );
    }
    let mut campaign = match decode_campaign(campaign_data) {
        Some(c) => c,
        None => return Err(Rejection { error: ProcessError::InvalidAccountData, ended: None }),
    };
    if !campaign.is_active {
        return Err(
            Rejection {
                error: ProcessError::Campaign(CrowdfundingError::CampaignNotActive),
                ended: None,
            },
        );
    }
    proof {
        lemma_campaign_len(campaign@);
    }
    if now > campaign.deadline {
        campaign.is_active = false;
        proof {
            lemma_campaign_len(campaign@);
        }
        let bytes = encode_campaign(&campaign);
        return Err(
            Rejection {
                error: ProcessError::Campaign(CrowdfundingError::CampaignEnded),
                ended: Some(bytes),
            },
        );
    }
    if campaign.amount_raised > u64::MAX - amount || campaign.donors_count == u32::MAX {
        return Err(Rejection { error: ProcessError::ArithmeticOverflow, ended: None });
    }
    if donor_slot_len != 0 && donor_slot_len < DONOR_RECORD_LEN {
        return Err(Rejection { error: ProcessError::AccountDataTooSmall, ended: None });
    }
    campaign.amount_raised = campaign.amount_raised + amount;
    campaign.donors_count = campaign.donors_count + 1;
    proof {
        lemma_campaign_len(campaign@);
    }
    let new_data = encode_campaign(&campaign);
    let record = DonorInfo { donor: *donor, amount, donated_at: now, campaign_id: *campaign_id };
    let record_data = encode_donor(&record);
    Ok(
        Donation {
            amount,
            allocate_record: donor_slot_len == 0,
            campaign,
            campaign_data: new_data,
            record,
            record_data,
        },
    )
}

/// What a withdrawal request leads to: the campaign to store, or the error.
pub open spec fn withdraw_model(
    caller: Seq<u8>,
    signed: bool,
    stored: Seq<u8>,
    campaign_balance: u64,
    destination_balance: u64,
    now: i64,
) -> Result<CampaignView, ProcessError> {
    if !signed {
        Err(ProcessError::MissingRequiredSignature)
    } else {
        match parse_campaign(stored) {
            None => Err(ProcessError::InvalidAccountData),
            Some(c) => if c.creator != caller {
                Err(ProcessError::Campaign(CrowdfundingError::WithdrawalNotAllowed))
            } else if now < c.deadline && c.amount_raised < c.goal_amount {
                Err(ProcessError::Campaign(CrowdfundingError::WithdrawalNotAllowed))
            } else if c.withdrawn {
                Err(ProcessError::Campaign(CrowdfundingError::WithdrawalNotAllowed))
            } else if campaign_balance == 0 {
                Err(ProcessError::Campaign(CrowdfundingError::InsufficientFunds))
            } else if destination_balance + campaign_balance > u64::MAX {
                Err(ProcessError::InvalidArgument)
            } else {
                Ok(withdrawn(c))
            },
        }
    }
}

/// An accepted withdrawal: the campaign account's whole balance `amount`
/// moves to the destination, whose balance becomes `destination_balance`;
/// the campaign account is left with nothing, and `campaign_data` is stored.
pub struct Withdrawal {
    pub amount: u64,
    pub destination_balance: u64,
    pub campaign: Campaign,
    pub campaign_data: Vec<u8>,
}

/// Decides a withdrawal by `caller` from the campaign stored as
/// `campaign_data`, whose account holds `campaign_balance`, to a destination
/// that holds `destination_balance`, at time `now`.
pub fn withdraw_funds(
    caller: &Address,
    caller_signed: bool,
    campaign_data: &[u8],
    campaign_balance: u64,
    destination_balance: u64,
    now: i64,
) -> (r: Result<Withdrawal, ProcessError>)
    ensures
        r matches Ok(w) ==> withdraw_model(
            caller@,
            caller_signed,
            campaign_data@,
            campaign_balance,
            destination_balance,
            now,
        ) == Ok::<CampaignView, ProcessError>(w.campaign@) && w.amount == campaign_balance
            && w.destination_balance == destination_balance + campaign_balance
            && w.campaign_data@ == campaign_bytes(w.campaign@) && w.campaign_data@.len()
            == campaign_data@.len(),
        r matches Err(e) ==> withdraw_model(
            caller@,
            caller_signed,
            campaign_data@,
            campaign_balance,
            destination_balance,
            now,
        ) == Err::<CampaignView, ProcessError>(e),
{
    if !caller_signed {
        return Err(ProcessError::MissingRequiredSignature);
    }
    let mut campaign = match decode_campaign(campaign_data) {
        Some(c) => c,
        None => return Err(ProcessError::InvalidAccountData),
    };
    if !campaign.creator.same_as(caller) {
        return Err(ProcessError::Campaign(CrowdfundingError::WithdrawalNotAllowed));
    }
    if now < campaign.deadline && campaign.amount_raised < campaign.goal_amount {
        return Err(ProcessError::Campaign(CrowdfundingError::WithdrawalNotAllowed));
    }
    if campaign.withdrawn {
        return Err(ProcessError::Campaign(CrowdfundingError::WithdrawalNotAllowed));
    }
    if campaign_balance == 0 {
        return Err(ProcessError::Campaign(CrowdfundingError::InsufficientFunds));
    }
    if destination_balance > u64::MAX - campaign_balance {
        return Err(ProcessError::InvalidArgument);
    }
    proof {
        lemma_campaign_len(campaign@);
    }
    campaign.withdrawn = true;
    campaign.is_active = false;
    proof {
        lemma_campaign_len(campaign@);
    }
    let new_data = encode_campaign(&campaign);
    Ok(
        Withdrawal {
            amount: campaign_balance,
            destination_balance: destination_balance + campaign_balance,
            campaign,
            campaign_data: new_data,
        },
    )
}

/// Reads the campaign stored in an account, for a read-only query.
pub fn get_campaign_info(campaign_data: &[u8]) -> (r: Result<Campaign, ProcessError>)
    ensures
        r matches Ok(c) ==> parse_campaign(campaign_data@) == Some(c@),
        r matches Err(e) ==> e == ProcessError::InvalidAccountData && parse_campaign(
            campaign_data@,
        ) is None,
{
    match decode_campaign(campaign_data) {
        Some(c) => Ok(c),
        None => Err(ProcessError::InvalidAccountData),
    }
}

} // verus!
