//! The data model: errors, categories, addresses and the two persistent records.

use vstd::prelude::*;

verus! {

/// The program's own failures; each has a numeric code, its position here.
#[derive(Debug, Clone, Copy, PartialEq, Eq, Structural)]
pub enum CrowdfundingError {
    InvalidAmount,
    CampaignNotActive,
    CampaignEnded,
    GoalAlreadyReached,
    InsufficientFunds,
    WithdrawalNotAllowed,
    InvalidCampaignData,
}

impl CrowdfundingError {
    pub open spec fn spec_code(self) -> u32 {
        match self {
            CrowdfundingError::InvalidAmount => 0,
            CrowdfundingError::CampaignNotActive => 1,
            CrowdfundingError::CampaignEnded => 2,
            CrowdfundingError::GoalAlreadyReached => 3,
            CrowdfundingError::InsufficientFunds => 4,
            CrowdfundingError::WithdrawalNotAllowed => 5,
            CrowdfundingError::InvalidCampaignData => 6,
        }
    }

    /// The custom error code under which the host reports this error.
    pub fn code(&self) -> (r: u32)
        ensures
            r == self.spec_code(),
    {
        match self {
            CrowdfundingError::InvalidAmount => 0,
            CrowdfundingError::CampaignNotActive => 1,
            CrowdfundingError::CampaignEnded => 2,
            CrowdfundingError::GoalAlreadyReached => 3,
            CrowdfundingError::InsufficientFunds => 4,
            CrowdfundingError::WithdrawalNotAllowed => 5,
            CrowdfundingError::InvalidCampaignData => 6,
        }
    }
}

/// Every way an operation can be rejected: the program's own errors and the
/// generic failures of the host (missing signature, malformed bytes, ...).
#[derive(Debug, Clone, Copy, PartialEq, Eq, Structural)]
pub enum ProcessError {
    Campaign(CrowdfundingError),
    MissingRequiredSignature,
    InvalidInstructionData,
    InvalidAccountData,
    AccountDataTooSmall,
    ArithmeticOverflow,
    InvalidArgument,
}

#[derive(Debug, Clone, Copy, PartialEq, Eq, Structural)]
pub enum CampaignCategory {
    Technology,
    Art,
    Music,
    Film,
    Games,
    Education,
    Social,
    Other,
}

impl CampaignCategory {
    pub open spec fn spec_ordinal(self) -> u8 {
        match self {
            CampaignCategory::Technology => 0,
            CampaignCategory::Art => 1,
            CampaignCategory::Music => 2,
            CampaignCategory::Film => 3,
            CampaignCategory::Games => 4,
            CampaignCategory::Education => 5,
            CampaignCategory::Social => 6,
            CampaignCategory::Other => 7,
        }
    }

    pub open spec fn spec_from_ordinal(b: u8) -> Option<CampaignCategory> {
        if b == 0 {
            Some(CampaignCategory::Technology)
        } else if b == 1 {
            Some(CampaignCategory::Art)
        } else if b == 2 {
            Some(CampaignCategory::Music)
        } else if b == 3 {
            Some(CampaignCategory::Film)
        } else if b == 4 {
            Some(CampaignCategory::Games)
        } else if b == 5 {
            Some(CampaignCategory::Education)
        } else if b == 6 {
            Some(CampaignCategory::Social)
        } else if b == 7 {
            Some(CampaignCategory::Other)
        } else {
            None
        }
    }

    /// The byte that stands for this category in payloads and records.
    pub fn ordinal(&self) -> (r: u8)
        ensures
            r == self.spec_ordinal(),
            r < 8,
            Self::spec_from_ordinal(r) == Some(*self),
    {
        match self {
            CampaignCategory::Technology => 0,
            CampaignCategory::Art => 1,
            CampaignCategory::Music => 2,
            CampaignCategory::Film => 3,
            CampaignCategory::Games => 4,
            CampaignCategory::Education => 5,
            CampaignCategory::Social => 6,
            CampaignCategory::Other => 7,
        }
    }

    /// The category with the given ordinal; none past the last one.
    pub fn from_ordinal(b: u8) -> (r: Option<CampaignCategory>)
        ensures
            r == Self::spec_from_ordinal(b),
            r is Some <==> b < 8,
            r matches Some(c) ==> c.spec_ordinal() == b,
    {
        match b {
            0 => Some(CampaignCategory::Technology),
            1 => Some(CampaignCategory::Art),
            2 => Some(CampaignCategory::Music),
            3 => Some(CampaignCategory::Film),
            4 => Some(CampaignCategory::Games),
            5 => Some(CampaignCategory::Education),
            6 => Some(CampaignCategory::Social),
            7 => Some(CampaignCategory::Other),
            _ => None,
        }
    }
}

/// A 32-byte account address.
#[derive(Debug, Clone, Copy)]
pub struct Address {
    pub bytes: [u8; 32],
}

impl View for Address {
    type V = Seq<u8>;

    open spec fn view(&self) -> Seq<u8> {
        self.bytes@
    }
}

impl Address {
    pub fn new(bytes: [u8; 32]) -> (r: Address)
        ensures
            r@ == bytes@,
    {
        Address { bytes }
    }

    /// Byte-wise equality of two addresses.
    pub fn same_as(&self, other: &Address) -> (r: bool)
        ensures
            r == (self@ == other@),
    {
        let mut i: usize = 0;
        while i < 32
            invariant
                0 <= i <= 32,
                self@.len() == 32,
                other@.len() == 32,
                forall|j: int| 0 <= j < i ==> self@[j] == other@[j],
            decreases 32 - i,
        {
            if self.bytes[i] != other.bytes[i] {
                return false;
            }
            i = i + 1;
        }
        assert(self@ =~= other@);
        true
    }
}

/// One campaign, as it is stored at the campaign's address.
#[derive(Debug, Clone)]
pub struct Campaign {
    pub creator: Address,
    pub title: String,
    pub description: String,
    pub goal_amount: u64,
    pub amount_raised: u64,
    pub donors_count: u32,
    pub created_at: i64,
    pub deadline: i64,
    pub is_active: bool,
    pub category: CampaignCategory,
    pub withdrawn: bool,
}

/// The mathematical value of a [`Campaign`]: texts as character sequences.
pub struct CampaignView {
    pub creator: Seq<u8>,
    pub title: Seq<char>,
    pub description: Seq<char>,
    pub goal_amount: u64,
    pub amount_raised: u64,
    pub donors_count: u32,
    pub created_at: i64,
    pub deadline: i64,
    pub is_active: bool,
    pub category: CampaignCategory,
    pub withdrawn: bool,
}

impl View for Campaign {
    type V = CampaignView;

    open spec fn view(&self) -> CampaignView {
        CampaignView {
            creator: self.creator@,
            title: self.title@,
            description: self.description@,
            goal_amount: self.goal_amount,
            amount_raised: self.amount_raised,
            donors_count: self.donors_count,
            created_at: self.created_at,
            deadline: self.deadline,
            is_active: self.is_active,
            category: self.category,
            withdrawn: self.withdrawn,
        }
    }
}

/// The record of one donation, stored in a slot that the donor supplies.
#[derive(Debug, Clone, Copy)]
pub struct DonorInfo {
    pub donor: Address,
    pub amount: u64,
    pub donated_at: i64,
    pub campaign_id: Address,
}

pub struct DonorInfoView {
    pub donor: Seq<u8>,
    pub amount: u64,
    pub donated_at: i64,
    pub campaign_id: Seq<u8>,
}

impl View for DonorInfo {
    type V = DonorInfoView;

    open spec fn view(&self) -> DonorInfoView {
        DonorInfoView {
            donor: self.donor@,
            amount: self.amount,
            donated_at: self.donated_at,
            campaign_id: self.campaign_id@,
        }
    }
}

} // verus!
