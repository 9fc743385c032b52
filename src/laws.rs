//! Properties of the lifecycle that span inputs or several operations.

use vstd::prelude::*;
use crate::state::{CampaignView, CrowdfundingError, ProcessError};
use crate::codec::lemma_text_dec;
use crate::record::{campaign_wf, campaign_bytes, parse_campaign, lemma_campaign_layout};
use crate::instruction::{parse_create_args, parse_amount};
use crate::engine::{create_model, donate_model, withdraw_model, DonateModel, ended};

verus! {

/// A creation that succeeds opens an active campaign with nothing raised, no
/// donors and nothing withdrawn, and its stored form decodes back to it.
pub proof fn law_create_opens_fresh_campaign(creator: Seq<u8>, now: i64, payload: Seq<u8>)
    requires
        creator.len() == 32,
        parse_create_args(payload) matches Some(a) && a.deadline > now,
    ensures
        create_model(creator, true, now, payload) matches Ok(c) && c.amount_raised == 0
            && c.donors_count == 0 && c.is_active && !c.withdrawn && c.created_at == now
            && campaign_wf(c) && parse_campaign(campaign_bytes(c)) == Some(c),
{
    lemma_text_dec(payload);
    if let Some((_, rest)) = crate::codec::take_text(payload) {
        lemma_text_dec(rest);
    }
    let c = create_model(creator, true, now, payload)->Ok_0;
    lemma_campaign_layout(campaign_bytes(c), c);
}

/// A creation whose deadline is not after the current time fails with
/// `InvalidCampaignData`, whatever the goal and category.
pub proof fn law_create_rejects_past_deadline(creator: Seq<u8>, now: i64, payload: Seq<u8>)
    requires
        parse_create_args(payload) matches Some(a) && a.deadline <= now,
    ensures
        create_model(creator, true, now, payload) == Err::<CampaignView, ProcessError>(
            ProcessError::Campaign(CrowdfundingError::InvalidCampaignData),
        ),
{
}

/// The facts of one donation request, besides the stored campaign.
pub struct DonationRequest {
    pub donor: Seq<u8>,
    pub donor_balance: u64,
    pub campaign_id: Seq<u8>,
    pub donor_slot_len: usize,
    pub now: i64,
    pub payload: Seq<u8>,
}

/// The amount a request asks to give.
pub open spec fn requested(s: DonationRequest) -> int {
    match parse_amount(s.payload) {
        Some(a) => a as int,
        None => 0,
    }
}

/// The total that a list of requests asks to give.
pub open spec fn requested_total(steps: Seq<DonationRequest>) -> int
    decreases steps.len(),
{
    if steps.len() == 0 {
        0
    } else {
        requested_total(steps.drop_last()) + requested(steps.last())
    }
}

/// The campaign after each request is accepted in turn, each against the
/// stored form of the campaign that the one before left; none if one is not.
pub open spec fn accepted_run(c0: CampaignView, steps: Seq<DonationRequest>) -> Option<CampaignView>
    decreases steps.len(),
{
    if steps.len() == 0 {
        Some(c0)
    } else {
        match accepted_run(c0, steps.drop_last()) {
            None => None,
            Some(c) => {
                let s = steps.last();
                match donate_model(
                    s.donor,
                    true,
                    s.donor_balance,
                    s.campaign_id,
                    campaign_bytes(c),
                    s.donor_slot_len,
                    s.now,
                    s.payload,
                ) {
                    DonateModel::Accepted { campaign, .. } => Some(campaign),
                    _ => None,
                }
            },
        }
    }
}

/// After donations of amounts a1..an are all accepted, the campaign has raised
/// exactly their sum more and counts n more donors; and an account that held
/// at least what was raised before, and received each accepted amount, still
/// holds at least what is raised.
pub proof fn law_donations_accumulate(c0: CampaignView, steps: Seq<DonationRequest>, held: int)
    requires
        campaign_wf(c0),
        accepted_run(c0, steps) is Some,
        held >= c0.amount_raised,
    ensures
        accepted_run(c0, steps) matches Some(c) && campaign_wf(c) && c.amount_raised
            == c0.amount_raised + requested_total(steps) && c.donors_count == c0.donors_count
            + steps.len() && held + requested_total(steps) >= c.amount_raised,
    decreases steps.len(),
{
    if steps.len() > 0 {
        law_donations_accumulate(c0, steps.drop_last(), held);
        let c = accepted_run(c0, steps.drop_last())->Some_0;
        lemma_campaign_layout(campaign_bytes(c), c);
    }
}

/// A donation that reaches an active campaign after its deadline is refused
/// with `CampaignEnded`, and the campaign is stored as no longer active.
pub proof fn law_late_donation_ends_campaign(
    donor: Seq<u8>,
    donor_balance: u64,
    campaign_id: Seq<u8>,
    stored: Seq<u8>,
    donor_slot_len: usize,
    now: i64,
    payload: Seq<u8>,
)
    requires
        parse_amount(payload) matches Some(a) && a > 0 && donor_balance >= a,
        parse_campaign(stored) matches Some(c) && c.is_active && now > c.deadline,
    ensures
        donate_model(donor, true, donor_balance, campaign_id, stored, donor_slot_len, now, payload)
            == (DonateModel::Ended { campaign: ended(parse_campaign(stored)->Some_0) }),
        !ended(parse_campaign(stored)->Some_0).is_active,
{
}

/// A signed donation of amount zero is refused with `InvalidAmount`,
/// whatever the campaign, the balance or the time.
pub proof fn law_zero_donation_refused(
    donor: Seq<u8>,
    donor_balance: u64,
    campaign_id: Seq<u8>,
    stored: Seq<u8>,
    donor_slot_len: usize,
    now: i64,
    payload: Seq<u8>,
)
    requires
        parse_amount(payload) == Some(0u64),
    ensures
        donate_model(donor, true, donor_balance, campaign_id, stored, donor_slot_len, now, payload)
            == (DonateModel::Refused {
            error: ProcessError::Campaign(CrowdfundingError::InvalidAmount),
        }),
{
}

/// A withdrawal by anyone but the creator, or before the deadline with the
/// goal not reached, or from a campaign already withdrawn, fails with
/// `WithdrawalNotAllowed`.
pub proof fn law_withdraw_refusals(
    caller: Seq<u8>,
    stored: Seq<u8>,
    campaign_balance: u64,
    destination_balance: u64,
    now: i64,
)
    requires
        parse_campaign(stored) matches Some(c) && (c.creator != caller || (now < c.deadline
            && c.amount_raised < c.goal_amount) || c.withdrawn),
    ensures
        withdraw_model(caller, true, stored, campaign_balance, destination_balance, now) == Err::<
            CampaignView,
            ProcessError,
        >(ProcessError::Campaign(CrowdfundingError::WithdrawalNotAllowed)),
{
}

/// Once a withdrawal succeeds, every later one from the campaign it stored
/// fails with `WithdrawalNotAllowed`.
pub proof fn law_withdraw_once(
    caller: Seq<u8>,
    stored: Seq<u8>,
    campaign_balance: u64,
    destination_balance: u64,
    now: i64,
    later_caller: Seq<u8>,
    later_balance: u64,
    later_destination_balance: u64,
    later: i64,
)
    requires
        withdraw_model(caller, true, stored, campaign_balance, destination_balance, now) is Ok,
    ensures
        withdraw_model(caller, true, stored, campaign_balance, destination_balance, now) matches Ok(
            c,
        ) && withdraw_model(
            later_caller,
            true,
            campaign_bytes(c),
            later_balance,
            later_destination_balance,
            later,
        ) == Err::<CampaignView, ProcessError>(
            ProcessError::Campaign(CrowdfundingError::WithdrawalNotAllowed),
        ),
{
    let c0 = parse_campaign(stored)->Some_0;
    lemma_campaign_layout(stored, c0);
    let c = withdraw_model(caller, true, stored, campaign_balance, destination_balance, now)->Ok_0;
    lemma_campaign_layout(campaign_bytes(c), c);
}

} // verus!
