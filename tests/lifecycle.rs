use crowdfunding::engine::{
    create_campaign, donate_to_campaign, get_campaign_info, withdraw_funds, Donation, Rejection,
};
use crowdfunding::record::encode_campaign;
use crowdfunding::state::{
    Address, Campaign, CampaignCategory, CrowdfundingError, ProcessError,
};

const T: i64 = 1_700_000_000;

fn addr(b: u8) -> Address {
    Address::new([b; 32])
}

fn text(out: &mut Vec<u8>, s: &[u8]) {
    out.extend_from_slice(&(s.len() as u32).to_le_bytes());
    out.extend_from_slice(s);
}

fn create_payload(title: &str, description: &str, goal: u64, deadline: i64, category: u8) -> Vec<u8> {
    let mut out = Vec::new();
    text(&mut out, title.as_bytes());
    text(&mut out, description.as_bytes());
    out.extend_from_slice(&goal.to_le_bytes());
    out.extend_from_slice(&deadline.to_le_bytes());
    out.push(category);
    out
}

fn open(goal: u64, deadline: i64) -> Vec<u8> {
    let payload = create_payload("Solar kit", "Panels for the school", goal, deadline, 0);
    let c = create_campaign(&addr(1), true, T, &payload).unwrap();
    encode_campaign(&c)
}

fn donate(stored: &[u8], amount: u64, now: i64) -> Result<Donation, Rejection> {
    donate_to_campaign(&addr(2), true, 1_000_000, &addr(9), stored, 0, now, &amount.to_le_bytes())
}

fn err(e: CrowdfundingError) -> ProcessError {
    ProcessError::Campaign(e)
}

#[test]
fn test_create_campaign() {
    let payload = create_payload("Solar kit", "Panels for the school", 1000, T + 100, 4);
    let c = create_campaign(&addr(1), true, T, &payload).unwrap();
    assert_eq!(c.creator.bytes, [1u8; 32]);
    assert_eq!(c.title, "Solar kit");
    assert_eq!(c.description, "Panels for the school");
    assert_eq!(c.goal_amount, 1000);
    assert_eq!(c.amount_raised, 0);
    assert_eq!(c.donors_count, 0);
    assert_eq!(c.created_at, T);
    assert_eq!(c.deadline, T + 100);
    assert!(c.is_active);
    assert_eq!(c.category, CampaignCategory::Games);
    assert!(!c.withdrawn);
}

#[test]
fn create_then_stored_form_decodes_back() {
    let payload = create_payload("Кино", "a film ✓", 5, T + 1, 3);
    let c = create_campaign(&addr(7), true, T, &payload).unwrap();
    let stored = encode_campaign(&c);
    let d = get_campaign_info(&stored).unwrap();
    assert_eq!(d.creator.bytes, c.creator.bytes);
    assert_eq!(d.title, "Кино");
    assert_eq!(d.description, "a film ✓");
    assert_eq!(d.goal_amount, 5);
    assert_eq!(d.deadline, T + 1);
    assert_eq!(d.category, CampaignCategory::Film);
    assert!(d.is_active && !d.withdrawn);
}

#[test]
fn create_requires_signature() {
    let payload = create_payload("a", "b", 1, T + 10, 0);
    let r = create_campaign(&addr(1), false, T, &payload);
    assert_eq!(r.unwrap_err(), ProcessError::MissingRequiredSignature);
}

#[test]
fn create_rejects_deadline_not_in_future() {
    for deadline in [T, T - 1, i64::MIN] {
        for category in 0..8u8 {
            let payload = create_payload("a", "b", 77, deadline, category);
            let r = create_campaign(&addr(1), true, T, &payload);
            assert_eq!(r.unwrap_err(), err(CrowdfundingError::InvalidCampaignData));
        }
    }
}

#[test]
fn create_rejects_unknown_category() {
    let payload = create_payload("a", "b", 1, T + 10, 8);
    let r = create_campaign(&addr(1), true, T, &payload);
    assert_eq!(r.unwrap_err(), err(CrowdfundingError::InvalidCampaignData));
}

#[test]
fn create_rejects_truncated_payload() {
    let payload = create_payload("a", "b", 1, T + 10, 0);
    for n in 0..payload.len() {
        let r = create_campaign(&addr(1), true, T, &payload[..n]);
        assert_eq!(r.unwrap_err(), err(CrowdfundingError::InvalidCampaignData));
    }
}

#[test]
fn create_rejects_invalid_utf8_title() {
    let mut payload = Vec::new();
    text(&mut payload, &[0xff, 0xfe]);
    text(&mut payload, b"ok");
    payload.extend_from_slice(&1u64.to_le_bytes());
    payload.extend_from_slice(&(T + 10).to_le_bytes());
    payload.push(0);
    let r = create_campaign(&addr(1), true, T, &payload);
    assert_eq!(r.unwrap_err(), err(CrowdfundingError::InvalidCampaignData));
}

#[test]
fn scenario_goal_reached_then_withdraw() {
    let stored = open(1000, T + 100);
    let d1 = donate(&stored, 400, T + 1).ok().unwrap();
    assert_eq!(d1.amount, 400);
    assert_eq!(d1.campaign.amount_raised, 400);
    assert_eq!(d1.campaign.donors_count, 1);
    assert_eq!(d1.campaign_data.len(), stored.len());
    let d2 = donate(&d1.campaign_data, 600, T + 2).ok().unwrap();
    assert_eq!(d2.campaign.amount_raised, 1000);
    assert_eq!(d2.campaign.donors_count, 2);
    let rent_reserve = 1_400_000;
    let held = rent_reserve + 400 + 600;
    let w = withdraw_funds(&addr(1), true, &d2.campaign_data, held, 5, T + 3).ok().unwrap();
    assert_eq!(w.amount, held);
    assert_eq!(w.destination_balance, 5 + held);
    assert!(w.campaign.withdrawn);
    assert!(!w.campaign.is_active);
    let again = withdraw_funds(&addr(1), true, &w.campaign_data, 10, 0, T + 4);
    assert_eq!(again.err().unwrap(), err(CrowdfundingError::WithdrawalNotAllowed));
}

#[test]
fn scenario_no_donations_withdraw() {
    let stored = open(1000, T + 10);
    let early = withdraw_funds(&addr(1), true, &stored, 0, 0, T + 5);
    assert_eq!(early.err().unwrap(), err(CrowdfundingError::WithdrawalNotAllowed));
    let late = withdraw_funds(&addr(1), true, &stored, 0, 0, T + 11);
    assert_eq!(late.err().unwrap(), err(CrowdfundingError::InsufficientFunds));
}

#[test]
fn donations_accumulate() {
    let amounts = [3u64, 1, 4, 1, 5, 9, 2, 6];
    let mut stored = open(1_000_000, T + 100);
    let mut held: u64 = 0;
    for (i, a) in amounts.iter().enumerate() {
        let d = donate(&stored, *a, T + i as i64).ok().unwrap();
        held += d.amount;
        stored = d.campaign_data;
    }
    let c = get_campaign_info(&stored).unwrap();
    assert_eq!(c.amount_raised, 31);
    assert_eq!(c.donors_count, 8);
    assert!(held >= c.amount_raised);
}

#[test]
fn donation_goal_exceeded_still_accepted() {
    let stored = open(10, T + 100);
    let d = donate(&stored, 50, T + 1).ok().unwrap();
    let d = donate(&d.campaign_data, 5, T + 2).ok().unwrap();
    assert_eq!(d.campaign.amount_raised, 55);
    assert!(d.campaign.is_active);
}

#[test]
fn donation_record_written() {
    let stored = open(10, T + 100);
    let d = donate(&stored, 7, T + 3).ok().unwrap();
    assert_eq!(d.record.donor.bytes, [2u8; 32]);
    assert_eq!(d.record.amount, 7);
    assert_eq!(d.record.donated_at, T + 3);
    assert_eq!(d.record.campaign_id.bytes, [9u8; 32]);
    let mut expected = vec![2u8; 32];
    expected.extend_from_slice(&7u64.to_le_bytes());
    expected.extend_from_slice(&(T + 3).to_le_bytes());
    expected.extend_from_slice(&[9u8; 32]);
    assert_eq!(d.record_data, expected);
    assert!(d.allocate_record);
    let slot = donate_to_campaign(&addr(2), true, 100, &addr(9), &stored, 80, T, &5u64.to_le_bytes());
    assert!(!slot.ok().unwrap().allocate_record);
}

#[test]
fn late_donation_ends_campaign() {
    let stored = open(1000, T + 100);
    let r = donate(&stored, 10, T + 101).err().unwrap();
    assert_eq!(r.error, err(CrowdfundingError::CampaignEnded));
    let ended = r.ended.unwrap();
    assert_eq!(ended.len(), stored.len());
    let c = get_campaign_info(&ended).unwrap();
    assert!(!c.is_active);
    assert_eq!(c.amount_raised, 0);
    let again = donate(&ended, 10, T + 102).err().unwrap();
    assert_eq!(again.error, err(CrowdfundingError::CampaignNotActive));
    assert!(again.ended.is_none());
}

#[test]
fn donation_at_deadline_accepted() {
    let stored = open(1000, T + 100);
    assert!(donate(&stored, 10, T + 100).is_ok());
}

#[test]
fn zero_donation_refused_in_any_state() {
    let stored = open(1000, T + 100);
    let ended = donate(&stored, 10, T + 101).err().unwrap().ended.unwrap();
    for data in [stored.clone(), ended, vec![], vec![1, 2, 3]] {
        for now in [T, T + 1000] {
            let r = donate(&data, 0, now).err().unwrap();
            assert_eq!(r.error, err(CrowdfundingError::InvalidAmount));
            assert!(r.ended.is_none());
        }
    }
}

#[test]
fn donation_errors() {
    let stored = open(1000, T + 100);
    let unsigned = donate_to_campaign(&addr(2), false, 100, &addr(9), &stored, 0, T, &5u64.to_le_bytes());
    assert_eq!(unsigned.err().unwrap().error, ProcessError::MissingRequiredSignature);
    let short = donate_to_campaign(&addr(2), true, 100, &addr(9), &stored, 0, T, &[1, 2, 3]);
    assert_eq!(short.err().unwrap().error, ProcessError::InvalidInstructionData);
    let poor = donate_to_campaign(&addr(2), true, 4, &addr(9), &stored, 0, T, &5u64.to_le_bytes());
    assert_eq!(poor.err().unwrap().error, err(CrowdfundingError::InsufficientFunds));
    let garbage = donate(&stored[..stored.len() - 1], 5, T);
    assert_eq!(garbage.err().unwrap().error, ProcessError::InvalidAccountData);
    let small_slot = donate_to_campaign(&addr(2), true, 100, &addr(9), &stored, 79, T, &5u64.to_le_bytes());
    assert_eq!(small_slot.err().unwrap().error, ProcessError::AccountDataTooSmall);
    let big_slot = donate_to_campaign(&addr(2), true, 100, &addr(9), &stored, 80, T, &5u64.to_le_bytes());
    assert!(big_slot.is_ok());
}

#[test]
fn donation_overflow_refused() {
    let stored = open(1000, T + 100);
    let d = donate_to_campaign(&addr(2), true, u64::MAX, &addr(9), &stored, 0, T, &u64::MAX.to_le_bytes())
        .ok()
        .unwrap();
    let r = donate(&d.campaign_data, 1, T + 1).err().unwrap();
    assert_eq!(r.error, ProcessError::ArithmeticOverflow);
}

#[test]
fn withdraw_errors() {
    let stored = open(1000, T + 100);
    let d = donate(&stored, 1000, T + 1).ok().unwrap();
    let unsigned = withdraw_funds(&addr(1), false, &d.campaign_data, 10, 0, T + 2);
    assert_eq!(unsigned.err().unwrap(), ProcessError::MissingRequiredSignature);
    let stranger = withdraw_funds(&addr(3), true, &d.campaign_data, 10, 0, T + 2);
    assert_eq!(stranger.err().unwrap(), err(CrowdfundingError::WithdrawalNotAllowed));
    let empty = withdraw_funds(&addr(1), true, &d.campaign_data, 0, 0, T + 2);
    assert_eq!(empty.err().unwrap(), err(CrowdfundingError::InsufficientFunds));
    let overflow = withdraw_funds(&addr(1), true, &d.campaign_data, 10, u64::MAX - 9, T + 2);
    assert_eq!(overflow.err().unwrap(), ProcessError::InvalidArgument);
    let bad = withdraw_funds(&addr(1), true, &[0u8; 10], 10, 0, T + 2);
    assert_eq!(bad.err().unwrap(), ProcessError::InvalidAccountData);
}

#[test]
fn withdraw_after_deadline_without_goal() {
    let stored = open(1000, T + 10);
    let d = donate(&stored, 10, T + 1).ok().unwrap();
    let w = withdraw_funds(&addr(1), true, &d.campaign_data, 900, 0, T + 10).ok().unwrap();
    assert_eq!(w.amount, 900);
    assert_eq!(w.campaign.amount_raised, 10);
    assert!(w.campaign.withdrawn);
}

#[test]
fn campaign_info_rejects_trailing_bytes() {
    let mut stored = open(1000, T + 10);
    stored.push(0);
    assert_eq!(get_campaign_info(&stored).err().unwrap(), ProcessError::InvalidAccountData);
}

#[test]
fn campaign_info_rejects_bad_flag() {
    let stored = open(1000, T + 10);
    let mut bad = stored.clone();
    let n = bad.len();
    bad[n - 1] = 2;
    assert_eq!(get_campaign_info(&bad).err().unwrap(), ProcessError::InvalidAccountData);
    let c: Campaign = get_campaign_info(&stored).unwrap();
    assert!(!c.withdrawn);
}
