//! The persistent layout of [`Campaign`] and [`DonorInfo`]: fields in
//! declaration order, nothing between them, nothing after the last one.

use vstd::prelude::*;
use vstd::bytes::*;
use vstd::utf8::*;
use vstd::string::*;
use crate::state::{Campaign, CampaignView, DonorInfo, DonorInfoView};
use crate::codec::{
    Reader, take_bytes, take_u32, take_u64, take_i64, take_bool, take_category,
    take_text, i64_bytes, bool_bytes, text_fits, text_bytes, push_slice, push_text, lemma_bytes_enc,
    lemma_bytes_dec, lemma_u32_enc, lemma_u32_dec, lemma_u64_enc, lemma_u64_dec, lemma_i64_enc,
    lemma_i64_dec, lemma_bool_enc, lemma_bool_dec, lemma_category_enc, lemma_category_dec,
    lemma_text_enc, lemma_text_dec,
};

verus! {

/// The length of a stored donor record: two addresses and two 8-byte integers.
pub const DONOR_RECORD_LEN: usize = 80;

pub open spec fn campaign_wf(c: CampaignView) -> bool {
    &&& c.creator.len() == 32
    &&& text_fits(c.title)
    &&& text_fits(c.description)
}

#[verifier::opaque]
pub open spec fn campaign_bytes(c: CampaignView) -> Seq<u8> {
    c.creator + (text_bytes(c.title) + (text_bytes(c.description) + (spec_u64_to_le_bytes(
        c.goal_amount,
    ) + (spec_u64_to_le_bytes(c.amount_raised) + (spec_u32_to_le_bytes(c.donors_count) + (
    i64_bytes(c.created_at) + (i64_bytes(c.deadline) + (bool_bytes(c.is_active) + (seq![
        c.category.spec_ordinal(),
    ] + bool_bytes(c.withdrawn))))))))))
}

/// The campaign that a whole stored buffer holds, if it holds one.
#[verifier::opaque]
pub open spec fn parse_campaign(b: Seq<u8>) -> Option<CampaignView> {
    match take_bytes(b, 32) {
        None => None,
        Some((creator, b1)) => match take_text(b1) {
            None => None,
            Some((title, b2)) => match take_text(b2) {
                None => None,
                Some((description, b3)) => match take_u64(b3) {
                    None => None,
                    Some((goal_amount, b4)) => match take_u64(b4) {
                        None => None,
                        Some((amount_raised, b5)) => match take_u32(b5) {
                            None => None,
                            Some((donors_count, b6)) => match take_i64(b6) {
                                None => None,
                                Some((created_at, b7)) => match take_i64(b7) {
                                    None => None,
                                    Some((deadline, b8)) => match take_bool(b8) {
                                        None => None,
                                        Some((is_active, b9)) => match take_category(b9) {
                                            None => None,
                                            Some((category, b10)) => match take_bool(b10) {
                                                None => None,
                                                Some((withdrawn, b11)) => if b11.len() == 0 {
                                                    Some(
                                                        CampaignView {
                                                            creator,
                                                            title,
                                                            description,
                                                            goal_amount,
                                                            amount_raised,
                                                            donors_count,
                                                            created_at,
                                                            deadline,
                                                            is_active,
                                                            category,
                                                            withdrawn,
                                                        },
                                                    )
                                                } else {
                                                    None
                                                },
                                            },
                                        },
                                    },
                                },
                            },
                        },
                    },
                },
            },
        },
    }
}

pub open spec fn donor_bytes(d: DonorInfoView) -> Seq<u8> {
    d.donor + (spec_u64_to_le_bytes(d.amount) + (i64_bytes(d.donated_at) + d.campaign_id))
}

/// The donor record that a whole stored buffer holds, if it holds one.
pub open spec fn parse_donor(b: Seq<u8>) -> Option<DonorInfoView> {
    match take_bytes(b, 32) {
        None => None,
        Some((donor, b1)) => match take_u64(b1) {
            None => None,
            Some((amount, b2)) => match take_i64(b2) {
                None => None,
                Some((donated_at, b3)) => match take_bytes(b3, 32) {
                    None => None,
                    Some((campaign_id, b4)) => if b4.len() == 0 {
                        Some(DonorInfoView { donor, amount, donated_at, campaign_id })
                    } else {
                        None
                    },
                },
            },
        },
    }
}

proof fn lemma_campaign_enc(c: CampaignView)
    requires
        campaign_wf(c),
    ensures
        parse_campaign(campaign_bytes(c)) == Some(c),
{
    reveal(parse_campaign);
    reveal(campaign_bytes);
    let t10 = bool_bytes(c.withdrawn);
    let t9 = seq![c.category.spec_ordinal()] + t10;
    let t8 = bool_bytes(c.is_active) + t9;
    let t7 = i64_bytes(c.deadline) + t8;
    let t6 = i64_bytes(c.created_at) + t7;
    let t5 = spec_u32_to_le_bytes(c.donors_count) + t6;
    let t4 = spec_u64_to_le_bytes(c.amount_raised) + t5;
    let t3 = spec_u64_to_le_bytes(c.goal_amount) + t4;
    let t2 = text_bytes(c.description) + t3;
    let t1 = text_bytes(c.title) + t2;
    lemma_bytes_enc(c.creator, t1);
    lemma_text_enc(c.title, t2);
    lemma_text_enc(c.description, t3);
    lemma_u64_enc(c.goal_amount, t4);
    lemma_u64_enc(c.amount_raised, t5);
    lemma_u32_enc(c.donors_count, t6);
    lemma_i64_enc(c.created_at, t7);
    lemma_i64_enc(c.deadline, t8);
    lemma_bool_enc(c.is_active, t9);
    lemma_category_enc(c.category, t10);
    lemma_bool_enc(c.withdrawn, Seq::empty());
    assert(t10 + Seq::<u8>::empty() =~= t10);
}

proof fn lemma_campaign_dec(b: Seq<u8>)
    ensures
        parse_campaign(b) matches Some(c) ==> campaign_wf(c) && b == campaign_bytes(c),
{
    reveal(parse_campaign);
    reveal(campaign_bytes);
    lemma_bytes_dec(b, 32);
    if let Some((creator, b1)) = take_bytes(b, 32) {
        lemma_text_dec(b1);
        if let Some((title, b2)) = take_text(b1) {
            lemma_text_dec(b2);
            if let Some((description, b3)) = take_text(b2) {
                lemma_u64_dec(b3);
                if let Some((goal_amount, b4)) = take_u64(b3) {
                    lemma_u64_dec(b4);
                    if let Some((amount_raised, b5)) = take_u64(b4) {
                        lemma_u32_dec(b5);
                        if let Some((donors_count, b6)) = take_u32(b5) {
                            lemma_i64_dec(b6);
                            if let Some((created_at, b7)) = take_i64(b6) {
                                lemma_i64_dec(b7);
                                if let Some((deadline, b8)) = take_i64(b7) {
                                    lemma_bool_dec(b8);
                                    if let Some((is_active, b9)) = take_bool(b8) {
                                        lemma_category_dec(b9);
                                        if let Some((category, b10)) = take_category(b9) {
                                            lemma_bool_dec(b10);
                                            if let Some((withdrawn, b11)) = take_bool(b10) {
                                                if b11.len() == 0 {
                                                    assert(bool_bytes(withdrawn) + b11
                                                        =~= bool_bytes(withdrawn));
                                                }
                                            }
                                        }
                                    }
                                }
                            }
                        }
                    }
                }
            }
        }
    }
}

/// The encoded length of a campaign: fixed fields plus its two texts.
pub open spec fn campaign_len(c: CampaignView) -> nat {
    79 + encode_utf8(c.title).len() + encode_utf8(c.description).len()
}

pub proof fn lemma_campaign_len(c: CampaignView)
    requires
        c.creator.len() == 32,
    ensures
        campaign_bytes(c).len() == campaign_len(c),
{
    reveal(campaign_bytes);
    lemma_auto_spec_u64_to_from_le_bytes();
    lemma_auto_spec_u32_to_from_le_bytes();
}

/// A stored buffer decodes to a campaign exactly when it is that campaign's
/// encoding: decoding inverts encoding, and accepts nothing else.
pub proof fn lemma_campaign_layout(b: Seq<u8>, c: CampaignView)
    ensures
        parse_campaign(b) == Some(c) <==> (campaign_wf(c) && b == campaign_bytes(c)),
{
    lemma_campaign_dec(b);
    if campaign_wf(c) {
        lemma_campaign_enc(c);
    }
}

/// Decoding after encoding gives back the same campaign.
pub proof fn lemma_campaign_round_trip(c: CampaignView)
    requires
        campaign_wf(c),
    ensures
        parse_campaign(campaign_bytes(c)) == Some(c),
{
    lemma_campaign_enc(c);
}

/// A donor record decodes to exactly the values that encode to it.
pub proof fn lemma_donor_layout(b: Seq<u8>, d: DonorInfoView)
    ensures
        parse_donor(b) == Some(d) <==> (d.donor.len() == 32 && d.campaign_id.len() == 32 && b
            == donor_bytes(d)),
{
    lemma_bytes_dec(b, 32);
    if let Some((donor, b1)) = take_bytes(b, 32) {
        lemma_u64_dec(b1);
        if let Some((amount, b2)) = take_u64(b1) {
            lemma_i64_dec(b2);
            if let Some((donated_at, b3)) = take_i64(b2) {
                lemma_bytes_dec(b3, 32);
                if let Some((campaign_id, b4)) = take_bytes(b3, 32) {
                    if b4.len() == 0 {
                        assert(campaign_id + b4 =~= campaign_id);
                    }
                }
            }
        }
    }
    if d.donor.len() == 32 && d.campaign_id.len() == 32 {
        let t3 = d.campaign_id;
        let t2 = i64_bytes(d.donated_at) + t3;
        let t1 = spec_u64_to_le_bytes(d.amount) + t2;
        lemma_bytes_enc(d.donor, t1);
        lemma_u64_enc(d.amount, t2);
        lemma_i64_enc(d.donated_at, t3);
        lemma_bytes_enc(d.campaign_id, Seq::empty());
        assert(d.campaign_id + Seq::<u8>::empty() =~= d.campaign_id);
    }
}

/// Encodes a campaign into its stored form.
pub fn encode_campaign(c: &Campaign) -> (r: Vec<u8>)
    requires
        campaign_wf(c@),
    ensures
        r@ == campaign_bytes(c@),
        parse_campaign(r@) == Some(c@),
{
    let mut out: Vec<u8> = Vec::new();
    push_slice(&mut out, c.creator.bytes.as_slice());
    push_text(&mut out, &c.title);
    push_text(&mut out, &c.description);
    push_slice(&mut out, u64_to_le_bytes(c.goal_amount).as_slice());
    push_slice(&mut out, u64_to_le_bytes(c.amount_raised).as_slice());
    push_slice(&mut out, u32_to_le_bytes(c.donors_count).as_slice());
    push_slice(&mut out, u64_to_le_bytes(c.created_at as u64).as_slice());
    push_slice(&mut out, u64_to_le_bytes(c.deadline as u64).as_slice());
    out.push(if c.is_active { 1u8 } else { 0u8 });
    out.push(c.category.ordinal());
    out.push(if c.withdrawn { 1u8 } else { 0u8 });
    proof {
        reveal(campaign_bytes);
    }
    assert(out@ =~= campaign_bytes(c@));
    proof {
        lemma_campaign_enc(c@);
    }
    out
}

/// Decodes a whole stored buffer into a campaign; fails on truncation,
/// trailing bytes, invalid UTF-8, a flag other than 0 or 1, or an unknown
/// category.
pub fn decode_campaign(data: &[u8]) -> (r: Option<Campaign>)
    ensures
        match r {
            Some(c) => parse_campaign(data@) == Some(c@),
            None => parse_campaign(data@) is None,
        },
        r matches Some(c) ==> campaign_wf(c@) && data@ == campaign_bytes(c@),
{
    proof {
        reveal(parse_campaign);
    }
    let mut rd = Reader::new(data);
    let creator = match rd.read_address() {
        Some(v) => v,
        None => return None,
    };
    let title = match rd.read_text() {
        Some(v) => v,
        None => return None,
    };
    let description = match rd.read_text() {
        Some(v) => v,
        None => return None,
    };
    let goal_amount = match rd.read_u64() {
        Some(v) => v,
        None => return None,
    };
    let amount_raised = match rd.read_u64() {
        Some(v) => v,
        None => return None,
    };
    let donors_count = match rd.read_u32() {
        Some(v) => v,
        None => return None,
    };
    let created_at = match rd.read_i64() {
        Some(v) => v,
        None => return None,
    };
    let deadline = match rd.read_i64() {
        Some(v) => v,
        None => return None,
    };
    let is_active = match rd.read_bool() {
        Some(v) => v,
        None => return None,
    };
    let category = match rd.read_category() {
        Some(v) => v,
        None => return None,
    };
    let withdrawn = match rd.read_bool() {
        Some(v) => v,
        None => return None,
    };
    if rd.remaining() != 0 {
        return None;
    }
    let c = Campaign {
        creator,
        title,
        description,
        goal_amount,
        amount_raised,
        donors_count,
        created_at,
        deadline,
        is_active,
        category,
        withdrawn,
    };
    proof {
        lemma_campaign_dec(data@);
    }
    Some(c)
}

/// Encodes a donor record into its stored form.
pub fn encode_donor(d: &DonorInfo) -> (r: Vec<u8>)
    ensures
        r@ == donor_bytes(d@),
        parse_donor(r@) == Some(d@),
        r@.len() == DONOR_RECORD_LEN,
{
    let mut out: Vec<u8> = Vec::new();
    push_slice(&mut out, d.donor.bytes.as_slice());
    push_slice(&mut out, u64_to_le_bytes(d.amount).as_slice());
    push_slice(&mut out, u64_to_le_bytes(d.donated_at as u64).as_slice());
    push_slice(&mut out, d.campaign_id.bytes.as_slice());
    assert(out@ =~= donor_bytes(d@));
    proof {
        lemma_donor_layout(out@, d@);
    }
    out
}

/// Decodes a whole stored buffer into a donor record.
pub fn decode_donor(data: &[u8]) -> (r: Option<DonorInfo>)
    ensures
        match r {
            Some(d) => parse_donor(data@) == Some(d@),
            None => parse_donor(data@) is None,
        },
{
    let mut rd = Reader::new(data);
    let donor = match rd.read_address() {
        Some(v) => v,
        None => return None,
    };
    let amount = match rd.read_u64() {
        Some(v) => v,
        None => return None,
    };
    let donated_at = match rd.read_i64() {
        Some(v) => v,
        None => return None,
    };
    let campaign_id = match rd.read_address() {
        Some(v) => v,
        None => return None,
    };
    if rd.remaining() != 0 {
        return None;
    }
    Some(DonorInfo { donor, amount, donated_at, campaign_id })
}

} // verus!
