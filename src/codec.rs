//! Byte layout of payloads and records: a bounds-checked cursor over an
//! immutable byte slice, and the encoders and decoders built on it.
//!
//! Integers are little-endian; a text is a 4-byte length followed by its
//! UTF-8 bytes; a flag is one byte, 0 or 1; a category is its ordinal byte.

use vstd::prelude::*;
use vstd::bytes::*;
use vstd::utf8::*;
use vstd::string::*;
use vstd::slice::*;
use crate::state::{Address, CampaignCategory};

verus! {

pub open spec fn take_bytes(b: Seq<u8>, n: nat) -> Option<(Seq<u8>, Seq<u8>)> {
    if n <= b.len() {
        Some((b.take(n as int), b.skip(n as int)))
    } else {
        None
    }
}

pub open spec fn take_u8(b: Seq<u8>) -> Option<(u8, Seq<u8>)> {
    if b.len() >= 1 {
        Some((b[0], b.skip(1)))
    } else {
        None
    }
}

pub open spec fn take_u32(b: Seq<u8>) -> Option<(u32, Seq<u8>)> {
    if b.len() >= 4 {
        Some((spec_u32_from_le_bytes(b.take(4)), b.skip(4)))
    } else {
        None
    }
}

pub open spec fn take_u64(b: Seq<u8>) -> Option<(u64, Seq<u8>)> {
    if b.len() >= 8 {
        Some((spec_u64_from_le_bytes(b.take(8)), b.skip(8)))
    } else {
        None
    }
}

pub open spec fn take_i64(b: Seq<u8>) -> Option<(i64, Seq<u8>)> {
    match take_u64(b) {
        Some((v, rest)) => Some((v as i64, rest)),
        None => None,
    }
}

/// A flag: the byte 0 or 1, nothing else.
pub open spec fn take_bool(b: Seq<u8>) -> Option<(bool, Seq<u8>)> {
    match take_u8(b) {
        Some((v, rest)) => if v == 0 {
            Some((false, rest))
        } else if v == 1 {
            Some((true, rest))
        } else {
            None
        },
        None => None,
    }
}

pub open spec fn take_category(b: Seq<u8>) -> Option<(CampaignCategory, Seq<u8>)> {
    match take_u8(b) {
        Some((v, rest)) => match CampaignCategory::spec_from_ordinal(v) {
            Some(c) => Some((c, rest)),
            None => None,
        },
        None => None,
    }
}

/// A length-prefixed text whose bytes are valid UTF-8.
pub open spec fn take_text(b: Seq<u8>) -> Option<(Seq<char>, Seq<u8>)> {
    match take_u32(b) {
        Some((n, r)) => match take_bytes(r, n as nat) {
            Some((t, rest)) => if valid_utf8(t) {
                Some((decode_utf8(t), rest))
            } else {
                None
            },
            None => None,
        },
        None => None,
    }
}

pub open spec fn i64_bytes(v: i64) -> Seq<u8> {
    spec_u64_to_le_bytes(v as u64)
}

pub open spec fn bool_bytes(v: bool) -> Seq<u8> {
    if v {
        seq![1u8]
    } else {
        seq![0u8]
    }
}

/// A text's UTF-8 bytes fit under its 4-byte length.
pub open spec fn text_fits(s: Seq<char>) -> bool {
    encode_utf8(s).len() <= u32::MAX
}

pub open spec fn text_bytes(s: Seq<char>) -> Seq<u8> {
    spec_u32_to_le_bytes(encode_utf8(s).len() as u32) + encode_utf8(s)
}

/// A cursor over a byte slice; every read either consumes exactly its field
/// or fails.
pub struct Reader<'a> {
    pub data: &'a [u8],
    pub pos: usize,
}

impl<'a> Reader<'a> {
    pub open spec fn wf(&self) -> bool {
        self.pos <= self.data@.len()
    }

    /// The bytes not read yet.
    pub open spec fn rest(&self) -> Seq<u8> {
        self.data@.subrange(self.pos as int, self.data@.len() as int)
    }

    pub fn new(data: &'a [u8]) -> (r: Reader<'a>)
        ensures
            r.wf(),
            r.rest() == data@,
    {
        let r = Reader { data, pos: 0 };
        assert(r.rest() =~= data@);
        r
    }

    pub fn remaining(&self) -> (r: usize)
        requires
            self.wf(),
        ensures
            r == self.rest().len(),
    {
        self.data.len() - self.pos
    }

    pub fn read_bytes(&mut self, n: usize) -> (r: Option<&'a [u8]>)
        requires
            old(self).wf(),
        ensures
            final(self).wf(),
            final(self).data == old(self).data,
            match r {
                Some(s) => take_bytes(old(self).rest(), n as nat) == Some((s@, final(self).rest())),
                None => take_bytes(old(self).rest(), n as nat) is None,
            },
    {
        if n > self.data.len() - self.pos {
            return None;
        }
        let s = slice_subrange(self.data, self.pos, self.pos + n);
        let ghost before = self.rest();
        self.pos = self.pos + n;
        assert(s@ =~= before.take(n as int));
        assert(self.rest() =~= before.skip(n as int));
        Some(s)
    }

    pub fn read_u8(&mut self) -> (r: Option<u8>)
        requires
            old(self).wf(),
        ensures
            final(self).wf(),
            final(self).data == old(self).data,
            match r {
                Some(v) => take_u8(old(self).rest()) == Some((v, final(self).rest())),
                None => take_u8(old(self).rest()) is None,
            },
    {
        if self.pos >= self.data.len() {
            return None;
        }
        let v = self.data[self.pos];
        let ghost before = self.rest();
        self.pos = self.pos + 1;
        assert(self.rest() =~= before.skip(1));
        Some(v)
    }

    pub fn read_u32(&mut self) -> (r: Option<u32>)
        requires
            old(self).wf(),
        ensures
            final(self).wf(),
            final(self).data == old(self).data,
            match r {
                Some(v) => take_u32(old(self).rest()) == Some((v, final(self).rest())),
                None => take_u32(old(self).rest()) is None,
            },
    {
        match self.read_bytes(4) {
            Some(s) => Some(u32_from_le_bytes(s)),
            None => None,
        }
    }

    pub fn read_u64(&mut self) -> (r: Option<u64>)
        requires
            old(self).wf(),
        ensures
            final(self).wf(),
            final(self).data == old(self).data,
            match r {
                Some(v) => take_u64(old(self).rest()) == Some((v, final(self).rest())),
                None => take_u64(old(self).rest()) is None,
            },
    {
        match self.read_bytes(8) {
            Some(s) => Some(u64_from_le_bytes(s)),
            None => None,
        }
    }

    pub fn read_i64(&mut self) -> (r: Option<i64>)
        requires
            old(self).wf(),
        ensures
            final(self).wf(),
            final(self).data == old(self).data,
            match r {
                Some(v) => take_i64(old(self).rest()) == Some((v, final(self).rest())),
                None => take_i64(old(self).rest()) is None,
            },
    {
        match self.read_u64() {
            Some(v) => Some(v as i64),
            None => None,
        }
    }

    pub fn read_bool(&mut self) -> (r: Option<bool>)
        requires
            old(self).wf(),
        ensures
            final(self).wf(),
            final(self).data == old(self).data,
            match r {
                Some(v) => take_bool(old(self).rest()) == Some((v, final(self).rest())),
                None => take_bool(old(self).rest()) is None,
            },
    {
        match self.read_u8() {
            Some(0) => Some(false),
            Some(1) => Some(true),
            _ => None,
        }
    }

    pub fn read_category(&mut self) -> (r: Option<CampaignCategory>)
        requires
            old(self).wf(),
        ensures
            final(self).wf(),
            final(self).data == old(self).data,
            match r {
                Some(v) => take_category(old(self).rest()) == Some((v, final(self).rest())),
                None => take_category(old(self).rest()) is None,
            },
    {
        match self.read_u8() {
            Some(b) => CampaignCategory::from_ordinal(b),
            None => None,
        }
    }

    pub fn read_address(&mut self) -> (r: Option<Address>)
        requires
            old(self).wf(),
        ensures
            final(self).wf(),
            final(self).data == old(self).data,
            match r {
                Some(a) => take_bytes(old(self).rest(), 32) == Some((a@, final(self).rest())),
                None => take_bytes(old(self).rest(), 32) is None,
            },
    {
        match self.read_bytes(32) {
            Some(s) => {
                let mut bytes = [0u8; 32];
                let mut i: usize = 0;
                while i < 32
                    invariant
                        0 <= i <= 32,
                        s@.len() == 32,
                        bytes@.len() == 32,
                        forall|j: int| 0 <= j < i ==> bytes@[j] == s@[j],
                    decreases 32 - i,
                {
                    bytes[i] = s[i];
                    i = i + 1;
                }
                assert(bytes@ =~= s@);
                Some(Address { bytes })
            },
            None => None,
        }
    }

    pub fn read_text(&mut self) -> (r: Option<String>)
        requires
            old(self).wf(),
        ensures
            final(self).wf(),
            final(self).data == old(self).data,
            match r {
                Some(s) => take_text(old(self).rest()) == Some((s@, final(self).rest())),
                None => take_text(old(self).rest()) is None,
            },
    {
        let n = match self.read_u32() {
            Some(n) => n,
            None => return None,
        };
        let t = match self.read_bytes(n as usize) {
            Some(t) => t,
            None => return None,
        };
        text_from_utf8(t)
    }
}

/// Relies on `std::str::from_utf8`: it accepts exactly the valid UTF-8 byte
/// sequences, and the text it gives back has those bytes.
#[verifier::external_body]
fn text_from_utf8(b: &[u8]) -> (r: Option<String>)
    ensures
        r is Some <==> valid_utf8(b@),
        r matches Some(s) ==> s@ == decode_utf8(b@),
{
    match std::str::from_utf8(b) {
        Ok(s) => Some(s.to_string()),
        Err(_) => None,
    }
}

pub proof fn lemma_bytes_enc(v: Seq<u8>, rest: Seq<u8>)
    ensures
        take_bytes(v + rest, v.len()) == Some((v, rest)),
{
    assert((v + rest).take(v.len() as int) =~= v);
    assert((v + rest).skip(v.len() as int) =~= rest);
}

pub proof fn lemma_bytes_dec(b: Seq<u8>, n: nat)
    ensures
        take_bytes(b, n) matches Some((v, rest)) ==> v.len() == n && b == v + rest,
{
    if n <= b.len() {
        assert(b =~= b.take(n as int) + b.skip(n as int));
    }
}

pub proof fn lemma_u8_enc(v: u8, rest: Seq<u8>)
    ensures
        take_u8(seq![v] + rest) == Some((v, rest)),
{
    assert((seq![v] + rest).skip(1) =~= rest);
}

pub proof fn lemma_u8_dec(b: Seq<u8>)
    ensures
        take_u8(b) matches Some((v, rest)) ==> b == seq![v] + rest,
{
    if b.len() >= 1 {
        assert(b =~= seq![b[0]] + b.skip(1));
    }
}

pub proof fn lemma_u32_enc(v: u32, rest: Seq<u8>)
    ensures
        take_u32(spec_u32_to_le_bytes(v) + rest) == Some((v, rest)),
{
    lemma_auto_spec_u32_to_from_le_bytes();
    lemma_bytes_enc(spec_u32_to_le_bytes(v), rest);
}

pub proof fn lemma_u32_dec(b: Seq<u8>)
    ensures
        take_u32(b) matches Some((v, rest)) ==> b == spec_u32_to_le_bytes(v) + rest,
{
    lemma_auto_spec_u32_to_from_le_bytes();
    lemma_bytes_dec(b, 4);
}

pub proof fn lemma_u64_enc(v: u64, rest: Seq<u8>)
    ensures
        take_u64(spec_u64_to_le_bytes(v) + rest) == Some((v, rest)),
{
    lemma_auto_spec_u64_to_from_le_bytes();
    lemma_bytes_enc(spec_u64_to_le_bytes(v), rest);
}

pub proof fn lemma_u64_dec(b: Seq<u8>)
    ensures
        take_u64(b) matches Some((v, rest)) ==> b == spec_u64_to_le_bytes(v) + rest,
{
    lemma_auto_spec_u64_to_from_le_bytes();
    lemma_bytes_dec(b, 8);
}

pub proof fn lemma_i64_enc(v: i64, rest: Seq<u8>)
    ensures
        take_i64(i64_bytes(v) + rest) == Some((v, rest)),
{
    lemma_u64_enc(v as u64, rest);
    assert(((v as u64) as i64) == v) by (bit_vector);
}

pub proof fn lemma_i64_dec(b: Seq<u8>)
    ensures
        take_i64(b) matches Some((v, rest)) ==> b == i64_bytes(v) + rest,
{
    lemma_u64_dec(b);
    if let Some((u, rest)) = take_u64(b) {
        assert(((u as i64) as u64) == u) by (bit_vector);
    }
}

pub proof fn lemma_bool_enc(v: bool, rest: Seq<u8>)
    ensures
        take_bool(bool_bytes(v) + rest) == Some((v, rest)),
{
    lemma_u8_enc(if v { 1u8 } else { 0u8 }, rest);
}

pub proof fn lemma_bool_dec(b: Seq<u8>)
    ensures
        take_bool(b) matches Some((v, rest)) ==> b == bool_bytes(v) + rest,
{
    lemma_u8_dec(b);
}

pub proof fn lemma_category_enc(v: CampaignCategory, rest: Seq<u8>)
    ensures
        take_category(seq![v.spec_ordinal()] + rest) == Some((v, rest)),
{
    lemma_u8_enc(v.spec_ordinal(), rest);
}

pub proof fn lemma_category_dec(b: Seq<u8>)
    ensures
        take_category(b) matches Some((v, rest)) ==> b == seq![v.spec_ordinal()] + rest,
{
    lemma_u8_dec(b);
}

pub proof fn lemma_text_enc(s: Seq<char>, rest: Seq<u8>)
    requires
        text_fits(s),
    ensures
        take_text(text_bytes(s) + rest) == Some((s, rest)),
{
    let t = encode_utf8(s);
    lemma_u32_enc(t.len() as u32, t + rest);
    assert(text_bytes(s) + rest =~= spec_u32_to_le_bytes(t.len() as u32) + (t + rest));
    lemma_bytes_enc(t, rest);
    encode_utf8_valid_utf8(s);
    encode_utf8_decode_utf8(s);
}

pub proof fn lemma_text_dec(b: Seq<u8>)
    ensures
        take_text(b) matches Some((s, rest)) ==> text_fits(s) && b == text_bytes(s) + rest,
{
    lemma_u32_dec(b);
    if let Some((n, r)) = take_u32(b) {
        lemma_bytes_dec(r, n as nat);
        if let Some((t, rest)) = take_bytes(r, n as nat) {
            if valid_utf8(t) {
                decode_utf8_encode_utf8(t);
                assert(b =~= text_bytes(decode_utf8(t)) + rest);
            }
        }
    }
}

/// Appends the bytes of `b` to `out`.
pub fn push_slice(out: &mut Vec<u8>, b: &[u8])
    ensures
        final(out)@ == old(out)@ + b@,
{
    let ghost start = out@;
    let mut i: usize = 0;
    while i < b.len()
        invariant
            0 <= i <= b@.len(),
            out@ == start + b@.take(i as int),
        decreases b@.len() - i,
    {
        out.push(b[i]);
        i = i + 1;
        assert(out@ =~= start + b@.take(i as int));
    }
    assert(b@.take(b@.len() as int) =~= b@);
}

/// Appends a text: its byte length, then its UTF-8 bytes.
pub fn push_text(out: &mut Vec<u8>, s: &String)
    requires
        text_fits(s@),
    ensures
        final(out)@ == old(out)@ + text_bytes(s@),
{
    let bytes = s.as_str().as_bytes();
    let n = bytes.len() as u32;
    let prefix = u32_to_le_bytes(n);
    push_slice(out, prefix.as_slice());
    push_slice(out, bytes);
    assert(out@ =~= old(out)@ + text_bytes(s@));
}

} // verus!
