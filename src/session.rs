use vstd::prelude::*;
use vstd::slice::slice_subrange;
use vstd::utf8::{decode_utf8, encode_utf8, valid_utf8};

use crate::text::utf8_text;
use crate::time::{SignedDuration, Timestamp};

verus! {

broadcast use vstd::utf8::group_utf8_lib;

/// What a session record states: whose token it is and when it stops being valid.
pub struct SessionView {
    pub token: Seq<char>,
    pub username: Seq<char>,
    pub created_on: i128,
    pub duration: i128,
}

/// The record kept for each issued bearer token.
///
/// A record is stored in the binary layout of `encode` (length-prefixed
/// UTF-8 token and username, then the issuance instant and validity span as
/// little-endian two's complement nanoseconds), not as JSON: records written
/// in a JSON layout do not decode, and the store reports them as corrupt.
pub struct Session {
    pub token: String,
    pub username: String,
    pub created_on: Timestamp,
    pub duration: SignedDuration,
}

impl View for Session {
    type V = SessionView;

    open spec fn view(&self) -> SessionView {
        SessionView {
            token: self.token@,
            username: self.username@,
            created_on: self.created_on.nanosecond,
            duration: self.duration.nanos,
        }
    }
}

/// The eight little-endian bytes of `x`.
pub open spec fn le_bytes_u64(x: u64) -> Seq<u8> {
    seq![
        x as u8, (x >> 8u64) as u8, (x >> 16u64) as u8, (x >> 24u64) as u8,
        (x >> 32u64) as u8, (x >> 40u64) as u8, (x >> 48u64) as u8, (x >> 56u64) as u8,
    ]
}

/// The number whose little-endian bytes are the first eight of `b`.
pub open spec fn le_u64(b: Seq<u8>) -> u64 {
    (b[0] as u64) | ((b[1] as u64) << 8u64) | ((b[2] as u64) << 16u64) | ((b[3] as u64) << 24u64)
        | ((b[4] as u64) << 32u64) | ((b[5] as u64) << 40u64) | ((b[6] as u64) << 48u64)
        | ((b[7] as u64) << 56u64)
}

/// The sixteen little-endian bytes of the two's complement form of `x`.
pub open spec fn le_bytes_i128(x: i128) -> Seq<u8> {
    let u = x as u128;
    seq![
        u as u8, (u >> 8u128) as u8, (u >> 16u128) as u8, (u >> 24u128) as u8,
        (u >> 32u128) as u8, (u >> 40u128) as u8, (u >> 48u128) as u8, (u >> 56u128) as u8,
        (u >> 64u128) as u8, (u >> 72u128) as u8, (u >> 80u128) as u8, (u >> 88u128) as u8,
        (u >> 96u128) as u8, (u >> 104u128) as u8, (u >> 112u128) as u8, (u >> 120u128) as u8,
    ]
}

/// The number whose two's complement little-endian bytes are the first sixteen of `b`.
pub open spec fn le_i128(b: Seq<u8>) -> i128 {
    ((b[0] as u128) | ((b[1] as u128) << 8u128) | ((b[2] as u128) << 16u128) | ((b[3] as u128)
        << 24u128) | ((b[4] as u128) << 32u128) | ((b[5] as u128) << 40u128) | ((b[6] as u128)
        << 48u128) | ((b[7] as u128) << 56u128) | ((b[8] as u128) << 64u128) | ((b[9] as u128)
        << 72u128) | ((b[10] as u128) << 80u128) | ((b[11] as u128) << 88u128) | ((b[12] as u128)
        << 96u128) | ((b[13] as u128) << 104u128) | ((b[14] as u128) << 112u128) | ((b[15] as u128)
        << 120u128)) as i128
}

/// A text field: its UTF-8 length as eight little-endian bytes, then its UTF-8 bytes.
pub open spec fn text_field(s: Seq<char>) -> Seq<u8> {
    le_bytes_u64(encode_utf8(s).len() as u64) + encode_utf8(s)
}

/// The stored form of a session record: token, username, issuance instant and
/// validity span, in that order.
pub open spec fn encode(v: SessionView) -> Seq<u8> {
    text_field(v.token) + text_field(v.username) + le_bytes_i128(v.created_on) + le_bytes_i128(
        v.duration,
    )
}

/// Whether both text fields of `v` have a UTF-8 length that fits their length prefix.
pub open spec fn fits(v: SessionView) -> bool {
    encode_utf8(v.token).len() <= u64::MAX && encode_utf8(v.username).len() <= u64::MAX
}

/// The record that `b` holds, if `b` is exactly the stored form of one.
pub open spec fn decode(b: Seq<u8>) -> Option<SessionView> {
    if b.len() < 8 {
        None
    } else {
        let n1 = le_u64(b) as int;
        if b.len() < 16 + n1 {
            None
        } else {
            let n2 = le_u64(b.subrange(8 + n1, 16 + n1)) as int;
            let t = b.subrange(8, 8 + n1);
            let u = b.subrange(16 + n1, 16 + n1 + n2);
            if b.len() != 48 + n1 + n2 || !valid_utf8(t) || !valid_utf8(u) {
                None
            } else {
                Some(
                    SessionView {
                        token: decode_utf8(t),
                        username: decode_utf8(u),
                        created_on: le_i128(b.subrange(16 + n1 + n2, 32 + n1 + n2)),
                        duration: le_i128(b.subrange(32 + n1 + n2, 48 + n1 + n2)),
                    },
                )
            }
        }
    }
}

proof fn lemma_u64_round_trip(x: u64)
    ensures
        le_u64(le_bytes_u64(x)) == x,
{
    assert((x as u8 as u64) | (((x >> 8u64) as u8 as u64) << 8u64) | (((x >> 16u64) as u8 as u64)
        << 16u64) | (((x >> 24u64) as u8 as u64) << 24u64) | (((x >> 32u64) as u8 as u64) << 32u64)
        | (((x >> 40u64) as u8 as u64) << 40u64) | (((x >> 48u64) as u8 as u64) << 48u64) | (((x
        >> 56u64) as u8 as u64) << 56u64) == x) by (bit_vector);
}

proof fn lemma_i128_round_trip(x: i128)
    ensures
        le_i128(le_bytes_i128(x)) == x,
{
    let u = x as u128;
    assert(((u as u8 as u128) | (((u >> 8u128) as u8 as u128) << 8u128) | (((u >> 16u128) as u8
        as u128) << 16u128) | (((u >> 24u128) as u8 as u128) << 24u128) | (((u >> 32u128) as u8
        as u128) << 32u128) | (((u >> 40u128) as u8 as u128) << 40u128) | (((u >> 48u128) as u8
        as u128) << 48u128) | (((u >> 56u128) as u8 as u128) << 56u128) | (((u >> 64u128) as u8
        as u128) << 64u128) | (((u >> 72u128) as u8 as u128) << 72u128) | (((u >> 80u128) as u8
        as u128) << 80u128) | (((u >> 88u128) as u8 as u128) << 88u128) | (((u >> 96u128) as u8
        as u128) << 96u128) | (((u >> 104u128) as u8 as u128) << 104u128) | (((u >> 112u128) as u8
        as u128) << 112u128) | (((u >> 120u128) as u8 as u128) << 120u128)) as i128 == x)
        by (bit_vector)
        requires
            u == x as u128,
    ;
}

/// Decoding the stored form of a record gives that record back.
pub proof fn lemma_decode_encode(v: SessionView)
    requires
        fits(v),
    ensures
        decode(encode(v)) == Some(v),
{
    let tb = encode_utf8(v.token);
    let ub = encode_utf8(v.username);
    let n1 = tb.len() as int;
    let n2 = ub.len() as int;
    let b = encode(v);
    lemma_u64_round_trip(n1 as u64);
    lemma_u64_round_trip(n2 as u64);
    lemma_i128_round_trip(v.created_on);
    lemma_i128_round_trip(v.duration);
    assert(b.subrange(0, 8) =~= le_bytes_u64(n1 as u64));
    assert(le_u64(b) == le_u64(b.subrange(0, 8)));
    assert(b.subrange(8, 8 + n1) =~= tb);
    assert(b.subrange(8 + n1, 16 + n1) =~= le_bytes_u64(n2 as u64));
    assert(b.subrange(16 + n1, 16 + n1 + n2) =~= ub);
    assert(b.subrange(16 + n1 + n2, 32 + n1 + n2) =~= le_bytes_i128(v.created_on));
    assert(b.subrange(32 + n1 + n2, 48 + n1 + n2) =~= le_bytes_i128(v.duration));
}

fn push_bytes(out: &mut Vec<u8>, b: &[u8])
    ensures
        final(out)@ == old(out)@ + b@,
{
    let mut i: usize = 0;
    while i < b.len()
        invariant
            i <= b@.len(),
            out@ == old(out)@ + b@.subrange(0, i as int),
        decreases b@.len() - i,
    {
        out.push(b[i]);
        i = i + 1;
        assert(b@.subrange(0, i as int) =~= b@.subrange(0, i - 1 as int).push(b@[i - 1]));
    }
    assert(b@.subrange(0, b@.len() as int) =~= b@);
}

fn push_u64(out: &mut Vec<u8>, x: u64)
    ensures
        final(out)@ == old(out)@ + le_bytes_u64(x),
{
    out.push(x as u8);
    out.push((x >> 8u64) as u8);
    out.push((x >> 16u64) as u8);
    out.push((x >> 24u64) as u8);
    out.push((x >> 32u64) as u8);
    out.push((x >> 40u64) as u8);
    out.push((x >> 48u64) as u8);
    out.push((x >> 56u64) as u8);
    assert(out@ =~= old(out)@ + le_bytes_u64(x));
}

fn push_i128(out: &mut Vec<u8>, x: i128)
    ensures
        final(out)@ == old(out)@ + le_bytes_i128(x),
{
    let u = x as u128;
    out.push(u as u8);
    out.push((u >> 8u128) as u8);
    out.push((u >> 16u128) as u8);
    out.push((u >> 24u128) as u8);
    out.push((u >> 32u128) as u8);
    out.push((u >> 40u128) as u8);
    out.push((u >> 48u128) as u8);
    out.push((u >> 56u128) as u8);
    out.push((u >> 64u128) as u8);
    out.push((u >> 72u128) as u8);
    out.push((u >> 80u128) as u8);
    out.push((u >> 88u128) as u8);
    out.push((u >> 96u128) as u8);
    out.push((u >> 104u128) as u8);
    out.push((u >> 112u128) as u8);
    out.push((u >> 120u128) as u8);
    assert(out@ =~= old(out)@ + le_bytes_i128(x));
}

fn read_u64(b: &[u8], pos: usize) -> (r: u64)
    requires
        pos + 8 <= b@.len(),
    ensures
        r == le_u64(b@.subrange(pos as int, pos + 8)),
{
    (b[pos] as u64) | ((b[pos + 1] as u64) << 8u64) | ((b[pos + 2] as u64) << 16u64) | ((b[pos
        + 3] as u64) << 24u64) | ((b[pos + 4] as u64) << 32u64) | ((b[pos + 5] as u64) << 40u64)
        | ((b[pos + 6] as u64) << 48u64) | ((b[pos + 7] as u64) << 56u64)
}

fn read_i128(b: &[u8], pos: usize) -> (r: i128)
    requires
        pos + 16 <= b@.len(),
    ensures
        r == le_i128(b@.subrange(pos as int, pos + 16)),
{
    ((b[pos] as u128) | ((b[pos + 1] as u128) << 8u128) | ((b[pos + 2] as u128) << 16u128) | ((
    b[pos + 3] as u128) << 24u128) | ((b[pos + 4] as u128) << 32u128) | ((b[pos + 5] as u128)
        << 40u128) | ((b[pos + 6] as u128) << 48u128) | ((b[pos + 7] as u128) << 56u128) | ((b[pos
        + 8] as u128) << 64u128) | ((b[pos + 9] as u128) << 72u128) | ((b[pos + 10] as u128)
        << 80u128) | ((b[pos + 11] as u128) << 88u128) | ((b[pos + 12] as u128) << 96u128) | ((
    b[pos + 13] as u128) << 104u128) | ((b[pos + 14] as u128) << 112u128) | ((b[pos + 15] as u128)
        << 120u128)) as i128
}

impl Session {
    /// The stored form of this record.
    pub fn to_bytes(&self) -> (r: Vec<u8>)
        ensures
            r@ == encode(self@),
            fits(self@),
    {
        let tb = self.token.as_str().as_bytes();
        let ub = self.username.as_str().as_bytes();
        let mut out: Vec<u8> = Vec::new();
        push_u64(&mut out, tb.len() as u64);
        push_bytes(&mut out, tb);
        push_u64(&mut out, ub.len() as u64);
        push_bytes(&mut out, ub);
        push_i128(&mut out, self.created_on.nanosecond);
        push_i128(&mut out, self.duration.nanos);
        assert(out@ =~= encode(self@));
        out
    }

    /// The record that `b` holds; `None` where `b` is not exactly the stored
    /// form of a record.
    pub fn from_bytes(b: &[u8]) -> (r: Option<Session>)
        ensures
            match r {
                Some(s) => decode(b@) == Some(s@),
                None => decode(b@) is None,
            },
    {
        if b.len() < 16 {
            return None;
        }
        let n1 = read_u64(b, 0);
        assert(le_u64(b@) == le_u64(b@.subrange(0, 8)));
        if n1 > (b.len() - 16) as u64 {
            return None;
        }
        let n1 = n1 as usize;
        let n2 = read_u64(b, 8 + n1);
        if b.len() - 16 - n1 < 32 {
            return None;
        }
        if n2 != (b.len() - 48 - n1) as u64 {
            return None;
        }
        let n2 = n2 as usize;
        let token = match utf8_text(slice_subrange(b, 8, 8 + n1)) {
            Some(t) => t,
            None => return None,
        };
        let username = match utf8_text(slice_subrange(b, 16 + n1, 16 + n1 + n2)) {
            Some(u) => u,
            None => return None,
        };
        let created_on = read_i128(b, 16 + n1 + n2);
        let duration = read_i128(b, 32 + n1 + n2);
        Some(
            Session {
                token: token.to_owned(),
                username: username.to_owned(),
                created_on: Timestamp { nanosecond: created_on },
                duration: SignedDuration { nanos: duration },
            },
        )
    }
}

} // verus!
