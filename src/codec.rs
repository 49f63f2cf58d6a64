//! Little-endian, length-prefixed binary encoding of the primitive fields that
//! records and payloads are made of.
use vstd::prelude::*;
use vstd::utf8::{decode_utf8, encode_utf8, valid_utf8};

verus! {

broadcast use vstd::utf8::group_utf8_lib;

pub open spec fn u16_bytes(v: u16) -> Seq<u8> {
    seq![(v & 0xff) as u8, ((v >> 8u16) & 0xff) as u8]
}

pub open spec fn u32_bytes(v: u32) -> Seq<u8> {
    seq![(v & 0xff) as u8, ((v >> 8u32) & 0xff) as u8, ((v >> 16u32) & 0xff) as u8, ((v >> 24u32) & 0xff) as u8]
}

pub open spec fn u64_bytes(v: u64) -> Seq<u8> {
    seq![
        (v & 0xff) as u8,
        ((v >> 8u64) & 0xff) as u8,
        ((v >> 16u64) & 0xff) as u8,
        ((v >> 24u64) & 0xff) as u8,
        ((v >> 32u64) & 0xff) as u8,
        ((v >> 40u64) & 0xff) as u8,
        ((v >> 48u64) & 0xff) as u8,
        ((v >> 56u64) & 0xff) as u8,
    ]
}

pub open spec fn u16_of(b0: u8, b1: u8) -> u16 {
    (b0 as u16) | ((b1 as u16) << 8u16)
}

pub open spec fn u32_of(b0: u8, b1: u8, b2: u8, b3: u8) -> u32 {
    (b0 as u32) | ((b1 as u32) << 8u32) | ((b2 as u32) << 16u32) | ((b3 as u32) << 24u32)
}

pub open spec fn u64_of(b0: u8, b1: u8, b2: u8, b3: u8, b4: u8, b5: u8, b6: u8, b7: u8) -> u64 {
    (b0 as u64) | ((b1 as u64) << 8u64) | ((b2 as u64) << 16u64) | ((b3 as u64) << 24u64)
        | ((b4 as u64) << 32u64) | ((b5 as u64) << 40u64) | ((b6 as u64) << 48u64) | ((b7 as u64) << 56u64)
}

/// The little-endian u16 at `at`.
pub open spec fn u16_at(b: Seq<u8>, at: int) -> u16 {
    u16_of(b[at], b[at + 1])
}

/// The little-endian u32 at `at`.
pub open spec fn u32_at(b: Seq<u8>, at: int) -> u32 {
    u32_of(b[at], b[at + 1], b[at + 2], b[at + 3])
}

/// The little-endian u64 at `at`.
pub open spec fn u64_at(b: Seq<u8>, at: int) -> u64 {
    u64_of(b[at], b[at + 1], b[at + 2], b[at + 3], b[at + 4], b[at + 5], b[at + 6], b[at + 7])
}

/// A string field: its UTF-8 length as a u32, then its UTF-8 bytes.
pub open spec fn string_bytes(s: Seq<char>) -> Seq<u8> {
    u32_bytes(encode_utf8(s).len() as u32) + encode_utf8(s)
}

/// A string whose encoding fits the u32 length prefix.
pub open spec fn string_fits(s: Seq<char>) -> bool {
    encode_utf8(s).len() <= u32::MAX
}

/// The string field at `at` and the position after it, when its length
/// prefix fits and its bytes are valid UTF-8.
pub open spec fn string_at(b: Seq<u8>, at: int) -> Option<(Seq<char>, int)> {
    if 0 <= at && at + 4 <= b.len() {
        let n = u32_at(b, at) as int;
        if at + 4 + n <= b.len() && valid_utf8(b.subrange(at + 4, at + 4 + n)) {
            Some((decode_utf8(b.subrange(at + 4, at + 4 + n)), at + 4 + n))
        } else {
            None
        }
    } else {
        None
    }
}

pub proof fn lemma_u16(v: u16)
    ensures
        u16_of(u16_bytes(v)[0], u16_bytes(v)[1]) == v,
{
    let b0 = (v & 0xff) as u8;
    let b1 = ((v >> 8u16) & 0xff) as u8;
    assert((((v & 0xff) as u8) as u16) | (((((v >> 8u16) & 0xff) as u8) as u16) << 8u16) == v) by (bit_vector);
}

pub proof fn lemma_u32(v: u32)
    ensures
        u32_of(u32_bytes(v)[0], u32_bytes(v)[1], u32_bytes(v)[2], u32_bytes(v)[3]) == v,
{
    assert((((v & 0xff) as u8) as u32) | (((((v >> 8u32) & 0xff) as u8) as u32) << 8u32) | (((((v
        >> 16u32) & 0xff) as u8) as u32) << 16u32) | (((((v >> 24u32) & 0xff) as u8) as u32)
        << 24u32) == v) by (bit_vector);
}

pub proof fn lemma_u64(v: u64)
    ensures
        u64_of(
            u64_bytes(v)[0],
            u64_bytes(v)[1],
            u64_bytes(v)[2],
            u64_bytes(v)[3],
            u64_bytes(v)[4],
            u64_bytes(v)[5],
            u64_bytes(v)[6],
            u64_bytes(v)[7],
        ) == v,
{
    assert((((v & 0xff) as u8) as u64) | (((((v >> 8u64) & 0xff) as u8) as u64) << 8u64) | (((((v
        >> 16u64) & 0xff) as u8) as u64) << 16u64) | (((((v >> 24u64) & 0xff) as u8) as u64)
        << 24u64) | (((((v >> 32u64) & 0xff) as u8) as u64) << 32u64) | (((((v >> 40u64) & 0xff)
        as u8) as u64) << 40u64) | (((((v >> 48u64) & 0xff) as u8) as u64) << 48u64) | (((((v
        >> 56u64) & 0xff) as u8) as u64) << 56u64) == v) by (bit_vector);
}

/// A u16 written between `pre` and `post` reads back at the end of `pre`.
pub proof fn lemma_u16_at(v: u16, pre: Seq<u8>, post: Seq<u8>)
    ensures
        u16_at(pre + u16_bytes(v) + post, pre.len() as int) == v,
{
    let b = pre + u16_bytes(v) + post;
    let n = pre.len() as int;
    assert(b[n] == u16_bytes(v)[0] && b[n + 1] == u16_bytes(v)[1]);
    lemma_u16(v);
}

/// A u32 written between `pre` and `post` reads back at the end of `pre`.
pub proof fn lemma_u32_at(v: u32, pre: Seq<u8>, post: Seq<u8>)
    ensures
        u32_at(pre + u32_bytes(v) + post, pre.len() as int) == v,
{
    let b = pre + u32_bytes(v) + post;
    let n = pre.len() as int;
    assert(b[n] == u32_bytes(v)[0] && b[n + 1] == u32_bytes(v)[1] && b[n + 2] == u32_bytes(v)[2]
        && b[n + 3] == u32_bytes(v)[3]);
    lemma_u32(v);
}

/// A u64 written between `pre` and `post` reads back at the end of `pre`.
pub proof fn lemma_u64_at(v: u64, pre: Seq<u8>, post: Seq<u8>)
    ensures
        u64_at(pre + u64_bytes(v) + post, pre.len() as int) == v,
{
    let b = pre + u64_bytes(v) + post;
    let n = pre.len() as int;
    assert(b[n] == u64_bytes(v)[0] && b[n + 1] == u64_bytes(v)[1] && b[n + 2] == u64_bytes(v)[2]
        && b[n + 3] == u64_bytes(v)[3] && b[n + 4] == u64_bytes(v)[4] && b[n + 5] == u64_bytes(
        v,
    )[5] && b[n + 6] == u64_bytes(v)[6] && b[n + 7] == u64_bytes(v)[7]);
    lemma_u64(v);
}

/// Bytes written between `pre` and `post` are found again at the end of `pre`.
pub proof fn lemma_bytes_at(x: Seq<u8>, pre: Seq<u8>, post: Seq<u8>)
    ensures
        (pre + x + post).subrange(pre.len() as int, (pre.len() + x.len()) as int) == x,
{
    assert((pre + x + post).subrange(pre.len() as int, (pre.len() + x.len()) as int) =~= x);
}

/// A string field written between `pre` and `post` reads back at the end of `pre`.
pub proof fn lemma_string_at(s: Seq<char>, pre: Seq<u8>, post: Seq<u8>)
    requires
        string_fits(s),
    ensures
        string_at(pre + string_bytes(s) + post, pre.len() as int) == Some(
            (s, (pre.len() + string_bytes(s).len()) as int),
        ),
{
    let e = encode_utf8(s);
    let n = e.len() as u32;
    let b = pre + string_bytes(s) + post;
    assert(b =~= pre + u32_bytes(n) + (e + post));
    lemma_u32_at(n, pre, e + post);
    assert(b =~= (pre + u32_bytes(n)) + e + post);
    lemma_bytes_at(e, pre + u32_bytes(n), post);
}

// ---- executable encoding ----
pub fn push_u8(buf: &mut Vec<u8>, v: u8)
    ensures
        final(buf)@ == old(buf)@ + seq![v],
{
    buf.push(v);
}

pub fn push_u16(buf: &mut Vec<u8>, v: u16)
    ensures
        final(buf)@ == old(buf)@ + u16_bytes(v),
{
    buf.push((v & 0xff) as u8);
    buf.push(((v >> 8u16) & 0xff) as u8);
    assert(buf@ =~= old(buf)@ + u16_bytes(v));
}

pub fn push_u32(buf: &mut Vec<u8>, v: u32)
    ensures
        final(buf)@ == old(buf)@ + u32_bytes(v),
{
    buf.push((v & 0xff) as u8);
    buf.push(((v >> 8u32) & 0xff) as u8);
    buf.push(((v >> 16u32) & 0xff) as u8);
    buf.push(((v >> 24u32) & 0xff) as u8);
    assert(buf@ =~= old(buf)@ + u32_bytes(v));
}

pub fn push_u64(buf: &mut Vec<u8>, v: u64)
    ensures
        final(buf)@ == old(buf)@ + u64_bytes(v),
{
    buf.push((v & 0xff) as u8);
    buf.push(((v >> 8u64) & 0xff) as u8);
    buf.push(((v >> 16u64) & 0xff) as u8);
    buf.push(((v >> 24u64) & 0xff) as u8);
    buf.push(((v >> 32u64) & 0xff) as u8);
    buf.push(((v >> 40u64) & 0xff) as u8);
    buf.push(((v >> 48u64) & 0xff) as u8);
    buf.push(((v >> 56u64) & 0xff) as u8);
    assert(buf@ =~= old(buf)@ + u64_bytes(v));
}

pub fn push_bytes(buf: &mut Vec<u8>, x: &[u8])
    ensures
        final(buf)@ == old(buf)@ + x@,
{
    let mut i: usize = 0;
    while i < x.len()
        invariant
            0 <= i <= x@.len(),
            buf@ == old(buf)@ + x@.subrange(0, i as int),
        decreases x@.len() - i,
    {
        buf.push(x[i]);
        i = i + 1;
        assert(buf@ =~= old(buf)@ + x@.subrange(0, i as int));
    }
    assert(x@.subrange(0, x@.len() as int) =~= x@);
}

/// Writes a string field.
pub fn push_string(buf: &mut Vec<u8>, s: &String)
    requires
        string_fits(s@),
    ensures
        final(buf)@ == old(buf)@ + string_bytes(s@),
{
    let b = s.as_str().as_bytes();
    push_u32(buf, b.len() as u32);
    push_bytes(buf, b);
    assert(buf@ =~= old(buf)@ + string_bytes(s@));
}

/// The number of bytes that a string field takes.
pub fn string_len(s: &String) -> (r: usize)
    ensures
        r == encode_utf8(s@).len(),
{
    s.as_str().as_bytes().len()
}

// ---- executable decoding ----
pub fn read_u16(b: &[u8], at: usize) -> (r: u16)
    requires
        at + 2 <= b@.len(),
    ensures
        r == u16_at(b@, at as int),
{
    (b[at] as u16) | ((b[at + 1] as u16) << 8u16)
}

pub fn read_u32(b: &[u8], at: usize) -> (r: u32)
    requires
        at + 4 <= b@.len(),
    ensures
        r == u32_at(b@, at as int),
{
    (b[at] as u32) | ((b[at + 1] as u32) << 8u32) | ((b[at + 2] as u32) << 16u32) | ((b[at + 3] as u32) << 24u32)
}

pub fn read_u64(b: &[u8], at: usize) -> (r: u64)
    requires
        at + 8 <= b@.len(),
    ensures
        r == u64_at(b@, at as int),
{
    (b[at] as u64) | ((b[at + 1] as u64) << 8u64) | ((b[at + 2] as u64) << 16u64) | ((b[at + 3] as u64) << 24u64)
        | ((b[at + 4] as u64) << 32u64) | ((b[at + 5] as u64) << 40u64) | ((b[at + 6] as u64) << 48u64)
        | ((b[at + 7] as u64) << 56u64)
}

/// Relies on std's `String::from_utf8`: it accepts exactly the valid UTF-8
/// byte strings, and the string it returns is made of those bytes.
#[verifier::external_body]
fn utf8_string(b: Vec<u8>) -> (r: Option<String>)
    ensures
        r is Some <==> valid_utf8(b@),
        r matches Some(s) ==> encode_utf8(s@) == b@,
{
    String::from_utf8(b).ok()
}

/// Copies `n` bytes of `b` from `at`.
pub fn copy_range(b: &[u8], at: usize, n: usize) -> (r: Vec<u8>)
    requires
        at + n <= b@.len(),
    ensures
        r@ == b@.subrange(at as int, at + n),
{
    let len = b.len();
    let mut r: Vec<u8> = Vec::new();
    let mut i: usize = 0;
    while i < n
        invariant
            0 <= i <= n,
            len == b@.len(),
            at + n <= b@.len(),
            r@ == b@.subrange(at as int, at + i),
        decreases n - i,
    {
        r.push(b[at + i]);
        i = i + 1;
        assert(r@ =~= b@.subrange(at as int, at + i));
    }
    r
}

/// Reads a string field at `at`.
pub fn read_string(b: &[u8], at: usize) -> (r: Option<(String, usize)>)
    ensures
        match string_at(b@, at as int) {
            Some(p) => r matches Some(q) && q.0@ == p.0 && q.1 == p.1,
            None => r is None,
        },
{
    let len = b.len();
    if at > len || len - at < 4 {
        return None;
    }
    let n = read_u32(b, at) as usize;
    if len - at - 4 < n {
        return None;
    }
    let raw = copy_range(b, at + 4, n);
    match utf8_string(raw) {
        Some(s) => {
            proof {
                vstd::utf8::encode_utf8_decode_utf8(s@);
            }
            Some((s, at + 4 + n))
        },
        None => None,
    }
}

} // verus!
