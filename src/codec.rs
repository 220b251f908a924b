use borsh::{BorshDeserialize, BorshSerialize};
use vstd::prelude::*;
use vstd::utf8::*;

verus! {

broadcast use {encode_utf8_valid_utf8, encode_utf8_decode_utf8};

/// The four little-endian bytes of `n`.
pub open spec fn u32_le(n: u32) -> Seq<u8> {
    seq![n as u8, (n >> 8u32) as u8, (n >> 16u32) as u8, (n >> 24u32) as u8]
}

/// The `u32` whose little-endian bytes are `b0 .. b3`.
pub open spec fn u32_of_le(b0: u8, b1: u8, b2: u8, b3: u8) -> u32 {
    (b0 as u32) | ((b1 as u32) << 8u32) | ((b2 as u32) << 16u32) | ((b3 as u32) << 24u32)
}

/// The eight little-endian bytes of `n`.
pub open spec fn u64_le(n: u64) -> Seq<u8> {
    seq![
        n as u8, (n >> 8u64) as u8, (n >> 16u64) as u8, (n >> 24u64) as u8,
        (n >> 32u64) as u8, (n >> 40u64) as u8, (n >> 48u64) as u8, (n >> 56u64) as u8,
    ]
}

/// The eight big-endian bytes of `n`.
pub open spec fn u64_be(n: u64) -> Seq<u8> {
    seq![
        (n >> 56u64) as u8, (n >> 48u64) as u8, (n >> 40u64) as u8, (n >> 32u64) as u8,
        (n >> 24u64) as u8, (n >> 16u64) as u8, (n >> 8u64) as u8, n as u8,
    ]
}

/// The `u64` whose little-endian bytes start at `p` in `d`.
pub open spec fn u64_of_le(d: Seq<u8>, p: int) -> u64 {
    (d[p] as u64) | ((d[p + 1] as u64) << 8u64) | ((d[p + 2] as u64) << 16u64) | ((d[p + 3] as u64)
        << 24u64) | ((d[p + 4] as u64) << 32u64) | ((d[p + 5] as u64) << 40u64) | ((d[p + 6] as u64)
        << 48u64) | ((d[p + 7] as u64) << 56u64)
}

/// A string as it is laid out: its UTF-8 byte count as a little-endian `u32`, then the bytes.
pub open spec fn str_field(s: Seq<char>) -> Seq<u8> {
    u32_le(encode_utf8(s).len() as u32) + encode_utf8(s)
}

/// A string fits a layout when its byte count fits the `u32` prefix.
pub open spec fn str_fits(s: Seq<char>) -> bool {
    encode_utf8(s).len() <= u32::MAX
}

/// The string laid out at `p` in `d`, with the position just past it.
pub open spec fn str_at(d: Seq<u8>, p: int) -> Option<(Seq<char>, int)> {
    if 0 <= p && p + 4 <= d.len() {
        let end = p + 4 + u32_of_le(d[p], d[p + 1], d[p + 2], d[p + 3]) as int;
        if end <= d.len() && valid_utf8(d.subrange(p + 4, end)) {
            Some((decode_utf8(d.subrange(p + 4, end)), end))
        } else {
            None
        }
    } else {
        None
    }
}

/// A flag byte: 0 or 1.
pub open spec fn bool_at(d: Seq<u8>, p: int) -> Option<bool> {
    if 0 <= p < d.len() && d[p] <= 1 {
        Some(d[p] == 1)
    } else {
        None
    }
}

pub open spec fn bool_byte(b: bool) -> u8 {
    if b {
        1
    } else {
        0
    }
}

pub proof fn lemma_u32_le(n: u32)
    ensures
        u32_of_le(u32_le(n)[0], u32_le(n)[1], u32_le(n)[2], u32_le(n)[3]) == n,
{
    let b0 = n as u8;
    let b1 = (n >> 8u32) as u8;
    let b2 = (n >> 16u32) as u8;
    let b3 = (n >> 24u32) as u8;
    assert(((b0 as u32) | ((b1 as u32) << 8u32) | ((b2 as u32) << 16u32) | ((b3 as u32) << 24u32))
        == n) by (bit_vector)
        requires
            b0 == n as u8,
            b1 == (n >> 8u32) as u8,
            b2 == (n >> 16u32) as u8,
            b3 == (n >> 24u32) as u8,
    ;
}

pub proof fn lemma_u64_le(n: u64, pre: Seq<u8>, rest: Seq<u8>)
    ensures
        u64_of_le(pre + u64_le(n) + rest, pre.len() as int) == n,
{
    let d = pre + u64_le(n) + rest;
    let p = pre.len() as int;
    assert(d.subrange(p, p + 8) == u64_le(n));
    let b0 = d[p];
    let b1 = d[p + 1];
    let b2 = d[p + 2];
    let b3 = d[p + 3];
    let b4 = d[p + 4];
    let b5 = d[p + 5];
    let b6 = d[p + 6];
    let b7 = d[p + 7];
    assert(((b0 as u64) | ((b1 as u64) << 8u64) | ((b2 as u64) << 16u64) | ((b3 as u64) << 24u64)
        | ((b4 as u64) << 32u64) | ((b5 as u64) << 40u64) | ((b6 as u64) << 48u64) | ((b7 as u64)
        << 56u64)) == n) by (bit_vector)
        requires
            b0 == n as u8,
            b1 == (n >> 8u64) as u8,
            b2 == (n >> 16u64) as u8,
            b3 == (n >> 24u64) as u8,
            b4 == (n >> 32u64) as u8,
            b5 == (n >> 40u64) as u8,
            b6 == (n >> 48u64) as u8,
            b7 == (n >> 56u64) as u8,
    ;
}

/// A string field reads back as itself, whatever precedes and follows it.
pub proof fn lemma_str_at(s: Seq<char>, pre: Seq<u8>, rest: Seq<u8>)
    requires
        str_fits(s),
    ensures
        str_at(pre + str_field(s) + rest, pre.len() as int) == Some(
            (s, (pre.len() + str_field(s).len()) as int),
        ),
{
    let d = pre + str_field(s) + rest;
    let p = pre.len() as int;
    let n = encode_utf8(s).len() as u32;
    lemma_u32_le(n);
    assert(d[p] == u32_le(n)[0] && d[p + 1] == u32_le(n)[1] && d[p + 2] == u32_le(n)[2] && d[p
        + 3] == u32_le(n)[3]);
    assert(d.subrange(p + 4, p + 4 + n) =~= encode_utf8(s));
}

/// Reads the string laid out at `pos`; gives it with the count of bytes left after it.
///
/// Relies on borsh's `String` decoding: a little-endian `u32` byte count, then that
/// many bytes, which must be UTF-8.
#[verifier::external_body]
pub(crate) fn read_string(data: &[u8], pos: usize) -> (r: Option<(String, usize)>)
    requires
        pos <= data@.len(),
    ensures
        match r {
            Some((s, left)) => str_at(data@, pos as int) == Some((s@, data@.len() - left)),
            None => str_at(data@, pos as int) is None,
        },
{
    let mut rest = &data[pos..];
    match <String as BorshDeserialize>::deserialize(&mut rest) {
        Ok(s) => Some((s, rest.len())),
        Err(_) => None,
    }
}

/// Appends the layout of `s` to `out`.
///
/// Relies on borsh's `String` encoding: the byte count as a little-endian `u32`, then
/// the UTF-8 bytes; writing to a `Vec` fails only when the count exceeds `u32`.
#[verifier::external_body]
pub(crate) fn write_string(out: &mut Vec<u8>, s: &String)
    requires
        str_fits(s@),
    ensures
        final(out)@ == old(out)@ + str_field(s@),
{
    let _ = BorshSerialize::serialize(s, out);
}

/// The UTF-8 byte count of `s`.
pub fn str_len(s: &String) -> (r: usize)
    ensures
        r == encode_utf8(s@).len(),
{
    s.as_str().as_bytes().len()
}

pub fn push_u64_le(out: &mut Vec<u8>, n: u64)
    ensures
        final(out)@ == old(out)@ + u64_le(n),
{
    let ghost start = out@;
    out.push(n as u8);
    out.push((n >> 8u64) as u8);
    out.push((n >> 16u64) as u8);
    out.push((n >> 24u64) as u8);
    out.push((n >> 32u64) as u8);
    out.push((n >> 40u64) as u8);
    out.push((n >> 48u64) as u8);
    out.push((n >> 56u64) as u8);
    assert(out@ =~= start + u64_le(n));
}

pub fn u64_be_bytes(n: u64) -> (r: Vec<u8>)
    ensures
        r@ == u64_be(n),
{
    let r = vec![
        (n >> 56u64) as u8,
        (n >> 48u64) as u8,
        (n >> 40u64) as u8,
        (n >> 32u64) as u8,
        (n >> 24u64) as u8,
        (n >> 16u64) as u8,
        (n >> 8u64) as u8,
        n as u8,
    ];
    assert(r@ =~= u64_be(n));
    r
}

/// Reads the little-endian `u64` at `pos`.
pub fn read_u64_le(data: &[u8], pos: usize) -> (r: u64)
    requires
        pos + 8 <= data@.len(),
    ensures
        r == u64_of_le(data@, pos as int),
{
    (data[pos] as u64) | ((data[pos + 1] as u64) << 8u64) | ((data[pos + 2] as u64) << 16u64) | ((
    data[pos + 3] as u64) << 24u64) | ((data[pos + 4] as u64) << 32u64) | ((data[pos + 5] as u64)
        << 40u64) | ((data[pos + 6] as u64) << 48u64) | ((data[pos + 7] as u64) << 56u64)
}

/// Reads the flag byte at `pos`.
pub fn read_bool(data: &[u8], pos: usize) -> (r: Option<bool>)
    ensures
        r == bool_at(data@, pos as int),
{
    if pos < data.len() && data[pos] <= 1 {
        Some(data[pos] == 1)
    } else {
        None
    }
}

} // verus!
