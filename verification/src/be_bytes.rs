//! Big-endian integer byte encodings used by every canonical transcript.
use vstd::prelude::*;
use vstd::slice::slice_subrange;

verus! {

/// Big-endian encoding of a `u16`.
pub open spec fn be_u16(x: u16) -> Seq<u8> {
    seq![(x >> 8) as u8, x as u8]
}

/// Big-endian encoding of a `u32`.
pub open spec fn be_u32(x: u32) -> Seq<u8> {
    seq![(x >> 24) as u8, (x >> 16) as u8, (x >> 8) as u8, x as u8]
}

/// Big-endian encoding of a `u64`.
pub open spec fn be_u64(x: u64) -> Seq<u8> {
    seq![
        (x >> 56) as u8,
        (x >> 48) as u8,
        (x >> 40) as u8,
        (x >> 32) as u8,
        (x >> 24) as u8,
        (x >> 16) as u8,
        (x >> 8) as u8,
        x as u8,
    ]
}

/// Big-endian encoding of a `u128`: the high half, then the low half.
pub open spec fn be_u128(x: u128) -> Seq<u8> {
    be_u64((x >> 64) as u64) + be_u64(x as u64)
}

/// The `u16` whose big-endian encoding is the two bytes `s`.
pub open spec fn u16_from_be(s: Seq<u8>) -> u16 {
    ((s[0] as u16) << 8) | (s[1] as u16)
}

/// The `u32` whose big-endian encoding is the four bytes `s`.
pub open spec fn u32_from_be(s: Seq<u8>) -> u32 {
    ((s[0] as u32) << 24) | ((s[1] as u32) << 16) | ((s[2] as u32) << 8) | (s[3] as u32)
}

/// The `u64` whose big-endian encoding is the eight bytes `s`.
pub open spec fn u64_from_be(s: Seq<u8>) -> u64 {
    ((s[0] as u64) << 56) | ((s[1] as u64) << 48) | ((s[2] as u64) << 40) | ((s[3] as u64) << 32)
        | ((s[4] as u64) << 24) | ((s[5] as u64) << 16) | ((s[6] as u64) << 8) | (s[7] as u64)
}

/// The `u128` whose big-endian encoding is the sixteen bytes `s`.
pub open spec fn u128_from_be(s: Seq<u8>) -> u128 {
    ((u64_from_be(s.subrange(0, 8)) as u128) << 64) | (u64_from_be(s.subrange(8, 16)) as u128)
}

pub proof fn lemma_be_u16(x: u16)
    ensures
        be_u16(x).len() == 2,
        u16_from_be(be_u16(x)) == x,
{
    let b0 = (x >> 8) as u8;
    let b1 = x as u8;
    assert(be_u16(x)[0] == b0 && be_u16(x)[1] == b1);
    assert(((b0 as u16) << 8) | (b1 as u16) == x) by (bit_vector)
        requires
            b0 == (x >> 8) as u8,
            b1 == x as u8,
    ;
}

pub proof fn lemma_u16_from_be(s: Seq<u8>)
    requires
        s.len() == 2,
    ensures
        be_u16(u16_from_be(s)) == s,
{
    let x = u16_from_be(s);
    let (s0, s1) = (s[0], s[1]);
    assert((s0 as u16) << 8 | (s1 as u16) == x ==> (x >> 8) as u8 == s0 && x as u8 == s1)
        by (bit_vector);
    assert(be_u16(x) =~= s);
}

pub proof fn lemma_be_u32(x: u32)
    ensures
        be_u32(x).len() == 4,
        u32_from_be(be_u32(x)) == x,
{
    let s = be_u32(x);
    let (b0, b1, b2, b3) = ((x >> 24) as u8, (x >> 16) as u8, (x >> 8) as u8, x as u8);
    assert(s[0] == b0 && s[1] == b1 && s[2] == b2 && s[3] == b3);
    assert(((b0 as u32) << 24) | ((b1 as u32) << 16) | ((b2 as u32) << 8) | (b3 as u32) == x)
        by (bit_vector)
        requires
            b0 == (x >> 24) as u8,
            b1 == (x >> 16) as u8,
            b2 == (x >> 8) as u8,
            b3 == x as u8,
    ;
}

pub proof fn lemma_u32_from_be(s: Seq<u8>)
    requires
        s.len() == 4,
    ensures
        be_u32(u32_from_be(s)) == s,
{
    let x = u32_from_be(s);
    let (s0, s1, s2, s3) = (s[0], s[1], s[2], s[3]);
    assert(((s0 as u32) << 24) | ((s1 as u32) << 16) | ((s2 as u32) << 8) | (s3 as u32) == x
        ==> (x >> 24) as u8 == s0 && (x >> 16) as u8 == s1 && (x >> 8) as u8 == s2 && x as u8
        == s3) by (bit_vector);
    assert(be_u32(x) =~= s);
}

pub proof fn lemma_be_u64(x: u64)
    ensures
        be_u64(x).len() == 8,
        u64_from_be(be_u64(x)) == x,
{
    let s = be_u64(x);
    let (b0, b1, b2, b3) = ((x >> 56) as u8, (x >> 48) as u8, (x >> 40) as u8, (x >> 32) as u8);
    let (b4, b5, b6, b7) = ((x >> 24) as u8, (x >> 16) as u8, (x >> 8) as u8, x as u8);
    assert(s[0] == b0 && s[1] == b1 && s[2] == b2 && s[3] == b3);
    assert(s[4] == b4 && s[5] == b5 && s[6] == b6 && s[7] == b7);
    assert(((b0 as u64) << 56) | ((b1 as u64) << 48) | ((b2 as u64) << 40) | ((b3 as u64) << 32)
        | ((b4 as u64) << 24) | ((b5 as u64) << 16) | ((b6 as u64) << 8) | (b7 as u64) == x)
        by (bit_vector)
        requires
            b0 == (x >> 56) as u8,
            b1 == (x >> 48) as u8,
            b2 == (x >> 40) as u8,
            b3 == (x >> 32) as u8,
            b4 == (x >> 24) as u8,
            b5 == (x >> 16) as u8,
            b6 == (x >> 8) as u8,
            b7 == x as u8,
    ;
}

pub proof fn lemma_u64_from_be(s: Seq<u8>)
    requires
        s.len() == 8,
    ensures
        be_u64(u64_from_be(s)) == s,
{
    let x = u64_from_be(s);
    let (s0, s1, s2, s3, s4, s5, s6, s7) = (s[0], s[1], s[2], s[3], s[4], s[5], s[6], s[7]);
    assert(((s0 as u64) << 56) | ((s1 as u64) << 48) | ((s2 as u64) << 40) | ((s3 as u64) << 32)
        | ((s4 as u64) << 24) | ((s5 as u64) << 16) | ((s6 as u64) << 8) | (s7 as u64) == x
        ==> (x >> 56) as u8 == s0 && (x >> 48) as u8 == s1 && (x >> 40) as u8 == s2 && (x >> 32)
        as u8 == s3 && (x >> 24) as u8 == s4 && (x >> 16) as u8 == s5 && (x >> 8) as u8 == s6
        && x as u8 == s7) by (bit_vector);
    assert(be_u64(x) =~= s);
}

pub proof fn lemma_be_u128(x: u128)
    ensures
        be_u128(x).len() == 16,
        u128_from_be(be_u128(x)) == x,
{
    let hi = (x >> 64) as u64;
    let lo = x as u64;
    lemma_be_u64(hi);
    lemma_be_u64(lo);
    let s = be_u128(x);
    assert(s.subrange(0, 8) =~= be_u64(hi));
    assert(s.subrange(8, 16) =~= be_u64(lo));
    assert(((hi as u128) << 64) | (lo as u128) == x) by (bit_vector)
        requires
            hi == (x >> 64) as u64,
            lo == x as u64,
    ;
}

pub proof fn lemma_u128_from_be(s: Seq<u8>)
    requires
        s.len() == 16,
    ensures
        be_u128(u128_from_be(s)) == s,
{
    let hi = u64_from_be(s.subrange(0, 8));
    let lo = u64_from_be(s.subrange(8, 16));
    let x = u128_from_be(s);
    assert(x == ((hi as u128) << 64) | (lo as u128));
    assert(((x >> 64) as u64) == hi && (x as u64) == lo) by (bit_vector)
        requires
            x == ((hi as u128) << 64) | (lo as u128),
    ;
    lemma_u64_from_be(s.subrange(0, 8));
    lemma_u64_from_be(s.subrange(8, 16));
    assert(be_u128(x) =~= s.subrange(0, 8) + s.subrange(8, 16));
    assert(s =~= s.subrange(0, 8) + s.subrange(8, 16));
}

/// Reads a big-endian `u16` from exactly two bytes.
pub fn read_be_u16(bytes: &[u8]) -> (r: u16)
    requires
        bytes@.len() == 2,
    ensures
        r == u16_from_be(bytes@),
{
    ((bytes[0] as u16) << 8) | (bytes[1] as u16)
}

/// Reads a big-endian `u32` from exactly four bytes.
pub fn read_be_u32(bytes: &[u8]) -> (r: u32)
    requires
        bytes@.len() == 4,
    ensures
        r == u32_from_be(bytes@),
{
    ((bytes[0] as u32) << 24) | ((bytes[1] as u32) << 16) | ((bytes[2] as u32) << 8) | (
    bytes[3] as u32)
}

/// Reads a big-endian `u64` from exactly eight bytes.
pub fn read_be_u64(bytes: &[u8]) -> (r: u64)
    requires
        bytes@.len() == 8,
    ensures
        r == u64_from_be(bytes@),
{
    ((bytes[0] as u64) << 56) | ((bytes[1] as u64) << 48) | ((bytes[2] as u64) << 40) | ((
    bytes[3] as u64) << 32) | ((bytes[4] as u64) << 24) | ((bytes[5] as u64) << 16) | ((
    bytes[6] as u64) << 8) | (bytes[7] as u64)
}

/// Reads a big-endian `u128` from exactly sixteen bytes.
pub fn read_be_u128(bytes: &[u8]) -> (r: u128)
    requires
        bytes@.len() == 16,
    ensures
        r == u128_from_be(bytes@),
{
    let hi = read_be_u64(slice_subrange(bytes, 0, 8));
    let lo = read_be_u64(slice_subrange(bytes, 8, 16));
    ((hi as u128) << 64) | (lo as u128)
}

/// Appends the big-endian encoding of `x`.
pub fn push_be_u16(out: &mut Vec<u8>, x: u16)
    ensures
        final(out)@ == old(out)@ + be_u16(x),
{
    out.push((x >> 8) as u8);
    out.push(x as u8);
    assert(final(out)@ =~= old(out)@ + be_u16(x));
}

/// Appends the big-endian encoding of `x`.
pub fn push_be_u32(out: &mut Vec<u8>, x: u32)
    ensures
        final(out)@ == old(out)@ + be_u32(x),
{
    out.push((x >> 24) as u8);
    out.push((x >> 16) as u8);
    out.push((x >> 8) as u8);
    out.push(x as u8);
    assert(final(out)@ =~= old(out)@ + be_u32(x));
}

/// Appends the big-endian encoding of `x`.
pub fn push_be_u64(out: &mut Vec<u8>, x: u64)
    ensures
        final(out)@ == old(out)@ + be_u64(x),
{
    out.push((x >> 56) as u8);
    out.push((x >> 48) as u8);
    out.push((x >> 40) as u8);
    out.push((x >> 32) as u8);
    out.push((x >> 24) as u8);
    out.push((x >> 16) as u8);
    out.push((x >> 8) as u8);
    out.push(x as u8);
    assert(final(out)@ =~= old(out)@ + be_u64(x));
}

/// Appends the big-endian encoding of `x`.
pub fn push_be_u128(out: &mut Vec<u8>, x: u128)
    ensures
        final(out)@ == old(out)@ + be_u128(x),
{
    push_be_u64(out, (x >> 64) as u64);
    push_be_u64(out, x as u64);
    assert(final(out)@ =~= old(out)@ + be_u128(x));
}

/// Appends all of `bytes`.
pub fn push_bytes(out: &mut Vec<u8>, bytes: &[u8])
    ensures
        final(out)@ == old(out)@ + bytes@,
{
    out.extend_from_slice(bytes);
    assert(final(out)@ =~= old(out)@ + bytes@);
}

/// Whether two byte strings are equal.
pub fn bytes_equal(a: &[u8], b: &[u8]) -> (r: bool)
    ensures
        r == (a@ == b@),
{
    if a.len() != b.len() {
        return false;
    }
    let mut i: usize = 0;
    while i < a.len()
        invariant
            i <= a@.len(),
            a@.len() == b@.len(),
            forall|j: int| 0 <= j < i ==> a@[j] == b@[j],
        decreases a@.len() - i,
    {
        if a[i] != b[i] {
            return false;
        }
        i = i + 1;
    }
    assert(a@ =~= b@);
    true
}

} // verus!
