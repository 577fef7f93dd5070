//! Big-endian byte packing for the wire format.
//!
//! Every multi-byte integer on the wire — channel ids, sequence counters,
//! frame length prefixes, handshake peer ids — is big-endian. Channel ids
//! and peer ids are signed 32-bit values carried as their two's-complement
//! 32-bit word.

use vstd::prelude::*;

verus! {

/// The two big-endian bytes of a 16-bit value.
pub open spec fn be16_bytes(n: u16) -> Seq<u8> {
    seq![(n / 256) as u8, (n % 256) as u8]
}

/// The 16-bit value read from two big-endian bytes.
pub open spec fn u16_of_be(b0: u8, b1: u8) -> u16 {
    (b0 * 256 + b1) as u16
}

/// The four big-endian bytes of a 32-bit value.
pub open spec fn be32_bytes(w: u32) -> Seq<u8> {
    seq![
        (w / 0x1000000) as u8,
        ((w / 0x10000) % 256) as u8,
        ((w / 256) % 256) as u8,
        (w % 256) as u8,
    ]
}

/// The 32-bit value read from four big-endian bytes.
pub open spec fn u32_of_be(b0: u8, b1: u8, b2: u8, b3: u8) -> u32 {
    (b0 * 0x1000000 + b1 * 0x10000 + b2 * 256 + b3) as u32
}

/// The unsigned 32-bit word that carries a signed 32-bit value on the wire
/// (two's complement).
pub open spec fn word_of_i32(c: i32) -> u32 {
    if c >= 0 {
        c as u32
    } else {
        (c + 0x100000000) as u32
    }
}

/// The signed 32-bit value carried by an unsigned 32-bit wire word
/// (two's complement).
pub open spec fn i32_of_word(w: u32) -> i32 {
    if w < 0x80000000 {
        w as i32
    } else {
        (w - 0x100000000) as i32
    }
}

/// Reading back the two bytes of a 16-bit value yields the value.
pub proof fn lemma_be16_round_trip(n: u16)
    ensures
        u16_of_be(be16_bytes(n)[0], be16_bytes(n)[1]) == n,
{
    assert((n / 256) * 256 + (n % 256) == n) by (bit_vector);
}

/// Two bytes encode again to themselves after being read as a 16-bit value.
pub proof fn lemma_be16_bytes_of_value(b0: u8, b1: u8)
    ensures
        be16_bytes(u16_of_be(b0, b1)) == seq![b0, b1],
{
    let n = u16_of_be(b0, b1);
    assert(n / 256 == b0 && n % 256 == b1) by (bit_vector)
        requires
            n == b0 * 256 + b1,
    ;
    assert(be16_bytes(n) == seq![b0, b1]);
}

/// Reading back the four bytes of a 32-bit value yields the value.
pub proof fn lemma_be32_round_trip(w: u32)
    ensures
        u32_of_be(be32_bytes(w)[0], be32_bytes(w)[1], be32_bytes(w)[2], be32_bytes(w)[3]) == w,
{
    assert((w / 0x1000000) * 0x1000000 + ((w / 0x10000) % 256) * 0x10000 + ((w / 256) % 256) * 256
        + (w % 256) == w) by (bit_vector);
}

/// Four bytes encode again to themselves after being read as a 32-bit value.
pub proof fn lemma_be32_bytes_of_value(b0: u8, b1: u8, b2: u8, b3: u8)
    ensures
        be32_bytes(u32_of_be(b0, b1, b2, b3)) == seq![b0, b1, b2, b3],
{
    let w = u32_of_be(b0, b1, b2, b3);
    assert(w / 0x1000000 == b0 && (w / 0x10000) % 256 == b1 && (w / 256) % 256 == b2 && w % 256
        == b3) by (bit_vector)
        requires
            w == b0 * 0x1000000 + b1 * 0x10000 + b2 * 256 + b3,
    ;
    assert(be32_bytes(w) == seq![b0, b1, b2, b3]);
}

/// The two's-complement word round-trips back to the signed value.
pub proof fn lemma_i32_word_round_trip(c: i32)
    ensures
        i32_of_word(word_of_i32(c)) == c,
{
}

/// A wire word round-trips back to itself through the signed reading.
pub proof fn lemma_word_i32_round_trip(w: u32)
    ensures
        word_of_i32(i32_of_word(w)) == w,
{
}

/// Appends the two big-endian bytes of a 16-bit value.
pub fn push_be16(out: &mut Vec<u8>, n: u16)
    requires
        old(out)@.len() + 2 <= usize::MAX,
    ensures
        final(out)@ == old(out)@ + be16_bytes(n),
{
    let b0: u8 = (n / 256) as u8;
    let b1: u8 = (n % 256) as u8;
    out.push(b0);
    out.push(b1);
    assert(out@ =~= old(out)@ + be16_bytes(n));
}

/// Appends the four big-endian bytes of a 32-bit value.
pub fn push_be32(out: &mut Vec<u8>, w: u32)
    requires
        old(out)@.len() + 4 <= usize::MAX,
    ensures
        final(out)@ == old(out)@ + be32_bytes(w),
{
    let b0: u8 = (w / 0x1000000) as u8;
    let b1: u8 = ((w / 0x10000) % 256) as u8;
    let b2: u8 = ((w / 256) % 256) as u8;
    let b3: u8 = (w % 256) as u8;
    out.push(b0);
    out.push(b1);
    out.push(b2);
    out.push(b3);
    assert(out@ =~= old(out)@ + be32_bytes(w));
}

/// The two big-endian bytes of a 16-bit value, as a fresh vector.
pub fn encode_be16(n: u16) -> (r: Vec<u8>)
    ensures
        r@ == be16_bytes(n),
{
    let mut out: Vec<u8> = Vec::new();
    push_be16(&mut out, n);
    assert(out@ =~= be16_bytes(n));
    out
}

/// The four big-endian bytes of a 32-bit value, as a fresh vector.
pub fn encode_be32(w: u32) -> (r: Vec<u8>)
    ensures
        r@ == be32_bytes(w),
{
    let mut out: Vec<u8> = Vec::new();
    push_be32(&mut out, w);
    assert(out@ =~= be32_bytes(w));
    out
}

/// Reads a 16-bit value from its two big-endian bytes.
pub fn decode_be16(b0: u8, b1: u8) -> (r: u16)
    ensures
        r == u16_of_be(b0, b1),
{
    b0 as u16 * 256 + b1 as u16
}

/// Reads a 32-bit value from its four big-endian bytes.
pub fn decode_be32(b0: u8, b1: u8, b2: u8, b3: u8) -> (r: u32)
    ensures
        r == u32_of_be(b0, b1, b2, b3),
{
    b0 as u32 * 0x1000000 + b1 as u32 * 0x10000 + b2 as u32 * 256 + b3 as u32
}

/// The unsigned wire word of a signed 32-bit value.
pub fn i32_to_word(c: i32) -> (r: u32)
    ensures
        r == word_of_i32(c),
{
    if c >= 0 {
        c as u32
    } else {
        ((c as i64) + 0x100000000i64) as u32
    }
}

/// The signed 32-bit value of an unsigned wire word.
pub fn word_to_i32(w: u32) -> (r: i32)
    ensures
        r == i32_of_word(w),
{
    if w < 0x80000000 {
        w as i32
    } else {
        ((w as i64) - 0x100000000i64) as i32
    }
}

} // verus!
