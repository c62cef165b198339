//! Big-endian encoding and decoding of the integer fields that appear in the
//! SBD wire format, together with the round-trip lemmas the codecs rely on.

use vstd::prelude::*;

verus! {

/// The two big-endian bytes of a 16-bit value.
pub open spec fn be16_bytes(n: u16) -> Seq<u8> {
    seq![(n / 256) as u8, (n % 256) as u8]
}

/// The 16-bit value named by two big-endian bytes.
pub open spec fn be16_val(b0: u8, b1: u8) -> u16 {
    (b0 as int * 256 + b1 as int) as u16
}

/// The four big-endian bytes of a 32-bit value.
pub open spec fn be32_bytes(n: u32) -> Seq<u8> {
    seq![
        (n / 0x1000000) as u8,
        ((n / 0x10000) % 256) as u8,
        ((n / 256) % 256) as u8,
        (n % 256) as u8,
    ]
}

/// The 32-bit value named by four big-endian bytes.
pub open spec fn be32_val(b0: u8, b1: u8, b2: u8, b3: u8) -> u32 {
    (b0 as int * 0x1000000 + b1 as int * 0x10000 + b2 as int * 256 + b3 as int) as u32
}

pub proof fn lemma_be16_roundtrip(n: u16)
    ensures
        be16_val(be16_bytes(n)[0], be16_bytes(n)[1]) == n,
{
}

pub proof fn lemma_be32_roundtrip(n: u32)
    ensures
        be32_val(be32_bytes(n)[0], be32_bytes(n)[1], be32_bytes(n)[2], be32_bytes(n)[3]) == n,
{
}

/// Appends the two big-endian bytes of `n`.
pub fn put_u16(out: &mut Vec<u8>, n: u16)
    ensures
        final(out)@ == old(out)@ + be16_bytes(n),
{
    out.push((n / 256) as u8);
    out.push((n % 256) as u8);
    assert(out@ =~= old(out)@ + be16_bytes(n));
}

/// Appends the four big-endian bytes of `n`.
pub fn put_u32(out: &mut Vec<u8>, n: u32)
    ensures
        final(out)@ == old(out)@ + be32_bytes(n),
{
    out.push((n / 0x1000000) as u8);
    out.push(((n / 0x10000) % 256) as u8);
    out.push(((n / 256) % 256) as u8);
    out.push((n % 256) as u8);
    assert(out@ =~= old(out)@ + be32_bytes(n));
}

/// Reads the big-endian 16-bit value at `pos`.
pub fn get_u16(bytes: &[u8], pos: usize) -> (r: u16)
    requires
        pos + 2 <= bytes@.len(),
    ensures
        r == be16_val(bytes@[pos as int], bytes@[pos as int + 1]),
{
    (bytes[pos] as u16) * 256 + (bytes[pos + 1] as u16)
}

/// Reads the big-endian 32-bit value at `pos`.
pub fn get_u32(bytes: &[u8], pos: usize) -> (r: u32)
    requires
        pos + 4 <= bytes@.len(),
    ensures
        r == be32_val(
            bytes@[pos as int],
            bytes@[pos as int + 1],
            bytes@[pos as int + 2],
            bytes@[pos as int + 3],
        ),
{
    (bytes[pos] as u32) * 0x1000000 + (bytes[pos + 1] as u32) * 0x10000
        + (bytes[pos + 2] as u32) * 256 + (bytes[pos + 3] as u32)
}

/// The 16-bit two's-complement image of a signed 16-bit value.
pub open spec fn u16_of_i16(s: i16) -> u16 {
    (if s >= 0 {
        s as int
    } else {
        s as int + 0x10000
    }) as u16
}

/// The signed 16-bit value named by its two's-complement image.
pub open spec fn i16_of_u16(n: u16) -> i16 {
    (if n < 0x8000 {
        n as int
    } else {
        n as int - 0x10000
    }) as i16
}

pub proof fn lemma_i16_roundtrip(s: i16)
    ensures
        i16_of_u16(u16_of_i16(s)) == s,
{
}

/// Converts a signed 16-bit value to its two's-complement image.
pub fn u16_from_i16(s: i16) -> (r: u16)
    ensures
        r == u16_of_i16(s),
{
    if s >= 0 {
        s as u16
    } else {
        ((s as i32) + 0x10000) as u16
    }
}

/// Converts a two's-complement image back to the signed 16-bit value.
pub fn i16_from_u16(n: u16) -> (r: i16)
    ensures
        r == i16_of_u16(n),
{
    if n < 0x8000 {
        n as i16
    } else {
        ((n as i32) - 0x10000) as i16
    }
}

} // verus!
