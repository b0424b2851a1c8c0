//! The pipe wire format of the forkserver protocol.
//!
//! Every message on either pipe is exactly 4 raw bytes, little-endian,
//! interpreted as a signed 32-bit integer: the "go" token carries 0, the
//! two later status messages carry the worker's process identifier and its
//! raw exit status.

use vstd::prelude::*;

verus! {

/// The unsigned 32-bit word spelled by four little-endian bytes.
pub open spec fn le_word(b0: u8, b1: u8, b2: u8, b3: u8) -> u32 {
    (b0 as u32) | ((b1 as u32) << 8) | ((b2 as u32) << 16) | ((b3 as u32) << 24)
}

/// A 32-bit word read as a signed integer (two's complement).
pub open spec fn as_signed(w: u32) -> int {
    if w < 0x8000_0000 {
        w as int
    } else {
        w as int - 0x1_0000_0000
    }
}

/// The signed 32-bit value spelled by four little-endian bytes.
pub open spec fn spec_i32_from_le(b0: u8, b1: u8, b2: u8, b3: u8) -> i32 {
    as_signed(le_word(b0, b1, b2, b3)) as i32
}

/// Read four little-endian bytes as a signed 32-bit integer.
pub fn decode_i32_le(b0: u8, b1: u8, b2: u8, b3: u8) -> (v: i32)
    ensures
        v == spec_i32_from_le(b0, b1, b2, b3),
        v as int == as_signed(le_word(b0, b1, b2, b3)),
{
    let w: u32 = (b0 as u32) | ((b1 as u32) << 8) | ((b2 as u32) << 16) | ((b3 as u32) << 24);
    assert(w == le_word(b0, b1, b2, b3));
    let wide: i64 = w as i64;
    let v: i64 = if wide >= 0x8000_0000 {
        wide - 0x1_0000_0000
    } else {
        wide
    };
    assert(v == as_signed(w));
    v as i32
}

/// Spell a signed 32-bit integer as four little-endian bytes.  The ensures
/// closes the round trip: reading the bytes back yields the value.
pub fn encode_i32_le(v: i32) -> (b: (u8, u8, u8, u8))
    ensures
        spec_i32_from_le(b.0, b.1, b.2, b.3) == v,
        as_signed(le_word(b.0, b.1, b.2, b.3)) == v as int,
{
    let w: u32 = if v >= 0 {
        v as u32
    } else {
        ((v as i64) + 0x1_0000_0000) as u32
    };
    assert(as_signed(w) == v as int);
    let b0: u8 = (w & 0xFF) as u8;
    let b1: u8 = ((w >> 8) & 0xFF) as u8;
    let b2: u8 = ((w >> 16) & 0xFF) as u8;
    let b3: u8 = ((w >> 24) & 0xFF) as u8;
    proof {
        lemma_le_bytes_reassemble(w);
    }
    (b0, b1, b2, b3)
}

/// Splitting a word into its four bytes and re-reading them little-endian
/// gives the word back.
pub proof fn lemma_le_bytes_reassemble(w: u32)
    by (bit_vector)
    ensures
        le_word(
            (w & 0xFF) as u8,
            ((w >> 8) & 0xFF) as u8,
            ((w >> 16) & 0xFF) as u8,
            ((w >> 24) & 0xFF) as u8,
        ) == w,
{
}

} // verus!
