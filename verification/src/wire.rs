//! Little-endian encoding of the integer fields that the bus driver exchanges.

use vstd::prelude::*;

verus! {

/// The two bytes of `v`, least significant first.
pub open spec fn le_u16(v: u16) -> Seq<u8> {
    seq![(v % 256) as u8, (v / 256) as u8]
}

/// The four bytes of `v`, least significant first.
pub open spec fn le_u32(v: u32) -> Seq<u8> {
    seq![(v % 256) as u8, ((v / 256) % 256) as u8, ((v / 65536) % 256) as u8, (v / 16777216) as u8]
}

/// The two's-complement bit pattern of `v`.
pub open spec fn i16_bits(v: i16) -> u16 {
    if v < 0 {
        (v + 65536) as u16
    } else {
        v as u16
    }
}

/// The two's-complement bit pattern of `v`.
pub open spec fn i32_bits(v: i32) -> u32 {
    if v < 0 {
        (v + 4294967296) as u32
    } else {
        v as u32
    }
}

/// The unsigned 32-bit value stored little-endian at `at` in `s`.
pub open spec fn read_u32(s: Seq<u8>, at: int) -> u32 {
    (s[at] + 256 * s[at + 1] + 65536 * s[at + 2] + 16777216 * s[at + 3]) as u32
}

/// Appends `v` in little-endian order.
pub fn push_u16(buf: &mut Vec<u8>, v: u16)
    ensures
        final(buf)@ == old(buf)@ + le_u16(v),
{
    buf.push((v % 256) as u8);
    buf.push((v / 256) as u8);
}

/// Appends `v` in little-endian order.
pub fn push_u32(buf: &mut Vec<u8>, v: u32)
    ensures
        final(buf)@ == old(buf)@ + le_u32(v),
{
    buf.push((v % 256) as u8);
    buf.push(((v / 256) % 256) as u8);
    buf.push(((v / 65536) % 256) as u8);
    buf.push((v / 16777216) as u8);
}

/// The two's-complement bit pattern of `v`.
pub fn bits_of_i16(v: i16) -> (r: u16)
    ensures
        r == i16_bits(v),
{
    if v < 0 {
        (v as i32 + 65536) as u16
    } else {
        v as u16
    }
}

/// The two's-complement bit pattern of `v`.
pub fn bits_of_i32(v: i32) -> (r: u32)
    ensures
        r == i32_bits(v),
{
    if v < 0 {
        (v as i64 + 4294967296) as u32
    } else {
        v as u32
    }
}

/// Reads the unsigned 32-bit value stored little-endian at `at`.
pub fn get_u32(buf: &Vec<u8>, at: usize) -> (r: u32)
    requires
        at + 4 <= buf@.len(),
    ensures
        r == read_u32(buf@, at as int),
{
    let len = buf.len();
    assert(at + 4 <= len);
    let b0 = buf[at] as u32;
    let b1 = buf[at + 1] as u32;
    let b2 = buf[at + 2] as u32;
    let b3 = buf[at + 3] as u32;
    b0 + 256 * b1 + 65536 * b2 + 16777216 * b3
}

/// Reading back the four bytes written for `v` gives `v`.
pub proof fn lemma_read_le_u32(v: u32)
    ensures
        read_u32(le_u32(v), 0) == v,
{
    assert(v == v % 256 + 256 * ((v / 256) % 256) + 65536 * ((v / 65536) % 256) + 16777216 * (v
        / 16777216)) by (nonlinear_arith);
}

} // verus!
