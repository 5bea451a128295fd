//! Integer reads at explicit byte offsets, in a fixed byte order.

use vstd::prelude::*;

verus! {

/// The unsigned value of the two bytes at `at`, least significant first.
pub open spec fn le_u16(b: Seq<u8>, at: int) -> int {
    b[at] + b[at + 1] * 0x100
}

/// The unsigned value of the four bytes at `at`, least significant first.
pub open spec fn le_u32(b: Seq<u8>, at: int) -> int {
    le_u16(b, at) + le_u16(b, at + 2) * 0x1_0000
}

/// The unsigned value of the eight bytes at `at`, least significant first.
pub open spec fn le_u64(b: Seq<u8>, at: int) -> int {
    le_u32(b, at) + le_u32(b, at + 4) * 0x1_0000_0000
}

pub fn read_u16_le(b: &[u8], at: usize) -> (r: u16)
    requires
        at + 2 <= b@.len(),
    ensures
        r == le_u16(b@, at as int),
{
    let lo = b[at] as u16;
    let hi = b[at + 1] as u16;
    lo + hi * 0x100
}

pub fn read_u32_le(b: &[u8], at: usize) -> (r: u32)
    requires
        at + 4 <= b@.len(),
    ensures
        r == le_u32(b@, at as int),
{
    // The slice length bounds the offsets below, so they cannot overflow.
    let _len = b.len();
    let lo = read_u16_le(b, at) as u32;
    let hi = read_u16_le(b, at + 2) as u32;
    lo + hi * 0x1_0000
}

pub fn read_u64_le(b: &[u8], at: usize) -> (r: u64)
    requires
        at + 8 <= b@.len(),
    ensures
        r == le_u64(b@, at as int),
{
    // The slice length bounds the offsets below, so they cannot overflow.
    let _len = b.len();
    let lo = read_u32_le(b, at) as u64;
    let hi = read_u32_le(b, at + 4) as u64;
    lo + hi * 0x1_0000_0000
}

pub fn read_i32_le(b: &[u8], at: usize) -> (r: i32)
    requires
        at + 4 <= b@.len(),
    ensures
        r == le_u32(b@, at as int) as i32,
{
    read_u32_le(b, at) as i32
}

/// The unsigned value of the four bytes at `at`, most significant first.
pub open spec fn be_u32(b: Seq<u8>, at: int) -> int {
    b[at + 3] + b[at + 2] * 0x100 + b[at + 1] * 0x1_0000 + b[at] * 0x100_0000
}

pub fn read_u32_be(b: &[u8], at: usize) -> (r: u32)
    requires
        at + 4 <= b@.len(),
    ensures
        r == be_u32(b@, at as int),
{
    // The slice length bounds the offsets below, so they cannot overflow.
    let _len = b.len();
    (b[at + 3] as u32) + (b[at + 2] as u32) * 0x100 + (b[at + 1] as u32) * 0x1_0000 + (
    b[at] as u32) * 0x100_0000
}

} // verus!
