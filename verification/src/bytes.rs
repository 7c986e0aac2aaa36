//! Fixed-offset integer and tag reads on a byte sequence.
//!
//! The spec functions give the mathematical value of a multi-byte field; the
//! executable readers compute it from a slice and are proved against them.

use vstd::prelude::*;

verus! {

/// Big-endian 16-bit value stored at `at`.
pub open spec fn be_u16(s: Seq<u8>, at: int) -> int {
    s[at] * 0x100 + s[at + 1]
}

/// Big-endian 32-bit value stored at `at`.
pub open spec fn be_u32(s: Seq<u8>, at: int) -> int {
    s[at] * 0x100_0000 + s[at + 1] * 0x1_0000 + s[at + 2] * 0x100 + s[at + 3]
}

/// Big-endian 64-bit value stored at `at`.
pub open spec fn be_u64(s: Seq<u8>, at: int) -> int {
    be_u32(s, at) * 0x1_0000_0000 + be_u32(s, at + 4)
}

/// Little-endian 16-bit value stored at `at`.
pub open spec fn le_u16(s: Seq<u8>, at: int) -> int {
    s[at] + s[at + 1] * 0x100
}

/// Little-endian 24-bit value stored at `at`.
pub open spec fn le_u24(s: Seq<u8>, at: int) -> int {
    s[at] + s[at + 1] * 0x100 + s[at + 2] * 0x1_0000
}

/// Little-endian 32-bit value stored at `at`.
pub open spec fn le_u32(s: Seq<u8>, at: int) -> int {
    s[at] + s[at + 1] * 0x100 + s[at + 2] * 0x1_0000 + s[at + 3] * 0x100_0000
}

/// The four bytes `a b c d` stand at offset `at`, wholly inside `s`.
pub open spec fn fourcc_at(s: Seq<u8>, at: int, a: u8, b: u8, c: u8, d: u8) -> bool {
    &&& 0 <= at
    &&& at + 4 <= s.len()
    &&& s[at] == a
    &&& s[at + 1] == b
    &&& s[at + 2] == c
    &&& s[at + 3] == d
}

pub(crate) fn read_be_u16(data: &[u8], at: usize) -> (v: u16)
    requires
        at + 2 <= data.len(),
    ensures
        v == be_u16(data@, at as int),
{
    let hi: u16 = data[at] as u16;
    let lo: u16 = data[at + 1] as u16;
    hi * 0x100 + lo
}

pub(crate) fn read_be_u32(data: &[u8], at: usize) -> (v: u32)
    requires
        at + 4 <= data.len(),
    ensures
        v == be_u32(data@, at as int),
{
    let b0: u32 = data[at] as u32;
    let b1: u32 = data[at + 1] as u32;
    let b2: u32 = data[at + 2] as u32;
    let b3: u32 = data[at + 3] as u32;
    b0 * 0x100_0000 + b1 * 0x1_0000 + b2 * 0x100 + b3
}

pub(crate) fn read_be_u64(data: &[u8], at: usize) -> (v: u64)
    requires
        at + 8 <= data.len(),
    ensures
        v == be_u64(data@, at as int),
{
    let hi: u64 = read_be_u32(data, at) as u64;
    let lo: u64 = read_be_u32(data, at + 4) as u64;
    hi * 0x1_0000_0000 + lo
}

pub(crate) fn read_le_u16(data: &[u8], at: usize) -> (v: u16)
    requires
        at + 2 <= data.len(),
    ensures
        v == le_u16(data@, at as int),
{
    let lo: u16 = data[at] as u16;
    let hi: u16 = data[at + 1] as u16;
    lo + hi * 0x100
}

pub(crate) fn read_le_u24(data: &[u8], at: usize) -> (v: u32)
    requires
        at + 3 <= data.len(),
    ensures
        v == le_u24(data@, at as int),
        v < 0x100_0000,
{
    let b0: u32 = data[at] as u32;
    let b1: u32 = data[at + 1] as u32;
    let b2: u32 = data[at + 2] as u32;
    b0 + b1 * 0x100 + b2 * 0x1_0000
}

pub(crate) fn read_le_u32(data: &[u8], at: usize) -> (v: u32)
    requires
        at + 4 <= data.len(),
    ensures
        v == le_u32(data@, at as int),
{
    let b0: u32 = data[at] as u32;
    let b1: u32 = data[at + 1] as u32;
    let b2: u32 = data[at + 2] as u32;
    let b3: u32 = data[at + 3] as u32;
    b0 + b1 * 0x100 + b2 * 0x1_0000 + b3 * 0x100_0000
}

/// Whether the four bytes `a b c d` stand at offset `at`; false when the
/// slice ends before `at + 4`.
pub(crate) fn has_fourcc(data: &[u8], at: usize, a: u8, b: u8, c: u8, d: u8) -> (r: bool)
    ensures
        r == fourcc_at(data@, at as int, a, b, c, d),
{
    if data.len() < 4 || at > data.len() - 4 {
        return false;
    }
    data[at] == a && data[at + 1] == b && data[at + 2] == c && data[at + 3] == d
}

} // verus!
