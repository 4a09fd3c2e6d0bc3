//! Little-endian numbers in the records that the firmware fills.

use vstd::prelude::*;

verus! {

/// The 16-bit little-endian number at offset `at`.
pub open spec fn le16(bytes: Seq<u8>, at: int) -> u16 {
    (bytes[at] as u16) | ((bytes[at + 1] as u16) << 8)
}

/// The 32-bit little-endian number at offset `at`.
pub open spec fn le32(bytes: Seq<u8>, at: int) -> u32 {
    (bytes[at] as u32) | ((bytes[at + 1] as u32) << 8) | ((bytes[at + 2] as u32) << 16) | ((bytes[at
        + 3] as u32) << 24)
}

/// Reads the 16-bit little-endian number at offset `at`.
pub(crate) fn read16(bytes: &[u8], at: usize) -> (r: u16)
    requires
        at + 2 <= bytes@.len(),
    ensures
        r == le16(bytes@, at as int),
{
    (bytes[at] as u16) | ((bytes[at + 1] as u16) << 8)
}

/// Reads the 32-bit little-endian number at offset `at`.
pub(crate) fn read32(bytes: &[u8], at: usize) -> (r: u32)
    requires
        at + 4 <= bytes@.len(),
    ensures
        r == le32(bytes@, at as int),
{
    (bytes[at] as u32) | ((bytes[at + 1] as u32) << 8) | ((bytes[at + 2] as u32) << 16) | ((bytes[at
        + 3] as u32) << 24)
}

/// The 64-bit little-endian number at offset `at`.
pub open spec fn le64(bytes: Seq<u8>, at: int) -> u64 {
    (le32(bytes, at) as u64) | ((le32(bytes, at + 4) as u64) << 32)
}

/// Reads the 64-bit little-endian number at offset `at`.
pub(crate) fn read64(bytes: &[u8], at: usize) -> (r: u64)
    requires
        at + 8 <= bytes@.len(),
    ensures
        r == le64(bytes@, at as int),
{
    let low: u32 = read32(bytes, at);
    let len: usize = bytes.len();
    let high: u32 = read32(bytes, at + 4);
    (low as u64) | ((high as u64) << 32)
}

} // verus!
