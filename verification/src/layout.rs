//! Reading fields out of the packed little-endian buffers in which the
//! runtime delivers its results.

use vstd::prelude::*;

verus! {

/// The 32-bit value whose four bytes, lowest first, start at `at`.
pub open spec fn le_u32(bytes: Seq<u8>, at: int) -> u32
    recommends
        0 <= at,
        at + 4 <= bytes.len(),
{
    (bytes[at] as int + bytes[at + 1] as int * 0x100 + bytes[at + 2] as int * 0x1_0000 + bytes[at
        + 3] as int * 0x100_0000) as u32
}

/// The 64-bit value whose eight bytes, lowest first, start at `at`.
pub open spec fn le_u64(bytes: Seq<u8>, at: int) -> u64
    recommends
        0 <= at,
        at + 8 <= bytes.len(),
{
    (le_u32(bytes, at) as int + le_u32(bytes, at + 4) as int * 0x1_0000_0000) as u64
}

/// The flag held in the byte at `at`: set unless the byte is zero.
pub open spec fn flag(bytes: Seq<u8>, at: int) -> bool
    recommends
        0 <= at < bytes.len(),
{
    bytes[at] != 0
}

/// Reads the 32-bit field that starts at `at`.
pub fn read_u32(bytes: &[u8], at: usize) -> (value: u32)
    requires
        at + 4 <= bytes.len(),
    ensures
        value == le_u32(bytes@, at as int),
{
    let b0: u32 = bytes[at] as u32;
    let b1: u32 = bytes[at + 1] as u32;
    let b2: u32 = bytes[at + 2] as u32;
    let b3: u32 = bytes[at + 3] as u32;
    b0 + b1 * 0x100 + b2 * 0x1_0000 + b3 * 0x100_0000
}

/// Reads the 64-bit field that starts at `at`.
pub fn read_u64(bytes: &[u8], at: usize) -> (value: u64)
    requires
        at + 8 <= bytes.len(),
    ensures
        value == le_u64(bytes@, at as int),
{
    let low: u64 = read_u32(bytes, at) as u64;
    let high: u64 = read_u32(bytes, at + 4) as u64;
    low + high * 0x1_0000_0000
}

/// Reads the flag held in the byte at `at`.
pub fn read_flag(bytes: &[u8], at: usize) -> (set: bool)
    requires
        at < bytes.len(),
    ensures
        set == flag(bytes@, at as int),
{
    bytes[at] != 0
}

} // verus!
