//! Byte layout of the foreign records.
//!
//! Every record is a fixed number of bytes; its fields sit at fixed offsets,
//! integers little-endian, addresses eight bytes wide. Bytes between fields
//! are padding and are ignored.

use vstd::prelude::*;
use crate::address::ForeignAddress;

verus! {

/// The unsigned 32-bit integer whose little-endian bytes start at `at`.
pub open spec fn le_u32(bytes: Seq<u8>, at: int) -> u32 {
    (bytes[at] + 0x100 * bytes[at + 1] + 0x1_0000 * bytes[at + 2] + 0x100_0000 * bytes[at + 3]) as u32
}

/// The unsigned 64-bit integer whose little-endian bytes start at `at`.
pub open spec fn le_u64(bytes: Seq<u8>, at: int) -> u64 {
    (le_u32(bytes, at) + 0x1_0000_0000 * le_u32(bytes, at + 4)) as u64
}

/// The signed 32-bit integer, in two's complement, whose little-endian bytes
/// start at `at`.
pub open spec fn le_i32(bytes: Seq<u8>, at: int) -> i32 {
    if le_u32(bytes, at) < 0x8000_0000 {
        le_u32(bytes, at) as i32
    } else {
        (le_u32(bytes, at) - 0x1_0000_0000) as i32
    }
}

/// The address whose eight bytes start at `at`.
pub open spec fn le_address(bytes: Seq<u8>, at: int) -> ForeignAddress {
    ForeignAddress(le_u64(bytes, at))
}

/// Reads the unsigned 32-bit integer whose bytes start at `at`.
pub fn u32_at(bytes: &[u8], at: usize) -> (r: u32)
    requires
        at + 4 <= bytes.len(),
    ensures
        r == le_u32(bytes@, at as int),
{
    let b0: u32 = bytes[at] as u32;
    let b1: u32 = bytes[at + 1] as u32;
    let b2: u32 = bytes[at + 2] as u32;
    let b3: u32 = bytes[at + 3] as u32;
    b0 + 0x100 * b1 + 0x1_0000 * b2 + 0x100_0000 * b3
}

/// Reads the unsigned 64-bit integer whose bytes start at `at`.
pub fn u64_at(bytes: &[u8], at: usize) -> (r: u64)
    requires
        at + 8 <= bytes.len(),
    ensures
        r == le_u64(bytes@, at as int),
{
    let low: u64 = u32_at(bytes, at) as u64;
    let high: u64 = u32_at(bytes, at + 4) as u64;
    low + 0x1_0000_0000 * high
}

/// Reads the signed 32-bit integer whose bytes start at `at`.
pub fn i32_at(bytes: &[u8], at: usize) -> (r: i32)
    requires
        at + 4 <= bytes.len(),
    ensures
        r == le_i32(bytes@, at as int),
{
    let raw: u32 = u32_at(bytes, at);
    if raw < 0x8000_0000 {
        raw as i32
    } else {
        let low: i32 = (raw - 0x8000_0000) as i32;
        low + i32::MIN
    }
}

/// Reads the address whose bytes start at `at`.
pub fn address_at(bytes: &[u8], at: usize) -> (r: ForeignAddress)
    requires
        at + 8 <= bytes.len(),
    ensures
        r == le_address(bytes@, at as int),
{
    ForeignAddress(u64_at(bytes, at))
}

/// A foreign record of fixed size and layout.
pub trait FixedLayout: Sized {
    /// Number of bytes that one record occupies.
    spec fn spec_size() -> nat;

    /// The record whose bytes start at `at`.
    spec fn spec_decode(bytes: Seq<u8>, at: int) -> Self;

    /// Number of bytes that one record occupies.
    fn size() -> (r: usize)
        ensures
            r == Self::spec_size(),
    ;

    /// Decodes the record whose bytes start at `at`.
    fn decode(bytes: &[u8], at: usize) -> (r: Self)
        requires
            at + Self::spec_size() <= bytes.len(),
        ensures
            r == Self::spec_decode(bytes@, at as int),
    ;
}

impl FixedLayout for u64 {
    open spec fn spec_size() -> nat {
        8
    }

    open spec fn spec_decode(bytes: Seq<u8>, at: int) -> u64 {
        le_u64(bytes, at)
    }

    fn size() -> (r: usize) {
        8
    }

    fn decode(bytes: &[u8], at: usize) -> (r: u64) {
        u64_at(bytes, at)
    }
}

} // verus!
