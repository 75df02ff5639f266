//! The section table of a PE image, read far enough to tell whether every
//! section lies inside the address space.
//!
//! A PE image says at byte 0x3c where its header stands. The header starts
//! with a signature of four bytes; then comes a part of twenty bytes that
//! holds, among other things, the number of sections and the size of the
//! part that follows; then that part; then the section table, forty bytes a
//! section. A section says where it starts in memory and how large it is
//! there, each in 32 bits, which is all an address in a PE image has.
//! Nothing in the format keeps the two from adding up to more.

use vstd::prelude::*;
use crate::entry::u32_at;

verus! {

/// The two bytes at `at` as a number, the first byte lowest.
pub open spec fn u16_at(data: Seq<u8>, at: int) -> u64 {
    (data[at] as u64) | (data[at + 1] as u64) << 8
}

/// The bytes start as a PE image does.
pub open spec fn starts_as_pe(data: Seq<u8>) -> bool {
    data.len() >= 2 && data[0] == 0x4d && data[1] == 0x5a
}

/// Where the section table of a PE image starts and how many sections it
/// counts. `None` for bytes that do not start as a PE image does, or that
/// end before the header does.
pub open spec fn section_table(data: Seq<u8>) -> Option<(int, nat)> {
    if !starts_as_pe(data) || data.len() < 0x40 {
        None
    } else if u32_at(data, 0x3c, true) + 24 > data.len() {
        None
    } else {
        Some(
            (
                u32_at(data, 0x3c, true) + 24 + u16_at(data, u32_at(data, 0x3c, true) + 20),
                u16_at(data, u32_at(data, 0x3c, true) + 6) as nat,
            ),
        )
    }
}

/// Each of `count` sections, of which the first is described at `at`, ends
/// inside the address space: its address and its size in memory add up to a
/// number of 32 bits. The table ends where the image does.
pub open spec fn sections_end_in_space(data: Seq<u8>, at: int, count: nat) -> bool
    decreases count,
{
    if count == 0 || at < 0 || at + 40 > data.len() {
        true
    } else {
        u32_at(data, at + 12, true) + u32_at(data, at + 8, true) <= u32::MAX
            && sections_end_in_space(data, at + 40, (count - 1) as nat)
    }
}

/// Every section of the image lies inside the address space, or the bytes
/// are no PE image.
pub open spec fn sections_fit_addresses(data: Seq<u8>) -> bool {
    match section_table(data) {
        None => true,
        Some((at, count)) => sections_end_in_space(data, at, count),
    }
}

/// Reads the two bytes at `at` as a number.
fn read_u16(data: &[u8], at: usize) -> (value: u64)
    requires
        at + 2 <= data.len(),
    ensures
        value == u16_at(data@, at as int),
        value <= 0xffff,
{
    let low: u8 = data[at];
    let high: u8 = data[at + 1];
    assert((low as u64) | (high as u64) << 8 <= 0xffff) by (bit_vector);
    (low as u64) | (high as u64) << 8
}

/// Reads the four bytes at `at` as a number, the first byte lowest.
fn read_u32(data: &[u8], at: usize) -> (value: u64)
    requires
        at + 4 <= data.len(),
    ensures
        value == u32_at(data@, at as int, true),
        value <= u32::MAX,
{
    let a: u8 = data[at];
    let b: u8 = data[at + 1];
    let c: u8 = data[at + 2];
    let d: u8 = data[at + 3];
    assert((a as u64) | (b as u64) << 8 | (c as u64) << 16 | (d as u64) << 24 <= 0xffff_ffff)
        by (bit_vector);
    (a as u64) | (b as u64) << 8 | (c as u64) << 16 | (d as u64) << 24
}

/// Whether every section of the image `data` lies inside the address space.
pub fn sections_are_in_space(data: &[u8]) -> (fit: bool)
    ensures
        fit == sections_fit_addresses(data@),
{
    if data.len() < 0x40 || data[0] != 0x4d || data[1] != 0x5a {
        return true;
    }
    let header: u64 = read_u32(data, 0x3c);
    if header + 24 > data.len() as u64 {
        return true;
    }
    let header: usize = header as usize;
    let optional: u64 = read_u16(data, header + 20);
    let count: u64 = read_u16(data, header + 6);
    let mut at: u64 = header as u64 + 24 + optional;
    let mut left: u64 = count;
    while left > 0
        invariant
            left <= 0xffff,
            at + 40 * left <= 0x1_0000_0000 + 24 + 0xffff + 40 * 0xffff,
            sections_fit_addresses(data@) == sections_end_in_space(
                data@,
                at as int,
                left as nat,
            ),
        decreases left,
    {
        if at + 40 > data.len() as u64 {
            return true;
        }
        let section: usize = at as usize;
        let address: u64 = read_u32(data, section + 12);
        let size: u64 = read_u32(data, section + 8);
        if address + size > 0xffff_ffff {
            return false;
        }
        at = at + 40;
        left = left - 1;
    }
    true
}

} // verus!
