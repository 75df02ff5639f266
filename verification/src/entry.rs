//! The entry point of a Mach-O image, read far enough to tell whether its
//! address can be computed.
//!
//! A Mach-O image starts with a header, which says how its numbers are laid
//! out and how many load commands follow, and then holds those commands one
//! behind the other, each with its kind and its size in front. A command of
//! the kind `LC_MAIN` gives the entry point as an offset into the file. To
//! make an address of it, the reader takes the first segment named `__TEXT`,
//! takes that segment's offset in the file from its address in memory, and
//! adds the entry offset. Nothing in the format keeps the segment's offset
//! below its address, or the sum within 64 bits.

use vstd::prelude::*;

verus! {

/// The kind of a load command that describes a segment of a 32-bit image.
pub const LC_SEGMENT: u64 = 0x1;

/// The kind of a load command that describes a segment of a 64-bit image.
pub const LC_SEGMENT_64: u64 = 0x19;

/// The kind of a load command that gives the entry point.
pub const LC_MAIN: u64 = 0x8000_0028;

/// The four bytes at `at` as a number, the first byte lowest if `little`.
pub open spec fn u32_at(data: Seq<u8>, at: int, little: bool) -> u64 {
    if little {
        (data[at] as u64) | (data[at + 1] as u64) << 8 | (data[at + 2] as u64) << 16 | (data[at
            + 3] as u64) << 24
    } else {
        (data[at + 3] as u64) | (data[at + 2] as u64) << 8 | (data[at + 1] as u64) << 16 | (data[at] as u64)
            << 24
    }
}

/// The eight bytes at `at` as a number, the first byte lowest if `little`.
pub open spec fn u64_at(data: Seq<u8>, at: int, little: bool) -> u64 {
    if little {
        u32_at(data, at, true) | u32_at(data, at + 4, true) << 32
    } else {
        u32_at(data, at + 4, false) | u32_at(data, at, false) << 32
    }
}

/// How the numbers of a Mach-O image are laid out, by its first four bytes:
/// whether the first byte is the lowest, and whether the image is a 64-bit
/// one. `None` for bytes that do not start as a Mach-O image of one
/// architecture does.
pub open spec fn macho_layout(data: Seq<u8>) -> Option<(bool, bool)> {
    if data.len() < 4 {
        None
    } else if u32_at(data, 0, false) == 0xfeed_face {
        Some((false, false))
    } else if u32_at(data, 0, false) == 0xcefa_edfe {
        Some((true, false))
    } else if u32_at(data, 0, false) == 0xfeed_facf {
        Some((false, true))
    } else if u32_at(data, 0, false) == 0xcffa_edfe {
        Some((true, true))
    } else {
        None
    }
}

/// The segment command at `at` names its segment `__TEXT`.
pub open spec fn names_text_segment(data: Seq<u8>, at: int) -> bool {
    &&& data[at + 8] == 0x5f
    &&& data[at + 9] == 0x5f
    &&& data[at + 10] == 0x54
    &&& data[at + 11] == 0x45
    &&& data[at + 12] == 0x58
    &&& data[at + 13] == 0x54
    &&& data[at + 14] == 0
}

/// The address in memory and the offset in the file of the segment that the
/// command at `at` describes, if the command is of kind `cmd`, describes a
/// segment named `__TEXT`, and lies inside the image.
pub open spec fn text_segment_at(data: Seq<u8>, little: bool, at: int, cmd: u64) -> Option<
    (u64, u64),
> {
    if cmd == LC_SEGMENT_64 && at + 72 <= data.len() && names_text_segment(data, at) {
        Some((u64_at(data, at + 24, little), u64_at(data, at + 40, little)))
    } else if cmd == LC_SEGMENT && at + 56 <= data.len() && names_text_segment(data, at) {
        Some((u32_at(data, at + 24, little), u32_at(data, at + 32, little)))
    } else {
        None
    }
}

/// The entry offset that the command at `at` gives, if the command is of
/// kind `cmd`, gives one, and lies inside the image.
pub open spec fn entry_offset_at(data: Seq<u8>, little: bool, at: int, cmd: u64) -> Option<u64> {
    if cmd == LC_MAIN && at + 24 <= data.len() {
        Some(u64_at(data, at + 8, little))
    } else {
        None
    }
}

/// The first of two finds, if there is one, and else the second.
pub open spec fn first_of<T>(first: Option<T>, second: Option<T>) -> Option<T> {
    match first {
        Some(found) => Some(found),
        None => second,
    }
}

/// The first entry offset and the first `__TEXT` segment among `count` load
/// commands of which the first starts at `at`, given what was found before
/// them. The search ends where the commands do, or where a command does not
/// lie inside the image.
pub open spec fn entry_parts(
    data: Seq<u8>,
    little: bool,
    at: int,
    count: nat,
    entry: Option<u64>,
    text: Option<(u64, u64)>,
) -> (Option<u64>, Option<(u64, u64)>)
    decreases count,
{
    if count == 0 || at < 0 || at + 8 > data.len() {
        (entry, text)
    } else if u32_at(data, at + 4, little) > data.len() - at {
        (entry, text)
    } else {
        entry_parts(
            data,
            little,
            at + u32_at(data, at + 4, little),
            (count - 1) as nat,
            first_of(entry, entry_offset_at(data, little, at, u32_at(data, at, little))),
            first_of(text, text_segment_at(data, little, at, u32_at(data, at, little))),
        )
    }
}

/// The entry offset and the `__TEXT` segment that the address of the entry
/// point is computed from, for an image that is laid out as `little` and
/// `wide` say. Either is `None` where the image has none, or where its
/// header cannot be read or counts more commands than it has room for.
pub open spec fn entry_parts_of(data: Seq<u8>, little: bool) -> (
    Option<u64>,
    Option<(u64, u64)>,
) {
    if data.len() < 32 {
        (None, None)
    } else if u32_at(data, 16, little) > u32_at(data, 20, little) / 8 || u32_at(data, 20, little)
        > data.len() {
        (None, None)
    } else {
        entry_parts(
            data,
            little,
            if macho_layout(data) matches Some((_, true)) {
                32
            } else {
                28
            },
            u32_at(data, 16, little) as nat,
            None,
            None,
        )
    }
}

/// The address of the entry point can be computed: the bytes are no Mach-O
/// image of one architecture, or the image gives no entry offset or has no
/// `__TEXT` segment, or the segment's address in memory is not below its
/// offset in the file and what lies between them, with the entry offset
/// added, is a number of 64 bits.
pub open spec fn entry_is_computable(data: Seq<u8>) -> bool {
    match macho_layout(data) {
        None => true,
        Some((little, wide)) => match entry_parts_of(data, little) {
            (Some(offset), Some((address, file_offset))) => address >= file_offset && address
                - file_offset + offset <= u64::MAX,
            _ => true,
        },
    }
}

/// Reads the four bytes at `at` as a number.
fn read_u32(data: &[u8], at: usize, little: bool) -> (value: u64)
    requires
        at + 4 <= data.len(),
    ensures
        value == u32_at(data@, at as int, little),
{
    if little {
        (data[at] as u64) | (data[at + 1] as u64) << 8 | (data[at + 2] as u64) << 16 | (data[at
            + 3] as u64) << 24
    } else {
        (data[at + 3] as u64) | (data[at + 2] as u64) << 8 | (data[at + 1] as u64) << 16 | (data[at] as u64)
            << 24
    }
}

/// Reads the eight bytes at `at` as a number.
fn read_u64(data: &[u8], at: usize, little: bool) -> (value: u64)
    requires
        at + 8 <= data.len(),
    ensures
        value == u64_at(data@, at as int, little),
{
    if little {
        read_u32(data, at, true) | read_u32(data, at + 4, true) << 32
    } else {
        read_u32(data, at + 4, false) | read_u32(data, at, false) << 32
    }
}

/// Reads how the numbers of the image are laid out.
fn read_layout(data: &[u8]) -> (layout: Option<(bool, bool)>)
    ensures
        layout == macho_layout(data@),
{
    if data.len() < 4 {
        return None;
    }
    let magic: u64 = read_u32(data, 0, false);
    if magic == 0xfeed_face {
        Some((false, false))
    } else if magic == 0xcefa_edfe {
        Some((true, false))
    } else if magic == 0xfeed_facf {
        Some((false, true))
    } else if magic == 0xcffa_edfe {
        Some((true, true))
    } else {
        None
    }
}

/// Whether the segment command at `at` names its segment `__TEXT`.
fn is_text_segment(data: &[u8], at: usize) -> (named: bool)
    requires
        at + 15 <= data.len(),
    ensures
        named == names_text_segment(data@, at as int),
{
    data[at + 8] == 0x5f && data[at + 9] == 0x5f && data[at + 10] == 0x54 && data[at + 11] == 0x45
        && data[at + 12] == 0x58 && data[at + 13] == 0x54 && data[at + 14] == 0
}

/// Reads the `__TEXT` segment that the command at `at` describes, if it does.
fn read_text_segment(data: &[u8], little: bool, at: usize, cmd: u64) -> (segment: Option<
    (u64, u64),
>)
    requires
        at <= data.len(),
    ensures
        segment == text_segment_at(data@, little, at as int, cmd),
{
    let room: usize = data.len() - at;
    if cmd == LC_SEGMENT_64 && room >= 72 && is_text_segment(data, at) {
        Some((read_u64(data, at + 24, little), read_u64(data, at + 40, little)))
    } else if cmd == LC_SEGMENT && room >= 56 && is_text_segment(data, at) {
        Some((read_u32(data, at + 24, little), read_u32(data, at + 32, little)))
    } else {
        None
    }
}

/// Reads the entry offset that the command at `at` gives, if it does.
fn read_entry_offset(data: &[u8], little: bool, at: usize, cmd: u64) -> (offset: Option<u64>)
    requires
        at <= data.len(),
    ensures
        offset == entry_offset_at(data@, little, at as int, cmd),
{
    if cmd == LC_MAIN && data.len() - at >= 24 {
        Some(read_u64(data, at + 8, little))
    } else {
        None
    }
}

/// Finds the entry offset and the `__TEXT` segment of the image.
fn read_entry_parts(data: &[u8], little: bool, wide: bool) -> (parts: (
    Option<u64>,
    Option<(u64, u64)>,
))
    requires
        macho_layout(data@) == Some((little, wide)),
    ensures
        parts == entry_parts_of(data@, little),
{
    if data.len() < 32 {
        return (None, None);
    }
    let ncmds: u64 = read_u32(data, 16, little);
    let sizeofcmds: u64 = read_u32(data, 20, little);
    if ncmds > sizeofcmds / 8 || sizeofcmds > data.len() as u64 {
        return (None, None);
    }
    let mut at: usize = if wide {
        32
    } else {
        28
    };
    let mut left: u64 = ncmds;
    let mut entry: Option<u64> = None;
    let mut text: Option<(u64, u64)> = None;
    let ghost whole = entry_parts(data@, little, at as int, ncmds as nat, None, None);
    while left > 0
        invariant
            at <= data.len(),
            whole == entry_parts_of(data@, little),
            whole == entry_parts(data@, little, at as int, left as nat, entry, text),
        decreases left,
    {
        if data.len() - at < 8 {
            return (entry, text);
        }
        let cmd: u64 = read_u32(data, at, little);
        let size: u64 = read_u32(data, at + 4, little);
        if size > (data.len() - at) as u64 {
            return (entry, text);
        }
        if entry.is_none() {
            entry = read_entry_offset(data, little, at, cmd);
        }
        if text.is_none() {
            text = read_text_segment(data, little, at, cmd);
        }
        at = at + size as usize;
        left = left - 1;
    }
    (entry, text)
}

/// Whether the address of the entry point of the image `data` can be
/// computed.
pub fn entry_can_be_computed(data: &[u8]) -> (computable: bool)
    ensures
        computable == entry_is_computable(data@),
{
    match read_layout(data) {
        None => true,
        Some((little, wide)) => match read_entry_parts(data, little, wide) {
            (Some(offset), Some((address, file_offset))) => address >= file_offset && offset
                <= u64::MAX - (address - file_offset),
            _ => true,
        },
    }
}

} // verus!
