//! The export trie of a Mach-O image, read far enough to tell whether a
//! walk of it comes to an end.
//!
//! A trie is a run of bytes inside the image. A node starts with the size of
//! its export information, which is zero for a node that exports nothing;
//! then comes that information, then the number of branches, then for each
//! branch a label that ends with a zero byte and the place of the node it
//! leads to, counted from the start of the trie. Numbers are in ULEB128.
//! Nothing in the format keeps a branch from leading back to where it came
//! from, or a re-export from naming a library that is not there.
//!
//! A reader that walks the trie by calling itself for every node, and that
//! spells out the name of every node it comes to, needs stack for as deep as
//! the trie goes and memory for all the names. Two limits, below, say how
//! much of each a walk may take; they are set by the machine and not by the
//! format.

use vstd::prelude::*;

verus! {

/// How many nodes deep a walk may go.
///
/// The limit is the stack. A level of the walk that `goblin` makes takes
/// two call frames, of `walk_trie` and of `walk_nodes`, with the name so
/// far, the list of branches and the export information among their locals.
/// Built without optimisation they take about 2.3 KiB together: a walk 900
/// levels deep fits a stack of 2 MiB, and one of 1000 levels does not. The
/// smallest stack that a thread commonly has is 1 MiB. At 256 levels the
/// walk takes 590 KiB of it, which leaves 430 KiB to whoever calls.
pub const MAX_TRIE_DEPTH: usize = 256;

/// How many bytes a walk is counted to take for a node, the name aside: an
/// entry in the list of its parent's branches, which is a string and a
/// place, and an export with its name and information, at the sizes these
/// have on a machine of 64 bits, rounded up.
pub const NODE_BYTES: u64 = 128;

/// How many bytes a walk may take in all.
///
/// The limit is the memory. For every node it comes to, a walk holds the
/// node's name once as the key of the branch and, where the node exports,
/// once more in the export; that and `NODE_BYTES` is what the node is
/// counted to take. What a walk has taken in all is never less than what it
/// holds at once. The most that any machine this code runs on lets a
/// program hold in one piece is `isize::MAX` bytes, and on the narrowest of
/// them that is 2^31 - 1: a walk that is counted to take more than that
/// could not be held there.
pub const MAX_WALK_BYTES: u64 = 0x7fff_ffff;

/// What a walk is counted to take for a node whose name is `prefix` bytes
/// long.
pub open spec fn node_cost(prefix: nat) -> nat {
    (NODE_BYTES + 2 * prefix) as nat
}

/// The ULEB128 number of which the bytes before `at` gave `acc`, with
/// `shift` bits read so far: its value and the place behind it. There is
/// none where the bytes run out, or where the tenth byte holds more than one
/// bit.
pub open spec fn uleb_from(data: Seq<u8>, at: int, shift: u64, acc: u64) -> Option<(u64, int)>
    decreases 70 - shift,
{
    if shift > 63 || at < 0 || at >= data.len() {
        None
    } else if shift == 63 && data[at] != 0 && data[at] != 1 {
        None
    } else {
        let value = acc | (((data[at] & 0x7f) as u64) << shift);
        if data[at] & 0x80 == 0 {
            Some((value, at + 1))
        } else {
            uleb_from(data, at + 1, (shift + 7) as u64, value)
        }
    }
}

/// The ULEB128 number at `at`: its value and the place behind it.
pub open spec fn uleb_at(data: Seq<u8>, at: int) -> Option<(u64, int)> {
    uleb_from(data, at, 0, 0)
}

/// Where the label that starts at `at` ends: at the first zero byte, or at
/// the end of the data.
pub open spec fn label_end(data: Seq<u8>, at: int) -> int
    decreases data.len() - at,
{
    if at < 0 || at >= data.len() {
        data.len() as int
    } else if data[at] == 0 {
        at
    } else {
        label_end(data, at + 1)
    }
}

/// The flags say that the symbol is exported again from another library.
pub open spec fn is_reexport(flags: u64) -> bool {
    flags & 0x03 != 0x03 && flags & 0x08 != 0
}

/// The flags say that the symbol has a stub and a resolver.
pub open spec fn is_stub(flags: u64) -> bool {
    flags & 0x03 == 0 && flags & 0x08 == 0 && flags & 0x10 != 0
}

/// The export information at `at` can be read: its numbers are there, and
/// a re-export names one of the `libs` libraries.
pub open spec fn info_ok(data: Seq<u8>, libs: int, flags: u64, at: int) -> bool {
    match uleb_at(data, at) {
        None => false,
        Some((first, next)) => if is_reexport(flags) {
            first < libs
        } else if is_stub(flags) {
            uleb_at(data, next) is Some
        } else {
            true
        },
    }
}

/// Walks the node at `node` and all below it, in a trie that lies from
/// `start` to `end`. The labels on the way to the node are `prefix` bytes
/// long together. The walk may go `depth` nodes deep and take `budget`
/// bytes in all, of which each node it comes to takes `node_cost`. The
/// result is what is left of the budget, or `None` where the walk runs out
/// of either, leaves the trie, or meets something it cannot read.
pub open spec fn node_ok(
    data: Seq<u8>,
    start: int,
    end: int,
    libs: int,
    node: int,
    prefix: nat,
    depth: nat,
    budget: nat,
) -> Option<nat>
    decreases depth, 0nat,
{
    if depth == 0 || budget < node_cost(prefix) || node < start || node >= end {
        None
    } else {
        match uleb_at(data, node) {
            None => None,
            Some((terminal, after)) => if terminal == 0 {
                match uleb_at(data, after) {
                    None => None,
                    Some((count, first)) => branches_ok(
                        data,
                        start,
                        end,
                        libs,
                        first,
                        count,
                        prefix,
                        (depth - 1) as nat,
                        (budget - node_cost(prefix)) as nat,
                    ),
                }
            } else if after + terminal >= data.len() {
                None
            } else {
                match (uleb_at(data, after + terminal), uleb_at(data, after)) {
                    (Some((count, first)), Some((flags, info))) => if info_ok(
                        data,
                        libs,
                        flags,
                        info,
                    ) {
                        branches_ok(
                            data,
                            start,
                            end,
                            libs,
                            first,
                            count,
                            prefix,
                            (depth - 1) as nat,
                            (budget - node_cost(prefix)) as nat,
                        )
                    } else {
                        None
                    },
                    _ => None,
                }
            },
        }
    }
}

/// Walks `count` branches of a node whose name is `prefix` bytes long. The
/// first label starts at `at`; each branch is walked with the node it leads
/// to, one after the other.
pub open spec fn branches_ok(
    data: Seq<u8>,
    start: int,
    end: int,
    libs: int,
    at: int,
    count: u64,
    prefix: nat,
    depth: nat,
    budget: nat,
) -> Option<nat>
    decreases depth, count + 1,
{
    if count == 0 {
        Some(budget)
    } else if at < 0 || at > data.len() {
        None
    } else {
        match uleb_at(data, label_end(data, at) + 1) {
            None => None,
            Some((child, next)) => if child >= end - start {
                None
            } else {
                match node_ok(
                    data,
                    start,
                    end,
                    libs,
                    start + child,
                    (prefix + label_end(data, at) - at) as nat,
                    depth,
                    budget,
                ) {
                    None => None,
                    Some(rest) => branches_ok(
                        data,
                        start,
                        end,
                        libs,
                        next,
                        (count - 1) as u64,
                        prefix,
                        depth,
                        rest,
                    ),
                }
            },
        }
    }
}

/// The last of `commands` that names a trie: where it starts and how long
/// it is.
pub open spec fn last_trie_command(commands: Seq<Option<(u32, u32)>>) -> Option<(u32, u32)>
    decreases commands.len(),
{
    if commands.len() == 0 {
        None
    } else {
        match commands.last() {
            Some(range) => Some(range),
            None => last_trie_command(commands.drop_last()),
        }
    }
}

/// Where the trie lies in an image of `len` bytes: from the first to the
/// second of the pair. A trie that no command names, or that does not lie
/// inside the image, is empty.
pub open spec fn trie_location(commands: Seq<Option<(u32, u32)>>, len: int) -> (int, int) {
    match last_trie_command(commands) {
        None => (0, 0),
        Some((offset, size)) => if offset + size <= len {
            (offset as int, offset + size)
        } else {
            (0, 0)
        },
    }
}

/// The image's export trie can be walked: the trie is empty, or a walk from
/// its first node comes to an end inside the trie, can read all that it
/// meets, and needs no more stack than `MAX_TRIE_DEPTH` levels and no more
/// memory than `MAX_WALK_BYTES`.
pub open spec fn trie_is_walkable(
    data: Seq<u8>,
    commands: Seq<Option<(u32, u32)>>,
    libs: int,
) -> bool {
    let (start, end) = trie_location(commands, data.len() as int);
    start >= end || node_ok(
        data,
        start,
        end,
        libs,
        start,
        0,
        MAX_TRIE_DEPTH as nat,
        MAX_WALK_BYTES as nat,
    ) is Some
}

/// What is left of a budget, as a number.
pub open spec fn budget_left(left: Option<u64>) -> Option<nat> {
    match left {
        Some(budget) => Some(budget as nat),
        None => None,
    }
}

/// Reads the ULEB128 number at `at`.
fn read_uleb(data: &[u8], at: usize) -> (r: Option<(u64, usize)>)
    ensures
        match r {
            Some((value, next)) => uleb_at(data@, at as int) == Some((value, next as int)) && at
                < next <= data.len(),
            None => uleb_at(data@, at as int) is None,
        },
{
    let mut pos: usize = at;
    let mut shift: u64 = 0;
    let mut acc: u64 = 0;
    loop
        invariant
            at <= pos,
            shift <= 63,
            shift % 7 == 0,
            uleb_at(data@, at as int) == uleb_from(data@, pos as int, shift, acc),
        decreases 70 - shift,
    {
        if pos >= data.len() {
            return None;
        }
        let byte: u8 = data[pos];
        if shift == 63 && byte != 0 && byte != 1 {
            return None;
        }
        let value: u64 = acc | (((byte & 0x7f) as u64) << shift);
        if byte & 0x80 == 0 {
            return Some((value, pos + 1));
        }
        assert(shift != 63) by {
            assert(0u8 & 0x80 == 0 && 1u8 & 0x80 == 0) by (bit_vector);
        }
        pos += 1;
        shift += 7;
        acc = value;
    }
}

/// Finds where the label that starts at `at` ends.
fn find_label_end(data: &[u8], at: usize) -> (end: usize)
    requires
        at <= data.len(),
    ensures
        end == label_end(data@, at as int),
        at <= end <= data.len(),
{
    let mut pos: usize = at;
    while pos < data.len() && data[pos] != 0
        invariant
            at <= pos <= data.len(),
            label_end(data@, at as int) == label_end(data@, pos as int),
        decreases data.len() - pos,
    {
        pos += 1;
    }
    pos
}

/// Whether the export information at `at` can be read.
fn check_info(data: &[u8], libs: usize, flags: u64, at: usize) -> (ok: bool)
    ensures
        ok == info_ok(data@, libs as int, flags, at as int),
{
    match read_uleb(data, at) {
        None => false,
        Some((first, next)) => {
            if flags & 0x03 != 0x03 && flags & 0x08 != 0 {
                first < libs as u64
            } else if flags & 0x03 == 0 && flags & 0x08 == 0 && flags & 0x10 != 0 {
                read_uleb(data, next).is_some()
            } else {
                true
            }
        },
    }
}

/// Walks the node at `node` and all below it.
fn check_node(
    data: &[u8],
    start: usize,
    end: usize,
    libs: usize,
    node: usize,
    prefix: u64,
    depth: usize,
    budget: u64,
) -> (left: Option<u64>)
    requires
        start <= end <= data.len(),
    ensures
        budget_left(left) == node_ok(
            data@,
            start as int,
            end as int,
            libs as int,
            node as int,
            prefix as nat,
            depth as nat,
            budget as nat,
        ),
    decreases depth, 0nat,
{
    if depth == 0 || node < start || node >= end {
        return None;
    }
    if prefix > (u64::MAX - NODE_BYTES) / 2 || budget < NODE_BYTES + 2 * prefix {
        return None;
    }
    let rest: u64 = budget - (NODE_BYTES + 2 * prefix);
    let (terminal, after) = match read_uleb(data, node) {
        None => {
            return None;
        },
        Some(read) => read,
    };
    if terminal == 0 {
        match read_uleb(data, after) {
            None => None,
            Some((count, first)) => check_branches(
                data,
                start,
                end,
                libs,
                first,
                count,
                prefix,
                depth - 1,
                rest,
            ),
        }
    } else if terminal >= (data.len() - after) as u64 {
        None
    } else {
        let children: usize = after + terminal as usize;
        match (read_uleb(data, children), read_uleb(data, after)) {
            (Some((count, first)), Some((flags, info))) => {
                if check_info(data, libs, flags, info) {
                    check_branches(
                        data,
                        start,
                        end,
                        libs,
                        first,
                        count,
                        prefix,
                        depth - 1,
                        rest,
                    )
                } else {
                    None
                }
            },
            _ => None,
        }
    }
}

/// Walks `count` branches whose first label starts at `at`.
fn check_branches(
    data: &[u8],
    start: usize,
    end: usize,
    libs: usize,
    at: usize,
    count: u64,
    prefix: u64,
    depth: usize,
    budget: u64,
) -> (left: Option<u64>)
    requires
        start <= end <= data.len(),
    ensures
        budget_left(left) == branches_ok(
            data@,
            start as int,
            end as int,
            libs as int,
            at as int,
            count,
            prefix as nat,
            depth as nat,
            budget as nat,
        ),
    decreases depth, 1nat,
{
    let mut next_at: usize = at;
    let mut left_count: u64 = count;
    let mut left_budget: u64 = budget;
    let ghost whole = branches_ok(
        data@,
        start as int,
        end as int,
        libs as int,
        at as int,
        count,
        prefix as nat,
        depth as nat,
        budget as nat,
    );
    while left_count > 0
        invariant
            start <= end <= data.len(),
            whole == branches_ok(
                data@,
                start as int,
                end as int,
                libs as int,
                at as int,
                count,
                prefix as nat,
                depth as nat,
                budget as nat,
            ),
            whole == branches_ok(
                data@,
                start as int,
                end as int,
                libs as int,
                next_at as int,
                left_count,
                prefix as nat,
                depth as nat,
                left_budget as nat,
            ),
        decreases left_count,
    {
        if next_at > data.len() {
            return None;
        }
        let label: usize = find_label_end(data, next_at);
        if label >= data.len() {
            return None;
        }
        match read_uleb(data, label + 1) {
            None => {
                return None;
            },
            Some((child, next)) => {
                if child >= (end - start) as u64 {
                    return None;
                }
                if prefix >= left_budget || (label - next_at) as u64 >= left_budget - prefix {
                    assert(node_ok(
                        data@,
                        start as int,
                        end as int,
                        libs as int,
                        start + child,
                        (prefix + label - next_at) as nat,
                        depth as nat,
                        left_budget as nat,
                    ) is None);
                    return None;
                }
                match check_node(
                    data,
                    start,
                    end,
                    libs,
                    start + child as usize,
                    prefix + (label - next_at) as u64,
                    depth,
                    left_budget,
                ) {
                    None => {
                        return None;
                    },
                    Some(rest) => {
                        next_at = next;
                        left_count = left_count - 1;
                        left_budget = rest;
                    },
                }
            },
        }
    }
    Some(left_budget)
}

/// Whether the export trie of the image `data` can be walked.
/// `commands` holds, for each load command of the image in order, where the
/// trie lies if the command says so; `libs` is the number of libraries that
/// a re-export can name.
pub fn trie_can_be_walked(data: &[u8], commands: &Vec<Option<(u32, u32)>>, libs: usize) -> (walkable: bool)
    ensures
        walkable == trie_is_walkable(data@, commands@, libs as int),
{
    let mut last: Option<(u32, u32)> = None;
    let mut i: usize = 0;
    while i < commands.len()
        invariant
            i <= commands.len(),
            last == last_trie_command(commands@.take(i as int)),
        decreases commands.len() - i,
    {
        assert(commands@.take(i + 1).drop_last() =~= commands@.take(i as int));
        match commands[i] {
            Some(range) => {
                last = Some(range);
            },
            None => {},
        }
        i += 1;
    }
    assert(commands@.take(i as int) =~= commands@);
    match last {
        None => true,
        Some((offset, size)) => {
            if offset as u64 + size as u64 > data.len() as u64 {
                true
            } else if size == 0 {
                true
            } else {
                let start: usize = offset as usize;
                let end: usize = start + size as usize;
                check_node(
                    data,
                    start,
                    end,
                    libs,
                    start,
                    0,
                    MAX_TRIE_DEPTH,
                    MAX_WALK_BYTES,
                ).is_some()
            }
        },
    }
}

} // verus!
