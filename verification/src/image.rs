//! Binary images as `goblin` reads them: the container formats, and the
//! names that each format's table holds.
//!
//! Everything in this file is taken on trust from `goblin`. Each function
//! here makes one call into it, or reads one of its fields, and its contract
//! claims little: that the call comes back, with a value or with an error,
//! and that what comes back depends on the argument alone. What a table
//! holds for given bytes is not stated anywhere; it has a name, and the
//! search is proved for whatever the name stands for.
//!
//! That every call comes back does not follow from the calls' types: it
//! rests on how carefully `goblin` treats damaged input. In three places it
//! treats none with care. It computes the address of the entry point of a
//! Mach-O image without looking whether the numbers allow it. Where it is
//! asked to log what it does, it adds the address and the size of a section
//! of a PE image without looking either. And it follows the export trie of
//! a Mach-O image wherever the trie leads, and notices neither a branch that
//! leads back into the trie nor a re-export from a library that the image
//! does not load. So the two calls that come through these places ask their
//! caller to have looked first: see `parse_image` with the modules `entry`
//! and `sections`, and `list_macho_export_names` with the module `trie`.

use vstd::prelude::*;
use crate::entry::entry_is_computable;
use crate::sections::sections_fit_addresses;
use crate::trie::trie_is_walkable;

verus! {

/// `goblin::elf::Elf`, a parsed ELF image. Nothing is known of its inside.
#[verifier::external_type_specification]
#[verifier::external_body]
pub struct ExElf<'a>(goblin::elf::Elf<'a>);

/// `goblin::pe::PE`, a parsed PE image. Nothing is known of its inside.
#[verifier::external_type_specification]
#[verifier::external_body]
pub struct ExPe<'a>(goblin::pe::PE<'a>);

/// `goblin::mach::MachO`, a parsed Mach-O image of one architecture.
/// Nothing is known of its inside.
#[verifier::external_type_specification]
#[verifier::external_body]
pub struct ExMachO<'a>(goblin::mach::MachO<'a>);

/// `goblin::error::Error`. Nothing is known of its inside.
#[verifier::external_type_specification]
#[verifier::external_body]
pub struct ExError(goblin::error::Error);

/// A binary image that could be read, by container format.
pub enum Image<'a> {
    /// An ELF image.
    Elf(goblin::elf::Elf<'a>),
    /// A PE image.
    Pe(goblin::pe::PE<'a>),
    /// A Mach-O image of one architecture.
    MachO(goblin::mach::MachO<'a>),
    /// Anything else that can be read: a Mach-O container of several
    /// architectures, an archive, an object file, bytes of no known format.
    Other,
}

/// What `goblin::Object::parse` makes of `bytes`.
pub uninterp spec fn parsed_image(bytes: Seq<u8>) -> Result<Image<'static>, goblin::error::Error>;

/// The entries of an ELF image's dynamic string table, in table order, as
/// `goblin::strtab::Strtab::to_vec` reads them.
pub uninterp spec fn elf_dynamic_strings(elf: goblin::elf::Elf<'static>) -> Result<
    Seq<Seq<char>>,
    goblin::error::Error,
>;

/// The name of each entry of a PE image's export table, in table order;
/// `None` for an entry without a name.
pub uninterp spec fn pe_export_names(pe: goblin::pe::PE<'static>) -> Seq<Option<Seq<char>>>;

/// The names of a Mach-O image's exported symbols, as stored, in the order
/// in which `goblin::mach::MachO::exports` yields them.
pub uninterp spec fn macho_export_names(macho: goblin::mach::MachO<'static>) -> Result<
    Seq<Seq<char>>,
    goblin::error::Error,
>;

/// The bytes that a Mach-O image was parsed from, which it keeps and later
/// reads its export trie from.
pub uninterp spec fn macho_source(macho: goblin::mach::MachO<'static>) -> Seq<u8>;

/// For each load command of a Mach-O image, in order: where the command says
/// the export trie lies, as offset and size, or `None` for a command that
/// says nothing of it.
pub uninterp spec fn macho_trie_commands(macho: goblin::mach::MachO<'static>) -> Seq<
    Option<(u32, u32)>,
>;

/// How many libraries a Mach-O image lists in its `libs`: itself and those
/// it loads.
pub uninterp spec fn macho_library_count(macho: goblin::mach::MachO<'static>) -> nat;

/// The text that `goblin` gives for one of its errors.
pub uninterp spec fn error_text(error: goblin::error::Error) -> Seq<char>;

/// What a list of names is, name by name.
pub open spec fn texts(names: Seq<String>) -> Seq<Seq<char>> {
    names.map_values(|name: String| name@)
}

/// What a list of optional names is, entry by entry.
pub open spec fn optional_texts(names: Seq<Option<String>>) -> Seq<Option<Seq<char>>> {
    names.map_values(
        |name: Option<String>|
            match name {
                Some(text) => Some(text@),
                None => None,
            },
    )
}

/// What a fallible list of names is.
pub open spec fn names_outcome(outcome: Result<Vec<String>, goblin::error::Error>) -> Result<
    Seq<Seq<char>>,
    goblin::error::Error,
> {
    match outcome {
        Ok(names) => Ok(texts(names@)),
        Err(error) => Err(error),
    }
}

/// Calls `goblin::Object::parse` and sorts its answer by container format.
/// For a Mach-O image of one architecture that gives an entry offset, the
/// call takes the file offset of the first segment named `__TEXT` from that
/// segment's address and adds the entry offset, with no look at the numbers.
/// For a PE image, when it looks an address up among the sections and is
/// asked to log that, it adds each section's address and size in memory, in
/// 32 bits, with no look at the numbers either. Trusted: that the call
/// returns where `entry_is_computable` holds, which says that the
/// subtraction and the addition stay within 64 bits, and
/// `sections_fit_addresses`, which says that those sums stay within 32; that
/// what it returns depends on the bytes alone; that it refuses an input of
/// fewer than 16 bytes, which is what it reads to tell the formats apart;
/// and that a Mach-O image keeps the bytes it was parsed from.
#[verifier::external_body]
pub(crate) fn parse_image<'a>(bytes: &'a [u8]) -> (r: Result<Image<'a>, goblin::error::Error>)
    requires
        entry_is_computable(bytes@),
        sections_fit_addresses(bytes@),
    ensures
        r == parsed_image(bytes@),
        bytes@.len() < 16 ==> r is Err,
        r matches Ok(Image::MachO(macho)) ==> macho_source(macho) == bytes@,
{
    Ok(
        match goblin::Object::parse(bytes)? {
            goblin::Object::Elf(elf) => Image::Elf(elf),
            goblin::Object::PE(pe) => Image::Pe(pe),
            goblin::Object::Mach(goblin::mach::Mach::Binary(macho)) => Image::MachO(macho),
            _ => Image::Other,
        },
    )
}

/// Calls `goblin::strtab::Strtab::to_vec` on the image's `dynstrtab` and
/// copies each entry. Trusted: that the call returns, and that the entries
/// or the error depend on the image alone.
#[verifier::external_body]
pub(crate) fn list_elf_dynamic_strings(elf: &goblin::elf::Elf<'_>) -> (r: Result<
    Vec<String>,
    goblin::error::Error,
>)
    ensures
        names_outcome(r) == elf_dynamic_strings(*elf),
{
    Ok(elf.dynstrtab.to_vec()?.into_iter().map(String::from).collect())
}

/// Reads the `exports` of a `goblin::pe::PE` and copies the `name` of each.
/// Trusted: that the names depend on the image alone.
#[verifier::external_body]
pub(crate) fn list_pe_export_names(pe: &goblin::pe::PE<'_>) -> (names: Vec<Option<String>>)
    ensures
        optional_texts(names@) == pe_export_names(*pe),
{
    pe.exports.iter().map(|export| export.name.map(String::from)).collect()
}

/// Reads the `load_commands` of a `goblin::mach::MachO` and takes from each
/// of the three kinds that place the export trie the offset and the size it
/// gives. Trusted: that the list depends on the image alone.
#[verifier::external_body]
pub(crate) fn list_macho_trie_commands(macho: &goblin::mach::MachO<'_>) -> (commands: Vec<
    Option<(u32, u32)>,
>)
    ensures
        commands@ == macho_trie_commands(*macho),
{
    macho.load_commands.iter().map(
        |entry|
            match entry.command {
                goblin::mach::load_command::CommandVariant::DyldInfo(info) => Some(
                    (info.export_off, info.export_size),
                ),
                goblin::mach::load_command::CommandVariant::DyldInfoOnly(info) => Some(
                    (info.export_off, info.export_size),
                ),
                goblin::mach::load_command::CommandVariant::DyldExportsTrie(data) => Some(
                    (data.dataoff, data.datasize),
                ),
                _ => None,
            },
    ).collect()
}

/// Reads the length of the `libs` of a `goblin::mach::MachO`. Trusted: that
/// it depends on the image alone.
#[verifier::external_body]
pub(crate) fn count_macho_libraries(macho: &goblin::mach::MachO<'_>) -> (count: usize)
    ensures
        count == macho_library_count(*macho),
{
    macho.libs.len()
}

/// Calls `goblin::mach::MachO::exports` and takes the `name` of each export.
/// The call walks the trie that the last of the image's trie commands
/// places, in the bytes the image was parsed from, node by node and as deep
/// as the trie goes; it spells out a name for every branch and looks a
/// re-export up in `libs`; it takes no care on the way. Trusted: that the
/// call returns where `trie_is_walkable` holds, which says that such a walk
/// stays inside the trie, reads only what is there, names only libraries
/// that are there, and is bounded in depth and in the names it spells; and
/// that the names or the error depend on the image alone.
#[verifier::external_body]
pub(crate) fn list_macho_export_names(macho: &goblin::mach::MachO<'_>) -> (r: Result<
    Vec<String>,
    goblin::error::Error,
>)
    requires
        trie_is_walkable(
            macho_source(*macho),
            macho_trie_commands(*macho),
            macho_library_count(*macho) as int,
        ),
    ensures
        names_outcome(r) == macho_export_names(*macho),
{
    Ok(macho.exports()?.into_iter().map(|export| export.name).collect())
}

/// Formats a `goblin::error::Error` by its `Display`. Trusted: that the
/// text depends on the error alone.
#[verifier::external_body]
pub(crate) fn describe_error(error: &goblin::error::Error) -> (text: String)
    ensures
        text@ == error_text(*error),
{
    error.to_string()
}

} // verus!
