//! Finding the registrar symbol among the names a binary exports.

use vstd::prelude::*;
use vstd::std_specs::iter::IteratorSpec;
use vstd::string::StringExecFns;
use crate::image::{
    count_macho_libraries, describe_error, elf_dynamic_strings, error_text,
    list_elf_dynamic_strings, list_macho_export_names, list_macho_trie_commands,
    list_pe_export_names, macho_export_names, macho_library_count, macho_source,
    macho_trie_commands, optional_texts, parse_image, parsed_image, pe_export_names, texts, Image,
};
use crate::entry::{entry_can_be_computed, entry_is_computable};
use crate::sections::{sections_are_in_space, sections_fit_addresses};
use crate::trie::{trie_is_walkable, trie_can_be_walked};

verus! {

/// The text that marks the symbol under which a module exports its registry.
pub const NEW_REGISTRAR_SYMBOL: &'static str = "_rustc_proc_macro_decls_";

/// The marker as a sequence of characters.
pub open spec fn registrar_marker() -> Seq<char> {
    NEW_REGISTRAR_SYMBOL@
}

/// `pattern` stands in `text` at position `at`.
pub open spec fn occurs_at(text: Seq<char>, pattern: Seq<char>, at: int) -> bool {
    &&& 0 <= at
    &&& at + pattern.len() <= text.len()
    &&& text.subrange(at, at + pattern.len()) == pattern
}

/// `pattern` stands somewhere in `text`.
pub open spec fn contains_text(text: Seq<char>, pattern: Seq<char>) -> bool {
    exists|at: int| occurs_at(text, pattern, at)
}

/// `name` carries the registrar marker.
pub open spec fn has_registrar_marker(name: Seq<char>) -> bool {
    contains_text(name, registrar_marker())
}

/// The characters of `text`, in order.
fn chars_of(text: &str) -> (chars: Vec<char>)
    ensures
        chars@ == text@,
{
    let mut rest = text.chars();
    let mut chars: Vec<char> = Vec::new();
    loop
        invariant
            chars@ + rest.remaining() == text@,
            rest.obeys_prophetic_iter_laws(),
            rest.decrease() is Some,
        ensures
            chars@ == text@,
        decreases rest.decrease()->0,
    {
        match rest.next() {
            Some(c) => {
                chars.push(c);
            },
            None => {
                assert(rest.remaining().len() == 0);
                break;
            },
        }
    }
    chars
}

/// Whether `pattern` stands in `text` at `at`.
fn matches_at(text: &Vec<char>, pattern: &Vec<char>, at: usize) -> (found: bool)
    requires
        at + pattern.len() <= text.len(),
    ensures
        found == occurs_at(text@, pattern@, at as int),
{
    let m: usize = pattern.len();
    let mut k: usize = 0;
    while k < m
        invariant
            m == pattern.len(),
            at + m <= text.len(),
            k <= m,
            forall|j: int| 0 <= j < k ==> text@[at + j] == pattern@[j],
        decreases m - k,
    {
        if text[at + k] != pattern[k] {
            assert(text@.subrange(at as int, at + m)[k as int] != pattern@[k as int]);
            return false;
        }
        k += 1;
    }
    assert(text@.subrange(at as int, at + m) =~= pattern@);
    true
}

/// Whether `pattern` stands somewhere in `text`.
fn contains_chars(text: &Vec<char>, pattern: &Vec<char>) -> (found: bool)
    ensures
        found == contains_text(text@, pattern@),
{
    let n: usize = text.len();
    let m: usize = pattern.len();
    if m > n {
        return false;
    }
    let last: usize = n - m;
    let mut at: usize = 0;
    loop
        invariant
            n == text.len(),
            m == pattern.len(),
            last == n - m,
            at <= last,
            forall|k: int| 0 <= k < at ==> !occurs_at(text@, pattern@, k),
        decreases last - at,
    {
        if matches_at(text, pattern, at) {
            return true;
        }
        if at == last {
            return false;
        }
        at += 1;
    }
}

/// Whether `symbol` names a registrar: whether the marker stands somewhere in it.
pub fn is_derive_registrar_symbol(symbol: &str) -> (found: bool)
    ensures
        found == has_registrar_marker(symbol@),
{
    let text = chars_of(symbol);
    let marker = chars_of(NEW_REGISTRAR_SYMBOL);
    contains_chars(&text, &marker)
}

/// The first of `names`, in order, that carries the registrar marker.
pub open spec fn first_registrar(names: Seq<Seq<char>>) -> Option<Seq<char>>
    decreases names.len(),
{
    if names.len() == 0 {
        None
    } else if has_registrar_marker(names[0]) {
        Some(names[0])
    } else {
        first_registrar(names.drop_first())
    }
}

/// The names of the entries that have one, in order.
pub open spec fn named(entries: Seq<Option<Seq<char>>>) -> Seq<Seq<char>>
    decreases entries.len(),
{
    if entries.len() == 0 {
        Seq::empty()
    } else {
        match entries[0] {
            Some(name) => seq![name] + named(entries.drop_first()),
            None => named(entries.drop_first()),
        }
    }
}

/// A Mach-O symbol name as a run-time lookup expects it: without its one
/// leading underscore, if it has one.
pub open spec fn unprefixed(name: Seq<char>) -> Seq<char> {
    if name.len() > 0 && name[0] == '_' {
        name.skip(1)
    } else {
        name
    }
}

/// Each of `names` without its leading underscore.
pub open spec fn all_unprefixed(names: Seq<Seq<char>>) -> Seq<Seq<char>> {
    names.map_values(|name: Seq<char>| unprefixed(name))
}

/// What an optional name is.
pub open spec fn optional_text(name: Option<String>) -> Option<Seq<char>> {
    match name {
        Some(text) => Some(text@),
        None => None,
    }
}

/// `name` without its one leading underscore, if it has one.
pub fn strip_underscore(name: &str) -> (stripped: &str)
    ensures
        stripped@ == unprefixed(name@),
{
    let n: usize = name.unicode_len();
    if n > 0 && name.get_char(0) == '_' {
        name.substring_char(1, n)
    } else {
        name
    }
}

/// The first of `names` that carries the registrar marker.
pub fn first_registrar_symbol(names: &Vec<String>) -> (found: Option<String>)
    ensures
        optional_text(found) == first_registrar(texts(names@)),
{
    let ghost all = texts(names@);
    assert(all.skip(0) =~= all);
    let mut i: usize = 0;
    while i < names.len()
        invariant
            i <= names.len(),
            all == texts(names@),
            first_registrar(all) == first_registrar(all.skip(i as int)),
        decreases names.len() - i,
    {
        assert(all.skip(i as int)[0] == names@[i as int]@);
        if is_derive_registrar_symbol(names[i].as_str()) {
            return Some(names[i].clone());
        }
        assert(all.skip(i as int).drop_first() =~= all.skip(i + 1));
        i += 1;
    }
    None
}

/// The first named entry of `exports` whose name carries the registrar marker.
pub fn first_named_registrar_symbol(exports: &Vec<Option<String>>) -> (found: Option<String>)
    ensures
        optional_text(found) == first_registrar(named(optional_texts(exports@))),
{
    let ghost all = optional_texts(exports@);
    assert(all.skip(0) =~= all);
    let mut i: usize = 0;
    while i < exports.len()
        invariant
            i <= exports.len(),
            all == optional_texts(exports@),
            first_registrar(named(all)) == first_registrar(named(all.skip(i as int))),
        decreases exports.len() - i,
    {
        let ghost rest = all.skip(i as int);
        assert(rest[0] == optional_text(exports@[i as int]));
        assert(rest.drop_first() =~= all.skip(i + 1));
        match &exports[i] {
            Some(name) => {
                assert((seq![name@] + named(rest.drop_first())).drop_first() =~= named(
                    rest.drop_first(),
                ));
                if is_derive_registrar_symbol(name.as_str()) {
                    return Some(name.clone());
                }
            },
            None => {},
        }
        i += 1;
    }
    None
}

/// The first of `names` that carries the registrar marker once its leading
/// underscore is taken off; what is returned is the name without it.
pub fn first_unprefixed_registrar_symbol(names: &Vec<String>) -> (found: Option<String>)
    ensures
        optional_text(found) == first_registrar(all_unprefixed(texts(names@))),
{
    let ghost all = all_unprefixed(texts(names@));
    assert(all.skip(0) =~= all);
    let mut i: usize = 0;
    while i < names.len()
        invariant
            i <= names.len(),
            all == all_unprefixed(texts(names@)),
            first_registrar(all) == first_registrar(all.skip(i as int)),
        decreases names.len() - i,
    {
        let candidate = strip_underscore(names[i].as_str());
        assert(all.skip(i as int)[0] == candidate@);
        if is_derive_registrar_symbol(candidate) {
            return Some(candidate.to_owned());
        }
        assert(all.skip(i as int).drop_first() =~= all.skip(i + 1));
        i += 1;
    }
    None
}

/// A binary that could not be read as the container it claims to be.
#[derive(Debug, PartialEq, Eq)]
pub struct ParseError {
    /// What the reader found wrong.
    pub message: String,
}

/// What is reported of a Mach-O image whose export trie cannot be walked.
pub open spec fn unwalkable_trie_text() -> Seq<char> {
    "Malformed entity: export trie cannot be walked"@
}

/// The export trie of `macho` can be walked: a walk of it comes to an end,
/// can read what it meets, and stays within the stack and the memory that a
/// walk may take.
pub open spec fn macho_trie_is_walkable(macho: goblin::mach::MachO) -> bool {
    trie_is_walkable(
        macho_source(macho),
        macho_trie_commands(macho),
        macho_library_count(macho) as int,
    )
}

/// The registrar symbol of a read image, or the text of what went wrong
/// reading its table. An ELF image is searched through its dynamic string
/// table, a PE image through the named entries of its export table, a
/// Mach-O image through its exported names without their leading
/// underscore. A Mach-O image whose export trie cannot be walked is an
/// error. Other containers hold no registrar.
pub open spec fn registrar_symbol_in(image: Image) -> Result<Option<Seq<char>>, Seq<char>> {
    match image {
        Image::Elf(elf) => match elf_dynamic_strings(elf) {
            Ok(names) => Ok(first_registrar(names)),
            Err(error) => Err(error_text(error)),
        },
        Image::Pe(pe) => Ok(first_registrar(named(pe_export_names(pe)))),
        Image::MachO(macho) => if !macho_trie_is_walkable(macho) {
            Err(unwalkable_trie_text())
        } else {
            match macho_export_names(macho) {
                Ok(names) => Ok(first_registrar(all_unprefixed(names))),
                Err(error) => Err(error_text(error)),
            }
        },
        Image::Other => Ok(None),
    }
}

/// What is reported of a Mach-O image whose entry point has no address.
pub open spec fn entry_overflow_text() -> Seq<char> {
    "Malformed entity: address of the entry point cannot be computed"@
}

/// What is reported of a PE image with a section that does not end inside
/// the address space.
pub open spec fn section_overflow_text() -> Seq<char> {
    "Malformed entity: section lies beyond the address space"@
}

/// The numbers of the image allow reading it: the entry point of a Mach-O
/// image has an address within 64 bits, and the sections of a PE image end
/// inside the 32 bits of its address space.
pub open spec fn is_readable(bytes: Seq<u8>) -> bool {
    entry_is_computable(bytes) && sections_fit_addresses(bytes)
}

/// The registrar symbol of the binary that `bytes` holds, or the text of
/// what went wrong reading it. A Mach-O image whose entry point has no
/// address within 64 bits is an error, and so is a PE image with a section
/// that does not end inside the address space.
pub open spec fn registrar_symbol_of(bytes: Seq<u8>) -> Result<Option<Seq<char>>, Seq<char>> {
    if !entry_is_computable(bytes) {
        Err(entry_overflow_text())
    } else if !sections_fit_addresses(bytes) {
        Err(section_overflow_text())
    } else {
        match parsed_image(bytes) {
            Ok(image) => registrar_symbol_in(image),
            Err(error) => Err(error_text(error)),
        }
    }
}

/// What the outcome of a search is.
pub open spec fn search_outcome(outcome: Result<Option<String>, ParseError>) -> Result<
    Option<Seq<char>>,
    Seq<char>,
> {
    match outcome {
        Ok(found) => Ok(optional_text(found)),
        Err(error) => Err(error.message@),
    }
}

/// Searches a read image for its registrar symbol. `buffer` holds the bytes
/// that the image was read from; the export trie of a Mach-O image is looked
/// over in them before it is walked.
fn find_registrar_symbol_in(image: Image, buffer: &[u8]) -> (r: Result<
    Option<String>,
    ParseError,
>)
    requires
        image matches Image::MachO(macho) ==> macho_source(macho) == buffer@,
    ensures
        search_outcome(r) == registrar_symbol_in(image),
{
    match image {
        Image::Elf(elf) => match list_elf_dynamic_strings(&elf) {
            Ok(symbols) => Ok(first_registrar_symbol(&symbols)),
            Err(error) => Err(ParseError { message: describe_error(&error) }),
        },
        Image::Pe(pe) => {
            let exports = list_pe_export_names(&pe);
            Ok(first_named_registrar_symbol(&exports))
        },
        Image::MachO(binary) => {
            let commands = list_macho_trie_commands(&binary);
            let libs = count_macho_libraries(&binary);
            if !trie_can_be_walked(buffer, &commands, libs) {
                Err(
                    ParseError {
                        message: String::from_str(
                            "Malformed entity: export trie cannot be walked",
                        ),
                    },
                )
            } else {
                match list_macho_export_names(&binary) {
                    Ok(exports) => Ok(first_unprefixed_registrar_symbol(&exports)),
                    Err(error) => Err(ParseError { message: describe_error(&error) }),
                }
            }
        },
        Image::Other => Ok(None),
    }
}

/// Finds the name of the registrar symbol in the binary that `buffer` holds.
/// `Ok(None)` says that the binary could be read and has none; an error says
/// that it could not be read.
pub fn find_registrar_symbol(buffer: &[u8]) -> (r: Result<Option<String>, ParseError>)
    ensures
        search_outcome(r) == registrar_symbol_of(buffer@),
        r is Err <==> registrar_symbol_of(buffer@) is Err,
        parsed_image(buffer@) is Err ==> r is Err,
        buffer@.len() < 16 ==> r is Err,
{
    if !entry_can_be_computed(buffer) {
        return Err(
            ParseError {
                message: String::from_str(
                    "Malformed entity: address of the entry point cannot be computed",
                ),
            },
        );
    }
    if !sections_are_in_space(buffer) {
        return Err(
            ParseError {
                message: String::from_str(
                    "Malformed entity: section lies beyond the address space",
                ),
            },
        );
    }
    match parse_image(buffer) {
        Ok(image) => find_registrar_symbol_in(image, buffer),
        Err(error) => Err(ParseError { message: describe_error(&error) }),
    }
}

/// The name at `at` carries the registrar marker, and none before it does.
pub open spec fn is_first_registrar(names: Seq<Seq<char>>, at: int) -> bool {
    &&& 0 <= at < names.len()
    &&& has_registrar_marker(names[at])
    &&& forall|j: int| 0 <= j < at ==> !has_registrar_marker(#[trigger] names[j])
}

/// Where several names carry the marker, the one that comes first in the
/// table is the registrar symbol, whatever follows it.
pub proof fn lemma_first_registrar_found(names: Seq<Seq<char>>, at: int)
    requires
        is_first_registrar(names, at),
    ensures
        first_registrar(names) == Some(names[at]),
    decreases at,
{
    if at > 0 {
        let rest = names.drop_first();
        assert(has_registrar_marker(rest[at - 1]));
        assert forall|j: int| 0 <= j < at - 1 implies !has_registrar_marker(#[trigger] rest[j]) by {
            assert(rest[j] == names[j + 1]);
        }
        lemma_first_registrar_found(rest, at - 1);
    }
}

/// A table in which no name carries the marker has no registrar symbol.
pub proof fn lemma_first_registrar_absent(names: Seq<Seq<char>>)
    requires
        forall|i: int| 0 <= i < names.len() ==> !has_registrar_marker(#[trigger] names[i]),
    ensures
        first_registrar(names) is None,
    decreases names.len(),
{
    if names.len() > 0 {
        let rest = names.drop_first();
        assert forall|i: int| 0 <= i < rest.len() implies !has_registrar_marker(
            #[trigger] rest[i],
        ) by {
            assert(rest[i] == names[i + 1]);
        }
        lemma_first_registrar_absent(rest);
    }
}

/// What the search gives is one of the table's names, the first that
/// carries the marker; it gives none only where no name carries it.
pub proof fn lemma_first_registrar_is_first(names: Seq<Seq<char>>)
    ensures
        match first_registrar(names) {
            Some(name) => exists|at: int| #[trigger]
                is_first_registrar(names, at) && names[at] == name,
            None => forall|i: int|
                0 <= i < names.len() ==> !has_registrar_marker(#[trigger] names[i]),
        },
    decreases names.len(),
{
    if names.len() == 0 {
    } else if has_registrar_marker(names[0]) {
        assert(is_first_registrar(names, 0));
    } else {
        let rest = names.drop_first();
        lemma_first_registrar_is_first(rest);
        match first_registrar(rest) {
            Some(name) => {
                let at = choose|at: int| #[trigger]
                    is_first_registrar(rest, at) && rest[at] == name;
                assert forall|j: int| 0 <= j < at + 1 implies !has_registrar_marker(
                    #[trigger] names[j],
                ) by {
                    if j > 0 {
                        assert(names[j] == rest[j - 1]);
                    }
                }
                assert(names[at + 1] == rest[at]);
                assert(is_first_registrar(names, at + 1));
            },
            None => {
                assert forall|i: int| 0 <= i < names.len() implies !has_registrar_marker(
                    #[trigger] names[i],
                ) by {
                    if i > 0 {
                        assert(names[i] == rest[i - 1]);
                    }
                }
            },
        }
    }
}

/// Exactly one underscore is taken off a Mach-O name: a name that is
/// written with one in front comes out as it was before, and a name
/// without one is left alone.
pub proof fn lemma_unprefixed_takes_one(name: Seq<char>)
    ensures
        unprefixed(seq!['_'] + name) == name,
        name.len() == 0 || name[0] != '_' ==> unprefixed(name) == name,
{
    assert((seq!['_'] + name).skip(1) =~= name);
}

/// A binary that cannot be read is an error and never "no symbol"; a
/// binary that can be read and is neither ELF, PE nor single Mach-O is
/// "no symbol" and never an error.
pub proof fn lemma_unreadable_differs_from_absent(bytes: Seq<u8>)
    ensures
        parsed_image(bytes) is Err ==> registrar_symbol_of(bytes) is Err,
        registrar_symbol_of(bytes) is Ok ==> parsed_image(bytes) is Ok,
        is_readable(bytes) ==> (parsed_image(bytes) matches Ok(image) && image is Other
            ==> registrar_symbol_of(bytes) == Ok::<Option<Seq<char>>, Seq<char>>(None)),
{
}

/// A Mach-O image whose entry point has an address and whose export trie
/// can be walked yields the first of its exported names that carries the
/// marker once one leading underscore is taken off, and yields that name
/// without the underscore. A trie that asks for more stack or memory than a
/// walk may take is not among these images.
pub proof fn lemma_macho_registrar_found(
    bytes: Seq<u8>,
    macho: goblin::mach::MachO,
    names: Seq<Seq<char>>,
    at: int,
)
    requires
        is_readable(bytes),
        parsed_image(bytes) == Ok::<Image, goblin::error::Error>(Image::MachO(macho)),
        macho_trie_is_walkable(macho),
        macho_export_names(macho) == Ok::<Seq<Seq<char>>, goblin::error::Error>(names),
        is_first_registrar(all_unprefixed(names), at),
    ensures
        registrar_symbol_of(bytes) == Ok::<Option<Seq<char>>, Seq<char>>(
            Some(unprefixed(names[at])),
        ),
{
    lemma_first_registrar_found(all_unprefixed(names), at);
}

/// A Mach-O image whose entry point has an address and whose export trie
/// can be walked, and of whose exported names none carries the marker once
/// one leading underscore is taken off, yields no symbol and no error.
pub proof fn lemma_macho_registrar_absent(
    bytes: Seq<u8>,
    macho: goblin::mach::MachO,
    names: Seq<Seq<char>>,
)
    requires
        is_readable(bytes),
        parsed_image(bytes) == Ok::<Image, goblin::error::Error>(Image::MachO(macho)),
        macho_trie_is_walkable(macho),
        macho_export_names(macho) == Ok::<Seq<Seq<char>>, goblin::error::Error>(names),
        forall|i: int| 0 <= i < names.len() ==> !has_registrar_marker(unprefixed(#[trigger] names[i])),
    ensures
        registrar_symbol_of(bytes) == Ok::<Option<Seq<char>>, Seq<char>>(None),
{
    assert forall|i: int| 0 <= i < all_unprefixed(names).len() implies !has_registrar_marker(
        #[trigger] all_unprefixed(names)[i],
    ) by {
        assert(all_unprefixed(names)[i] == unprefixed(names[i]));
    }
    lemma_first_registrar_absent(all_unprefixed(names));
}

/// An ELF image yields the first entry of its dynamic string table that
/// carries the marker, as it stands, and no symbol and no error where no
/// entry carries it. A PE image does the same with the names of its named
/// exports.
pub proof fn lemma_elf_and_pe_registrar(bytes: Seq<u8>, names: Seq<Seq<char>>)
    requires
        is_readable(bytes),
        (parsed_image(bytes) matches Ok(Image::Elf(elf)) && elf_dynamic_strings(elf) == Ok::<
            Seq<Seq<char>>,
            goblin::error::Error,
        >(names)) || (parsed_image(bytes) matches Ok(Image::Pe(pe)) && named(pe_export_names(pe))
            == names),
    ensures
        registrar_symbol_of(bytes) == Ok::<Option<Seq<char>>, Seq<char>>(first_registrar(names)),
        forall|at: int| #[trigger]
            is_first_registrar(names, at) ==> registrar_symbol_of(bytes) == Ok::<
                Option<Seq<char>>,
                Seq<char>,
            >(Some(names[at])),
{
    assert forall|at: int| #[trigger] is_first_registrar(names, at) implies first_registrar(names)
        == Some(names[at]) by {
        lemma_first_registrar_found(names, at);
    }
}

} // verus!
