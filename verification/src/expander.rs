//! Dispatch by name over the procedures of the loaded modules.

use vstd::prelude::*;
use vstd::seq_lib::lemma_flatten_concat;
use vstd::string::StringExecFns;
use crate::loader::{report_text, LoadFailure};
use crate::registry::{Descriptor, ProcMacro, ProcMacroKind, ProcMacroLibrary};
use crate::tokens::{empty_subtree, Subtree, SubtreeView, TokenStream};

verus! {

/// What a procedure left behind when it failed: a text, or something that
/// is no text.
#[derive(Debug, PartialEq, Eq)]
pub enum PanicMessage {
    StaticStr(&'static str),
    String(String),
    Unknown,
}

impl View for PanicMessage {
    type V = Option<Seq<char>>;

    open spec fn view(&self) -> Option<Seq<char>> {
        match *self {
            PanicMessage::StaticStr(text) => Some(text@),
            PanicMessage::String(text) => Some(text@),
            PanicMessage::Unknown => None,
        }
    }
}

impl PanicMessage {
    /// The text that was left behind, if it was a text.
    pub fn as_str(&self) -> (text: Option<&str>)
        ensures
            match text {
                Some(text) => self@ == Some(text@),
                None => self@ is None,
            },
    {
        match self {
            PanicMessage::StaticStr(text) => Some(*text),
            PanicMessage::String(text) => Some(text.as_str()),
            PanicMessage::Unknown => None,
        }
    }
}

/// Why an expansion gave no token tree.
#[derive(Debug, PartialEq, Eq)]
pub enum InvocationFailure {
    /// No loaded module declares a procedure of that name.
    NotFound,
    /// The procedure was found and run, and failed.
    Failed(PanicMessage),
}

/// What is reported where no procedure answers to the name.
pub open spec fn not_found_text() -> Seq<char> {
    "Nothing to expand"@
}

impl InvocationFailure {
    /// The failure in the form in which a procedure reports its own: what
    /// the procedure left behind, or, where none was found, a text made for
    /// the occasion that says so.
    pub fn into_panic_message(self) -> (message: PanicMessage)
        ensures
            match self {
                InvocationFailure::NotFound => message matches PanicMessage::String(text)
                    && text@ == not_found_text(),
                InvocationFailure::Failed(left) => message == left,
            },
    {
        match self {
            InvocationFailure::NotFound => PanicMessage::String(
                String::from_str("Nothing to expand"),
            ),
            InvocationFailure::Failed(left) => left,
        }
    }
}

/// The call that an expansion comes down to: the procedure's handle and the
/// streams it is to receive, in the order it receives them.
#[derive(Debug, PartialEq, Eq)]
pub enum Invocation<'a, C> {
    CustomDerive { client: &'a C, body: TokenStream },
    Bang { client: &'a C, body: TokenStream },
    Attr { client: &'a C, attributes: TokenStream, body: TokenStream },
}

/// What an invocation is: which handle is called, in which way, on which
/// streams.
pub struct InvocationView<C> {
    pub kind: ProcMacroKind,
    pub client: C,
    pub inputs: Seq<SubtreeView>,
}

impl<'a, C> View for Invocation<'a, C> {
    type V = InvocationView<C>;

    open spec fn view(&self) -> InvocationView<C> {
        match *self {
            Invocation::CustomDerive { client, body } => InvocationView {
                kind: ProcMacroKind::CustomDerive,
                client: *client,
                inputs: seq![body@],
            },
            Invocation::Bang { client, body } => InvocationView {
                kind: ProcMacroKind::FuncLike,
                client: *client,
                inputs: seq![body@],
            },
            Invocation::Attr { client, attributes, body } => InvocationView {
                kind: ProcMacroKind::Attr,
                client: *client,
                inputs: seq![attributes@, body@],
            },
        }
    }
}

/// The attribute tokens as a procedure sees them: those given, or none.
pub open spec fn attribute_stream(attributes: Option<SubtreeView>) -> SubtreeView {
    match attributes {
        Some(tokens) => tokens,
        None => empty_subtree(),
    }
}

/// The call that runs `descriptor` on `body` and `attributes`: an attribute
/// procedure receives the attribute stream and then the body; the other two
/// kinds receive the body alone.
pub open spec fn invocation_of<C>(
    descriptor: Descriptor<C>,
    body: SubtreeView,
    attributes: Option<SubtreeView>,
) -> InvocationView<C> {
    InvocationView {
        kind: descriptor.kind,
        client: descriptor.client,
        inputs: match descriptor.kind {
            ProcMacroKind::Attr => seq![attribute_stream(attributes), body],
            _ => seq![body],
        },
    }
}

/// No descriptor of `catalog` answers to `name`.
pub open spec fn no_match<C>(catalog: Seq<Descriptor<C>>, name: Seq<char>) -> bool {
    forall|i: int| 0 <= i < catalog.len() ==> (#[trigger] catalog[i]).name != name
}

/// The descriptor at `at` answers to `name`, and none before it does.
pub open spec fn is_first_match<C>(catalog: Seq<Descriptor<C>>, name: Seq<char>, at: int) -> bool {
    &&& 0 <= at < catalog.len()
    &&& catalog[at].name == name
    &&& no_match(catalog.take(at), name)
}

/// The names and kinds of `catalog`, entry by entry.
pub open spec fn listing<C>(catalog: Seq<Descriptor<C>>) -> Seq<(Seq<char>, ProcMacroKind)> {
    catalog.map_values(|descriptor: Descriptor<C>| (descriptor.name, descriptor.kind))
}

/// What a list of names and kinds is, entry by entry.
pub open spec fn listing_view(entries: Seq<(String, ProcMacroKind)>) -> Seq<
    (Seq<char>, ProcMacroKind),
> {
    entries.map_values(|entry: (String, ProcMacroKind)| (entry.0@, entry.1))
}

/// What a caller's attribute argument is.
pub open spec fn attributes_view(attributes: Option<&Subtree>) -> Option<SubtreeView> {
    match attributes {
        Some(tokens) => Some(tokens@),
        None => None,
    }
}

/// The loaded modules, in the order they were loaded. Fixed once built.
#[derive(Debug)]
pub struct Expander<L, C> {
    libs: Vec<ProcMacroLibrary<L, C>>,
}

/// What a list of modules is: the descriptors of each, module by module.
pub open spec fn modules<L, C>(libs: Seq<ProcMacroLibrary<L, C>>) -> Seq<Seq<Descriptor<C>>> {
    libs.map_values(|library: ProcMacroLibrary<L, C>| library@)
}

/// The handles of a list of modules, module by module.
pub open spec fn module_handles<L, C>(libs: Seq<ProcMacroLibrary<L, C>>) -> Seq<L> {
    libs.map_values(|library: ProcMacroLibrary<L, C>| library.handle())
}

impl<L, C> View for Expander<L, C> {
    type V = Seq<Seq<Descriptor<C>>>;

    /// The descriptors of each module, module by module.
    closed spec fn view(&self) -> Seq<Seq<Descriptor<C>>> {
        modules(self.libs@)
    }
}

/// The modules before `m` and then module `m` make up the modules before `m + 1`.
proof fn lemma_catalog_step<D>(modules: Seq<Seq<D>>, m: int)
    requires
        0 <= m < modules.len(),
    ensures
        modules.take(m + 1).flatten() =~= modules.take(m).flatten() + modules[m],
{
    assert(modules.take(m + 1) =~= modules.take(m).push(modules[m]));
    modules.take(m).lemma_flatten_push(modules[m]);
}

/// The catalog is what stands before module `m`, then module `m`, then the rest.
proof fn lemma_catalog_split<D>(modules: Seq<Seq<D>>, m: int)
    requires
        0 <= m < modules.len(),
    ensures
        modules.flatten() =~= modules.take(m + 1).flatten() + modules.skip(m + 1).flatten(),
{
    assert(modules =~= modules.take(m + 1) + modules.skip(m + 1));
    lemma_flatten_concat(modules.take(m + 1), modules.skip(m + 1));
}

/// What running a procedure gave becomes what the expansion gives: the
/// subtree of the stream that came back, or the failure with what the
/// procedure left behind, unchanged.
pub fn expansion_result(outcome: Result<TokenStream, PanicMessage>) -> (r: Result<
    Subtree,
    InvocationFailure,
>)
    ensures
        match outcome {
            Ok(stream) => r == Ok::<Subtree, InvocationFailure>(stream.subtree),
            Err(message) => r == Err::<Subtree, InvocationFailure>(
                InvocationFailure::Failed(message),
            ),
        },
{
    match outcome {
        Ok(stream) => Ok(stream.subtree),
        Err(message) => Err(InvocationFailure::Failed(message)),
    }
}

impl<L, C> Expander<L, C> {
    /// The handles of the loaded modules, module by module. They are held
    /// for as long as the expander is.
    pub closed spec fn handles(&self) -> Seq<L> {
        module_handles(self.libs@)
    }

    /// Makes an expander of one module out of an attempt to load it. Where
    /// the attempt failed there is no expander, and the failure, of whatever
    /// kind, is reported as one text.
    pub fn new(opened: Result<ProcMacroLibrary<L, C>, LoadFailure>) -> (r: Result<
        Expander<L, C>,
        String,
    >)
        ensures
            match opened {
                Ok(library) => r matches Ok(expander) && expander@ == seq![library@]
                    && expander.handles() == seq![library.handle()],
                Err(failure) => r matches Err(text) && text@ == report_text(failure@),
            },
    {
        match opened {
            Ok(library) => {
                let mut libs: Vec<ProcMacroLibrary<L, C>> = Vec::new();
                libs.push(library);
                let expander = Expander { libs };
                assert(expander@ =~= seq![library@]);
                assert(expander.handles() =~= seq![library.handle()]);
                Ok(expander)
            },
            Err(failure) => Err(failure.report()),
        }
    }

    /// Makes an expander of modules that were loaded one after the other;
    /// `libs` holds them in the order in which they were loaded.
    pub fn with_libraries(libs: Vec<ProcMacroLibrary<L, C>>) -> (expander: Expander<L, C>)
        ensures
            expander@ == modules(libs@),
            expander.handles() == module_handles(libs@),
    {
        Expander { libs }
    }

    /// Every descriptor of every module: modules in load order, and within a
    /// module the order in which it declares them.
    pub open spec fn catalog(&self) -> Seq<Descriptor<C>> {
        self@.flatten()
    }

    /// Finds the procedure that answers to `macro_name` and says how it is to
    /// be called. The first descriptor of the catalog with that name is the
    /// one; a derive answers to its trait's name. An attribute procedure gets
    /// the attribute tokens, or an empty stream where none are given, and
    /// then the body; the others get the body alone.
    pub fn expand<'a>(
        &'a self,
        macro_name: &str,
        macro_body: &Subtree,
        attributes: Option<&Subtree>,
    ) -> (r: Result<Invocation<'a, C>, InvocationFailure>)
        ensures
            match r {
                Ok(invocation) => exists|at: int|
                    #[trigger] is_first_match(self.catalog(), macro_name@, at) && invocation@
                        == invocation_of(
                        self.catalog()[at],
                        macro_body@,
                        attributes_view(attributes),
                    ),
                Err(failure) => failure is NotFound && no_match(self.catalog(), macro_name@),
            },
            r is Err <==> no_match(self.catalog(), macro_name@),
    {
        let parsed_body = TokenStream::with_subtree(macro_body.clone());
        let parsed_attributes = match attributes {
            Some(attr) => TokenStream::with_subtree(attr.clone()),
            None => TokenStream::new(),
        };
        let wanted: String = macro_name.to_owned();

        let mut m: usize = 0;
        while m < self.libs.len()
            invariant
                m <= self.libs.len(),
                wanted@ == macro_name@,
                parsed_body@ == macro_body@,
                parsed_attributes@ == attribute_stream(attributes_view(attributes)),
                no_match(self@.take(m as int).flatten(), macro_name@),
            decreases self.libs.len() - m,
        {
            let lib = &self.libs[m];
            let ghost before = self@.take(m as int).flatten();
            let mut d: usize = 0;
            while d < lib.len()
                invariant
                    m < self.libs.len(),
                    lib == &self.libs[m as int],
                    d <= lib@.len(),
                    wanted@ == macro_name@,
                    parsed_body@ == macro_body@,
                    parsed_attributes@ == attribute_stream(attributes_view(attributes)),
                    before == self@.take(m as int).flatten(),
                    no_match(before + lib@.take(d as int), macro_name@),
                decreases lib@.len() - d,
            {
                let proc_macro = lib.entry(d);
                if *proc_macro.name() == wanted {
                    proof {
                        let at = before.len() + d;
                        lemma_catalog_step(self@, m as int);
                        lemma_catalog_split(self@, m as int);
                        assert(self.catalog()[at] == lib@[d as int]);
                        assert(self.catalog().take(at) =~= before + lib@.take(d as int));
                        assert(is_first_match(self.catalog(), macro_name@, at));
                    }
                    let invocation = match proc_macro {
                        ProcMacro::CustomDerive { client, .. } => Invocation::CustomDerive {
                            client,
                            body: parsed_body,
                        },
                        ProcMacro::Bang { client, .. } => Invocation::Bang {
                            client,
                            body: parsed_body,
                        },
                        ProcMacro::Attr { client, .. } => Invocation::Attr {
                            client,
                            attributes: parsed_attributes,
                            body: parsed_body,
                        },
                    };
                    return Ok(invocation);
                }
                assert(before + lib@.take(d + 1) =~= (before + lib@.take(d as int)).push(
                    lib@[d as int],
                ));
                d += 1;
            }
            proof {
                assert(lib@.take(d as int) =~= lib@);
                lemma_catalog_step(self@, m as int);
            }
            m += 1;
        }
        assert(self@.take(m as int) =~= self@);
        Err(InvocationFailure::NotFound)
    }

    /// The name and kind of every procedure, in catalog order: a derive
    /// under its trait's name. It never fails; the result is a `Result` so
    /// that it can be used where `expand` is.
    pub fn list_macros(&self) -> (r: Result<Vec<(String, ProcMacroKind)>, InvocationFailure>)
        ensures
            r is Ok,
            listing_view(r->Ok_0@) == listing(self.catalog()),
    {
        let mut result: Vec<(String, ProcMacroKind)> = Vec::new();

        let mut m: usize = 0;
        while m < self.libs.len()
            invariant
                m <= self.libs.len(),
                listing_view(result@) == listing(self@.take(m as int).flatten()),
            decreases self.libs.len() - m,
        {
            let lib = &self.libs[m];
            let ghost before = self@.take(m as int).flatten();
            let mut d: usize = 0;
            while d < lib.len()
                invariant
                    m < self.libs.len(),
                    lib == &self.libs[m as int],
                    d <= lib@.len(),
                    before == self@.take(m as int).flatten(),
                    listing_view(result@) == listing(before + lib@.take(d as int)),
                decreases lib@.len() - d,
            {
                let proc_macro = lib.entry(d);
                let ghost listed = result@;
                result.push((proc_macro.name().clone(), proc_macro.kind()));
                proof {
                    assert(before + lib@.take(d + 1) =~= (before + lib@.take(d as int)).push(
                        lib@[d as int],
                    ));
                    assert(listing_view(result@) =~= listing_view(listed).push(
                        (lib@[d as int].name, lib@[d as int].kind),
                    ));
                    assert(listing(before + lib@.take(d + 1)) =~= listing(
                        before + lib@.take(d as int),
                    ).push((lib@[d as int].name, lib@[d as int].kind)));
                }
                d += 1;
            }
            proof {
                assert(lib@.take(d as int) =~= lib@);
                lemma_catalog_step(self@, m as int);
            }
            m += 1;
        }
        assert(self@.take(m as int) =~= self@);
        Ok(result)
    }
}

/// How many descriptors the modules hold between them.
pub open spec fn total_len<D>(modules: Seq<Seq<D>>) -> nat
    decreases modules.len(),
{
    if modules.len() == 0 {
        0
    } else {
        total_len(modules.drop_last()) + modules.last().len()
    }
}

/// The catalog holds every descriptor of every module once: it is as long
/// as the modules' descriptor counts add up to.
pub proof fn lemma_catalog_len<D>(modules: Seq<Seq<D>>)
    ensures
        modules.flatten().len() == total_len(modules),
    decreases modules.len(),
{
    if modules.len() > 0 {
        lemma_catalog_len(modules.drop_last());
        assert(modules =~= modules.drop_last().push(modules.last()));
        modules.drop_last().lemma_flatten_push(modules.last());
    }
}

/// The listing has as many entries as the modules hold descriptors between
/// them.
pub proof fn lemma_listing_len<C>(modules: Seq<Seq<Descriptor<C>>>)
    ensures
        listing(modules.flatten()).len() == total_len(modules),
{
    lemma_catalog_len(modules);
}

/// The catalog keeps load order and then declaration order: descriptor
/// `d` of module `m` stands behind all descriptors of the modules before
/// `m`, at distance `d`.
pub proof fn lemma_catalog_position<D>(modules: Seq<Seq<D>>, m: int, d: int)
    requires
        0 <= m < modules.len(),
        0 <= d < modules[m].len(),
    ensures
        total_len(modules.take(m)) + d < modules.flatten().len(),
        modules.flatten()[total_len(modules.take(m)) + d] == modules[m][d],
{
    lemma_catalog_len(modules.take(m));
    lemma_catalog_step(modules, m);
    lemma_catalog_split(modules, m);
}

/// The listing has one entry for each descriptor of the catalog, in the
/// same place, with that descriptor's name and kind.
pub proof fn lemma_listing_entries<C>(catalog: Seq<Descriptor<C>>)
    ensures
        listing(catalog).len() == catalog.len(),
        forall|i: int|
            0 <= i < catalog.len() ==> #[trigger] listing(catalog)[i] == (
                catalog[i].name,
                catalog[i].kind,
            ),
{
}

/// At most one descriptor is the first to answer to a name.
pub proof fn lemma_first_match_unique<C>(
    catalog: Seq<Descriptor<C>>,
    name: Seq<char>,
    a: int,
    b: int,
)
    requires
        is_first_match(catalog, name, a),
        is_first_match(catalog, name, b),
    ensures
        a == b,
{
    if a < b {
        assert(catalog.take(b)[a] == catalog[a]);
    }
    if b < a {
        assert(catalog.take(a)[b] == catalog[b]);
    }
}

/// Either no descriptor answers to a name or one of them is the first to:
/// a name that any module declares is always dispatched.
pub proof fn lemma_match_or_none<C>(catalog: Seq<Descriptor<C>>, name: Seq<char>)
    ensures
        no_match(catalog, name) || exists|at: int| #[trigger] is_first_match(catalog, name, at),
    decreases catalog.len(),
{
    if catalog.len() > 0 {
        let front = catalog.drop_last();
        let last = catalog.len() - 1;
        lemma_match_or_none(front, name);
        if no_match(front, name) {
            if catalog[last].name == name {
                assert(catalog.take(last) =~= front);
                assert(is_first_match(catalog, name, last));
            } else {
                assert forall|i: int| 0 <= i < catalog.len() implies (#[trigger] catalog[i]).name
                    != name by {
                    if i < last {
                        assert(front[i] == catalog[i]);
                    }
                }
            }
        } else {
            let at = choose|at: int| #[trigger] is_first_match(front, name, at);
            assert(front.take(at) =~= catalog.take(at));
            assert(front[at] == catalog[at]);
            assert(is_first_match(catalog, name, at));
        }
    }
}

/// A name is dispatched exactly if the listing shows it, and the procedure
/// that is run is of the kind that the listing shows first for that name.
pub proof fn lemma_listed_is_dispatched<C>(catalog: Seq<Descriptor<C>>, name: Seq<char>)
    ensures
        !no_match(catalog, name) <==> exists|i: int|
            0 <= i < listing(catalog).len() && (#[trigger] listing(catalog)[i]).0 == name,
        forall|at: int, body: SubtreeView, attributes: Option<SubtreeView>| #[trigger]
            is_first_match(catalog, name, at) ==> listing(catalog)[at] == (
                name,
                #[trigger] invocation_of(catalog[at], body, attributes).kind,
            ),
{
    lemma_listing_entries(catalog);
    if !no_match(catalog, name) {
        let i = choose|i: int| 0 <= i < catalog.len() && (#[trigger] catalog[i]).name == name;
        assert(listing(catalog)[i].0 == name);
    }
    if exists|i: int|
        0 <= i < listing(catalog).len() && (#[trigger] listing(catalog)[i]).0 == name {
        let i = choose|i: int|
            0 <= i < listing(catalog).len() && (#[trigger] listing(catalog)[i]).0 == name;
        assert(catalog[i].name == name);
    }
}

/// A derive or function-like procedure receives the body alone: whatever
/// attribute tokens come with the request make no difference to the call.
pub proof fn lemma_body_only<C>(
    descriptor: Descriptor<C>,
    body: SubtreeView,
    given: Option<SubtreeView>,
    other: Option<SubtreeView>,
)
    requires
        descriptor.kind != ProcMacroKind::Attr,
    ensures
        invocation_of(descriptor, body, given).inputs == seq![body],
        invocation_of(descriptor, body, given) == invocation_of(descriptor, body, other),
{
}

/// An attribute procedure receives two streams, the attribute tokens first
/// and the body second; without attribute tokens the first is empty.
pub proof fn lemma_attributes_then_body<C>(
    descriptor: Descriptor<C>,
    body: SubtreeView,
    attributes: SubtreeView,
)
    requires
        descriptor.kind == ProcMacroKind::Attr,
    ensures
        invocation_of(descriptor, body, Some(attributes)).inputs == seq![attributes, body],
        invocation_of(descriptor, body, None).inputs == seq![empty_subtree(), body],
{
}

} // verus!
