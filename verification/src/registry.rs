//! What a loaded module offers: its procedure descriptors, in the order it declares them.

use vstd::prelude::*;

verus! {

/// The three ways a procedure can be invoked.
#[derive(Clone, Copy, Debug, PartialEq, Eq, Hash)]
pub enum ProcMacroKind {
    CustomDerive,
    FuncLike,
    Attr,
}

/// One procedure that a module exports. `client` is the module's own handle
/// for calling it; nothing here looks inside it.
#[derive(Debug, PartialEq, Eq)]
pub enum ProcMacro<C> {
    CustomDerive { trait_name: String, client: C },
    Bang { name: String, client: C },
    Attr { name: String, client: C },
}

/// What a descriptor is to the dispatch: its kind, the name it answers to,
/// and its handle.
pub struct Descriptor<C> {
    pub kind: ProcMacroKind,
    pub name: Seq<char>,
    pub client: C,
}

impl<C> View for ProcMacro<C> {
    type V = Descriptor<C>;

    open spec fn view(&self) -> Descriptor<C> {
        match *self {
            ProcMacro::CustomDerive { trait_name, client } => Descriptor {
                kind: ProcMacroKind::CustomDerive,
                name: trait_name@,
                client,
            },
            ProcMacro::Bang { name, client } => Descriptor {
                kind: ProcMacroKind::FuncLike,
                name: name@,
                client,
            },
            ProcMacro::Attr { name, client } => Descriptor {
                kind: ProcMacroKind::Attr,
                name: name@,
                client,
            },
        }
    }
}

impl<C> ProcMacro<C> {
    /// The way this procedure is invoked.
    pub fn kind(&self) -> (kind: ProcMacroKind)
        ensures
            kind == self@.kind,
    {
        match self {
            ProcMacro::CustomDerive { .. } => ProcMacroKind::CustomDerive,
            ProcMacro::Bang { .. } => ProcMacroKind::FuncLike,
            ProcMacro::Attr { .. } => ProcMacroKind::Attr,
        }
    }

    /// The name this procedure answers to: the trait's name for a derive,
    /// its own name otherwise.
    pub fn name(&self) -> (name: &String)
        ensures
            name@ == self@.name,
    {
        match self {
            ProcMacro::CustomDerive { trait_name, .. } => trait_name,
            ProcMacro::Bang { name, .. } => name,
            ProcMacro::Attr { name, .. } => name,
        }
    }

    /// The handle through which the module runs this procedure.
    pub fn client(&self) -> (client: &C)
        ensures
            *client == self@.client,
    {
        match self {
            ProcMacro::CustomDerive { client, .. } => client,
            ProcMacro::Bang { client, .. } => client,
            ProcMacro::Attr { client, .. } => client,
        }
    }
}

/// What a list of descriptors is, descriptor by descriptor.
pub open spec fn descriptors<C>(macros: Seq<ProcMacro<C>>) -> Seq<Descriptor<C>> {
    macros.map_values(|descriptor: ProcMacro<C>| descriptor@)
}

/// A loaded module: the handle that keeps its code in memory, and the
/// descriptors copied out of its registry. The handle is held for as long
/// as the descriptors are, since what they call lives in that code.
#[derive(Debug)]
pub struct ProcMacroLibrary<L, C> {
    _lib: L,
    exported_macros: Vec<ProcMacro<C>>,
}

impl<L, C> View for ProcMacroLibrary<L, C> {
    type V = Seq<Descriptor<C>>;

    /// The module's descriptors, in the order it declares them.
    closed spec fn view(&self) -> Seq<Descriptor<C>> {
        descriptors(self.exported_macros@)
    }
}

impl<L, C> ProcMacroLibrary<L, C> {
    /// The handle that this module owns.
    pub closed spec fn handle(&self) -> L {
        self._lib
    }

    /// Pairs a library handle with the descriptors extracted from it.
    pub fn new(lib: L, exported_macros: Vec<ProcMacro<C>>) -> (library: Self)
        ensures
            library.handle() == lib,
            library@ == descriptors(exported_macros@),
    {
        ProcMacroLibrary { _lib: lib, exported_macros }
    }

    /// How many procedures the module declares.
    pub fn len(&self) -> (n: usize)
        ensures
            n == self@.len(),
    {
        self.exported_macros.len()
    }

    /// The `index`-th procedure the module declares, if it declares that
    /// many.
    pub fn get(&self, index: usize) -> (descriptor: Option<&ProcMacro<C>>)
        ensures
            match descriptor {
                Some(descriptor) => index < self@.len() && descriptor@ == self@[index as int],
                None => index >= self@.len(),
            },
    {
        if index < self.exported_macros.len() {
            Some(&self.exported_macros[index])
        } else {
            None
        }
    }

    /// The `index`-th procedure the module declares.
    pub(crate) fn entry(&self, index: usize) -> (descriptor: &ProcMacro<C>)
        requires
            index < self@.len(),
        ensures
            descriptor@ == self@[index as int],
    {
        &self.exported_macros[index]
    }
}

} // verus!
