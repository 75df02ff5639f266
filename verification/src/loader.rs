//! The steps of loading a module, and what can go wrong in each.

use vstd::prelude::*;
use vstd::string::StringExecFns;
use crate::registry::{descriptors, ProcMacro, ProcMacroLibrary};
use crate::symbol::{find_registrar_symbol, registrar_symbol_of, search_outcome, ParseError};

verus! {

/// Loader flag: resolve every symbol reference while loading.
pub const RTLD_NOW: i32 = 0x00002;

/// Loader flag: let the module's references bind to its own symbols before
/// any of the same name that the process already holds.
pub const RTLD_DEEPBIND: i32 = 0x00008;

/// The flags with which a Unix loader is to open a module: both of the above.
pub fn load_flags() -> (flags: i32)
    ensures
        flags == 0x0000a,
        flags & RTLD_NOW == RTLD_NOW,
        flags & RTLD_DEEPBIND == RTLD_DEEPBIND,
{
    let flags: i32 = RTLD_NOW | RTLD_DEEPBIND;
    assert(0x00002i32 | 0x00008i32 == 0x0000ai32) by (bit_vector);
    assert(0x0000ai32 & 0x00002i32 == 0x00002i32) by (bit_vector);
    assert(0x0000ai32 & 0x00008i32 == 0x00008i32) by (bit_vector);
    flags
}

/// Why a module could not be loaded.
#[derive(Debug, PartialEq, Eq)]
pub enum LoadFailure {
    /// The path of the binary could not be made canonical. `file` names the
    /// binary the way a report is to show it.
    Canonicalize { file: String, cause: String },
    /// The binary could not be read as the container it claims to be.
    Parse(ParseError),
    /// The binary could be read and exports no registrar symbol. `file`
    /// names the binary the way a report is to show it.
    SymbolNotFound { file: String },
    /// The native loader rejected the file.
    Load { path: String, cause: String },
    /// The registrar symbol could not be resolved to a registry.
    Extraction { message: String },
}

/// The report of a binary without a registrar symbol. `file` names the
/// binary the way the report is to show it.
pub open spec fn symbol_not_found_text(file: Seq<char>) -> Seq<char> {
    "Cannot find registrar symbol in file "@ + file
}

/// The report of a path that could not be made canonical.
pub open spec fn canonicalize_text(file: Seq<char>, cause: Seq<char>) -> Seq<char> {
    "Cannot canonicalize "@ + file + ": "@ + cause
}

/// What a failure is: its kind, with texts in place of strings.
pub enum FailureModel {
    Canonicalize { file: Seq<char>, cause: Seq<char> },
    Parse { message: Seq<char> },
    SymbolNotFound { file: Seq<char> },
    Load { path: Seq<char>, cause: Seq<char> },
    Extraction { message: Seq<char> },
}

impl View for LoadFailure {
    type V = FailureModel;

    open spec fn view(&self) -> FailureModel {
        match *self {
            LoadFailure::Canonicalize { file, cause } => FailureModel::Canonicalize {
                file: file@,
                cause: cause@,
            },
            LoadFailure::Parse(error) => FailureModel::Parse { message: error.message@ },
            LoadFailure::SymbolNotFound { file } => FailureModel::SymbolNotFound { file: file@ },
            LoadFailure::Load { path, cause } => FailureModel::Load {
                path: path@,
                cause: cause@,
            },
            LoadFailure::Extraction { message } => FailureModel::Extraction {
                message: message@,
            },
        }
    }
}

/// The one text under which a failure of any kind is reported.
pub open spec fn report_text(failure: FailureModel) -> Seq<char> {
    match failure {
        FailureModel::Canonicalize { file, cause } => canonicalize_text(file, cause),
        FailureModel::Parse { message } => message,
        FailureModel::SymbolNotFound { file } => symbol_not_found_text(file),
        FailureModel::Load { path, cause } => cause,
        FailureModel::Extraction { message } => message,
    }
}

impl LoadFailure {
    /// The one text under which this failure is reported.
    pub fn report(&self) -> (text: String)
        ensures
            text@ == report_text(self@),
    {
        match self {
            LoadFailure::Canonicalize { file, cause } => String::from_str(
                "Cannot canonicalize ",
            ).concat(file.as_str()).concat(": ").concat(cause.as_str()),
            LoadFailure::Parse(error) => error.message.clone(),
            LoadFailure::SymbolNotFound { file } => String::from_str(
                "Cannot find registrar symbol in file ",
            ).concat(file.as_str()),
            LoadFailure::Load { cause, .. } => cause.clone(),
            LoadFailure::Extraction { message } => message.clone(),
        }
    }
}

/// What the search of `file` leads to: the symbol to resolve, or the failure
/// to report.
pub open spec fn registrar_or_failure(
    file: Seq<char>,
    located: Result<Option<Seq<char>>, Seq<char>>,
) -> Result<Seq<char>, FailureModel> {
    match located {
        Ok(Some(name)) => Ok(name),
        Ok(None) => Err(FailureModel::SymbolNotFound { file }),
        Err(message) => Err(FailureModel::Parse { message }),
    }
}

/// What a symbol name or a failure is.
pub open spec fn symbol_outcome(outcome: Result<String, LoadFailure>) -> Result<
    Seq<char>,
    FailureModel,
> {
    match outcome {
        Ok(name) => Ok(name@),
        Err(failure) => Err(failure@),
    }
}

/// Decides from the search of a binary how loading goes on: with the symbol
/// that was found, or not at all. A binary without a registrar symbol is no
/// module, and neither is one that could not be read. `file` names the
/// binary the way a report is to show it.
pub fn require_registrar_symbol(file: &str, located: Result<Option<String>, ParseError>) -> (r:
    Result<String, LoadFailure>)
    ensures
        symbol_outcome(r) == registrar_or_failure(file@, search_outcome(located)),
{
    match located {
        Ok(Some(symbol_name)) => Ok(symbol_name),
        Ok(None) => Err(LoadFailure::SymbolNotFound { file: file.to_owned() }),
        Err(error) => Err(LoadFailure::Parse(error)),
    }
}

/// The first step of loading a binary whose bytes are `buffer`: the name of
/// the symbol to resolve once the module is in memory. `file` names the
/// binary the way a report is to show it.
pub fn locate_registrar_symbol(file: &str, buffer: &[u8]) -> (r: Result<String, LoadFailure>)
    ensures
        symbol_outcome(r) == registrar_or_failure(file@, registrar_symbol_of(buffer@)),
{
    require_registrar_symbol(file, find_registrar_symbol(buffer))
}

/// What the native side answered when asked to load a file and to copy the
/// registry out of it.
#[derive(Debug)]
pub enum LoaderOutcome<L, C> {
    /// The loader rejected the file.
    Rejected { cause: String },
    /// The file was loaded, and the registrar symbol could not be resolved
    /// in it.
    Unresolved { lib: L, message: String },
    /// The file was loaded and its registry copied out.
    Extracted { lib: L, exported_macros: Vec<ProcMacro<C>> },
}

impl<L, C> ProcMacroLibrary<L, C> {
    /// The last step of loading the file at `path`: a module, if the native
    /// side got as far as the registry, and else the failure. A library that
    /// was loaded in vain is let go of here.
    pub fn open(path: &str, outcome: LoaderOutcome<L, C>) -> (r: Result<Self, LoadFailure>)
        ensures
            match outcome {
                LoaderOutcome::Rejected { cause } => r matches Err(failure) && failure@
                    == (FailureModel::Load { path: path@, cause: cause@ }),
                LoaderOutcome::Unresolved { lib, message } => r matches Err(failure) && failure@
                    == (FailureModel::Extraction { message: message@ }),
                LoaderOutcome::Extracted { lib, exported_macros } => r matches Ok(library)
                    && library.handle() == lib && library@ == descriptors(exported_macros@),
            },
    {
        match outcome {
            LoaderOutcome::Rejected { cause } => Err(
                LoadFailure::Load { path: path.to_owned(), cause },
            ),
            LoaderOutcome::Unresolved { message, .. } => Err(LoadFailure::Extraction { message }),
            LoaderOutcome::Extracted { lib, exported_macros } => Ok(
                ProcMacroLibrary::new(lib, exported_macros),
            ),
        }
    }
}

} // verus!
