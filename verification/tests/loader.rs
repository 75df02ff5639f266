use proc_macro_loader::loader::{
    load_flags, require_registrar_symbol, LoadFailure, LoaderOutcome, RTLD_DEEPBIND, RTLD_NOW,
};
use proc_macro_loader::registry::{ProcMacro, ProcMacroLibrary};
use proc_macro_loader::symbol::ParseError;

#[test]
fn load_flags_ask_for_immediate_and_deep_binding() {
    assert_eq!(RTLD_NOW, 2);
    assert_eq!(RTLD_DEEPBIND, 8);
    assert_eq!(load_flags(), 10);
}

#[test]
fn found_symbol_is_the_one_to_resolve() {
    assert_eq!(
        require_registrar_symbol(
            "/lib/libmacros.so",
            Ok(Some("__rustc_proc_macro_decls_1__".to_string()))
        ),
        Ok("__rustc_proc_macro_decls_1__".to_string())
    );
}

#[test]
fn binary_without_symbol_is_no_module() {
    assert_eq!(
        require_registrar_symbol("/lib/libc.so.6", Ok(None)),
        Err(LoadFailure::SymbolNotFound { file: "/lib/libc.so.6".to_string() })
    );
}

#[test]
fn unreadable_binary_is_no_module() {
    let error = ParseError { message: "Invalid magic number: 0x0".to_string() };
    assert_eq!(
        require_registrar_symbol(
            "/lib/broken.so",
            Err(ParseError { message: "Invalid magic number: 0x0".to_string() })
        ),
        Err(LoadFailure::Parse(error))
    );
}

#[test]
fn report_of_a_parse_failure_is_the_readers_message() {
    let failure = LoadFailure::Parse(ParseError { message: "Malformed entity: x".to_string() });
    assert_eq!(failure.report(), "Malformed entity: x");
}

#[test]
fn report_of_a_missing_symbol_names_the_file() {
    let failure = LoadFailure::SymbolNotFound { file: "\"/lib/libc.so.6\"".to_string() };
    assert_eq!(failure.report(), "Cannot find registrar symbol in file \"/lib/libc.so.6\"");
}

#[test]
fn report_of_a_missing_symbol_shows_the_file_as_it_was_given() {
    let failure = LoadFailure::SymbolNotFound { file: "\"it\\\'s here\"".to_string() };
    assert_eq!(failure.report(), "Cannot find registrar symbol in file \"it\\\'s here\"");
    let failure = LoadFailure::SymbolNotFound { file: String::new() };
    assert_eq!(failure.report(), "Cannot find registrar symbol in file ");
}

#[test]
fn report_of_a_path_that_is_not_there_names_path_and_cause() {
    let failure = LoadFailure::Canonicalize {
        file: "\"./missing.so\"".to_string(),
        cause: "No such file or directory (os error 2)".to_string(),
    };
    assert_eq!(
        failure.report(),
        "Cannot canonicalize \"./missing.so\": No such file or directory (os error 2)"
    );
}

#[test]
fn report_of_a_rejected_load_is_the_loaders_cause() {
    let failure = LoadFailure::Load {
        path: "/lib/libmacros.so".to_string(),
        cause: "wrong ELF class: ELFCLASS32".to_string(),
    };
    assert_eq!(failure.report(), "wrong ELF class: ELFCLASS32");
}

#[test]
fn report_of_a_failed_extraction_is_the_lookup_message() {
    let failure = LoadFailure::Extraction { message: "undefined symbol".to_string() };
    assert_eq!(failure.report(), "undefined symbol");
}

#[test]
fn open_of_a_rejected_load_fails_with_path_and_cause() {
    let outcome: LoaderOutcome<u8, u8> =
        LoaderOutcome::Rejected { cause: "permission denied".to_string() };
    assert_eq!(
        ProcMacroLibrary::open("/lib/libmacros.so", outcome).unwrap_err(),
        LoadFailure::Load {
            path: "/lib/libmacros.so".to_string(),
            cause: "permission denied".to_string(),
        }
    );
}

#[test]
fn open_of_an_unresolved_symbol_fails_with_the_lookup_message() {
    let outcome: LoaderOutcome<u8, u8> =
        LoaderOutcome::Unresolved { lib: 1, message: "undefined symbol: decls".to_string() };
    assert_eq!(
        ProcMacroLibrary::open("/lib/libmacros.so", outcome).unwrap_err(),
        LoadFailure::Extraction { message: "undefined symbol: decls".to_string() }
    );
}

#[test]
fn open_of_an_extracted_registry_is_a_module_in_registry_order() {
    let outcome: LoaderOutcome<u8, u8> = LoaderOutcome::Extracted {
        lib: 1,
        exported_macros: vec![
            ProcMacro::Bang { name: "second_declared_first".to_string(), client: 2 },
            ProcMacro::Attr { name: "first_declared_second".to_string(), client: 1 },
        ],
    };
    let library = ProcMacroLibrary::open("/lib/libmacros.so", outcome).unwrap();
    assert_eq!(library.len(), 2);
    assert_eq!(
        library.get(0),
        Some(&ProcMacro::Bang { name: "second_declared_first".to_string(), client: 2 })
    );
    assert_eq!(
        library.get(1),
        Some(&ProcMacro::Attr { name: "first_declared_second".to_string(), client: 1 })
    );
    assert_eq!(library.get(2), None);
}
