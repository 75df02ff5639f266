use proc_macro_loader::expander::{
    expansion_result, Expander, Invocation, InvocationFailure, PanicMessage,
};
use proc_macro_loader::loader::LoadFailure;
use proc_macro_loader::registry::{ProcMacro, ProcMacroKind, ProcMacroLibrary};
use proc_macro_loader::symbol::ParseError;
use proc_macro_loader::tokens::{
    Delimiter, DelimiterKind, Ident, Leaf, Literal, Punct, Spacing, Subtree, TokenId, TokenStream,
    TokenTree,
};

fn ident(text: &str, id: u32) -> TokenTree {
    TokenTree::Leaf(Leaf::Ident(Ident { text: text.to_string(), id: TokenId(id) }))
}

fn literal(text: &str, id: u32) -> TokenTree {
    TokenTree::Leaf(Leaf::Literal(Literal { text: text.to_string(), id: TokenId(id) }))
}

fn punct(char: char, id: u32) -> TokenTree {
    TokenTree::Leaf(Leaf::Punct(Punct { char, spacing: Spacing::Alone, id: TokenId(id) }))
}

/// `struct S { x: 1 }`
fn body() -> Subtree {
    let fields = Subtree {
        delimiter: Some(Delimiter { id: TokenId(3), kind: DelimiterKind::Brace }),
        token_trees: vec![ident("x", 4), punct(':', 5), literal("1", 6)],
    };
    Subtree {
        delimiter: None,
        token_trees: vec![ident("struct", 1), ident("S", 2), TokenTree::Subtree(fields)],
    }
}

/// `(skip)`
fn attrs() -> Subtree {
    Subtree {
        delimiter: Some(Delimiter { id: TokenId(7), kind: DelimiterKind::Parenthesis }),
        token_trees: vec![ident("skip", 8)],
    }
}

fn empty() -> Subtree {
    Subtree { delimiter: None, token_trees: vec![] }
}

fn derive(trait_name: &str, client: u32) -> ProcMacro<u32> {
    ProcMacro::CustomDerive { trait_name: trait_name.to_string(), client }
}

fn bang(name: &str, client: u32) -> ProcMacro<u32> {
    ProcMacro::Bang { name: name.to_string(), client }
}

fn attr(name: &str, client: u32) -> ProcMacro<u32> {
    ProcMacro::Attr { name: name.to_string(), client }
}

fn expander(macros: Vec<ProcMacro<u32>>) -> Expander<&'static str, u32> {
    Expander::new(Ok(ProcMacroLibrary::new("handle", macros))).unwrap()
}

fn sample() -> Expander<&'static str, u32> {
    expander(vec![derive("Foo", 10), bang("make", 20), attr("bar", 30), derive("Baz", 40)])
}

#[test]
fn expand_custom_derive_receives_only_the_body() {
    let expander = sample();
    let invocation = expander.expand("Foo", &body(), None);
    assert_eq!(
        invocation,
        Ok(Invocation::CustomDerive { client: &10, body: TokenStream { subtree: body() } })
    );
}

#[test]
fn expand_custom_derive_ignores_attributes() {
    let expander = sample();
    let with = expander.expand("Foo", &body(), Some(&attrs()));
    let without = expander.expand("Foo", &body(), None);
    assert_eq!(with, without);
    assert_eq!(
        with,
        Ok(Invocation::CustomDerive { client: &10, body: TokenStream { subtree: body() } })
    );
}

#[test]
fn expand_function_like_receives_only_the_body() {
    let expander = sample();
    assert_eq!(
        expander.expand("make", &body(), Some(&attrs())),
        Ok(Invocation::Bang { client: &20, body: TokenStream { subtree: body() } })
    );
    assert_eq!(
        expander.expand("make", &empty(), None),
        Ok(Invocation::Bang { client: &20, body: TokenStream { subtree: empty() } })
    );
}

#[test]
fn expand_attribute_receives_attributes_then_body() {
    let expander = sample();
    assert_eq!(
        expander.expand("bar", &body(), Some(&attrs())),
        Ok(Invocation::Attr {
            client: &30,
            attributes: TokenStream { subtree: attrs() },
            body: TokenStream { subtree: body() },
        })
    );
}

#[test]
fn expand_attribute_without_attributes_receives_an_empty_stream() {
    let expander = sample();
    assert_eq!(
        expander.expand("bar", &body(), None),
        Ok(Invocation::Attr {
            client: &30,
            attributes: TokenStream::new(),
            body: TokenStream { subtree: body() },
        })
    );
    assert_eq!(TokenStream::new(), TokenStream { subtree: empty() });
}

#[test]
fn expand_missing_is_not_found_and_the_expander_stays_usable() {
    let expander = sample();
    assert_eq!(expander.expand("missing", &body(), None), Err(InvocationFailure::NotFound));
    assert_eq!(expander.expand("missing", &body(), None), Err(InvocationFailure::NotFound));
    assert_eq!(
        expander.expand("Baz", &body(), None),
        Ok(Invocation::CustomDerive { client: &40, body: TokenStream { subtree: body() } })
    );
}

#[test]
fn expand_matches_the_whole_name_exactly() {
    let expander = sample();
    assert_eq!(expander.expand("", &body(), None), Err(InvocationFailure::NotFound));
    assert_eq!(expander.expand("foo", &body(), None), Err(InvocationFailure::NotFound));
    assert_eq!(expander.expand("Fo", &body(), None), Err(InvocationFailure::NotFound));
    assert_eq!(expander.expand("Foo ", &body(), None), Err(InvocationFailure::NotFound));
    assert_eq!(expander.expand("barbar", &body(), None), Err(InvocationFailure::NotFound));
}

#[test]
fn expand_takes_the_first_descriptor_of_that_name() {
    let expander = expander(vec![
        bang("other", 1),
        attr("twice", 2),
        derive("twice", 3),
        bang("twice", 4),
    ]);
    assert_eq!(
        expander.expand("twice", &body(), Some(&attrs())),
        Ok(Invocation::Attr {
            client: &2,
            attributes: TokenStream { subtree: attrs() },
            body: TokenStream { subtree: body() },
        })
    );
    let expander = expander_of_derive_first();
    assert_eq!(
        expander.expand("twice", &body(), Some(&attrs())),
        Ok(Invocation::CustomDerive { client: &3, body: TokenStream { subtree: body() } })
    );
}

fn expander_of_derive_first() -> Expander<&'static str, u32> {
    expander(vec![derive("twice", 3), attr("twice", 2)])
}

#[test]
fn expand_on_a_module_without_procedures_is_not_found() {
    let expander = expander(vec![]);
    assert_eq!(expander.expand("Foo", &body(), None), Err(InvocationFailure::NotFound));
    assert_eq!(expander.list_macros(), Ok(vec![]));
}

#[test]
fn expand_leaves_its_arguments_as_they_were() {
    let expander = sample();
    let macro_body = body();
    let attributes = attrs();
    let _ = expander.expand("bar", &macro_body, Some(&attributes));
    assert_eq!(macro_body, body());
    assert_eq!(attributes, attrs());
}

#[test]
fn list_macros_follows_declaration_order_with_kinds() {
    let expander = sample();
    assert_eq!(
        expander.list_macros(),
        Ok(vec![
            ("Foo".to_string(), ProcMacroKind::CustomDerive),
            ("make".to_string(), ProcMacroKind::FuncLike),
            ("bar".to_string(), ProcMacroKind::Attr),
            ("Baz".to_string(), ProcMacroKind::CustomDerive),
        ])
    );
}

#[test]
fn list_macros_has_one_entry_for_each_descriptor() {
    let macros = vec![attr("a", 1), attr("a", 2), bang("a", 3), derive("b", 4), bang("c", 5)];
    let count = macros.len();
    let listed = expander(macros).list_macros().unwrap();
    assert_eq!(listed.len(), count);
    assert_eq!(listed[0], ("a".to_string(), ProcMacroKind::Attr));
    assert_eq!(listed[1], ("a".to_string(), ProcMacroKind::Attr));
    assert_eq!(listed[2], ("a".to_string(), ProcMacroKind::FuncLike));
    assert_eq!(listed[3], ("b".to_string(), ProcMacroKind::CustomDerive));
    assert_eq!(listed[4], ("c".to_string(), ProcMacroKind::FuncLike));
}

#[test]
fn list_macros_gives_the_same_answer_every_time() {
    let expander = sample();
    let first = expander.list_macros();
    let _ = expander.expand("missing", &body(), None);
    let _ = expander.expand("Foo", &body(), None);
    assert_eq!(expander.list_macros(), first);
}

#[test]
fn every_listed_name_is_dispatched_to_the_listed_kind() {
    let expander = sample();
    for (name, kind) in expander.list_macros().unwrap() {
        let dispatched = match expander.expand(&name, &body(), None).unwrap() {
            Invocation::CustomDerive { .. } => ProcMacroKind::CustomDerive,
            Invocation::Bang { .. } => ProcMacroKind::FuncLike,
            Invocation::Attr { .. } => ProcMacroKind::Attr,
        };
        assert_eq!(dispatched, kind);
    }
}

#[test]
fn failed_procedure_keeps_its_message() {
    let expander = sample();
    let invocation = expander.expand("Foo", &body(), None);
    assert!(invocation.is_ok());
    let failed = expansion_result(Err(PanicMessage::String("derive exploded: 42".to_string())));
    assert_eq!(
        failed,
        Err(InvocationFailure::Failed(PanicMessage::String("derive exploded: 42".to_string())))
    );
    match failed {
        Err(InvocationFailure::Failed(message)) => {
            assert_eq!(message.as_str(), Some("derive exploded: 42"))
        }
        _ => panic!("a failure was expected"),
    }
    // The expander is as it was.
    assert_eq!(
        expander.expand("make", &body(), None),
        Ok(Invocation::Bang { client: &20, body: TokenStream { subtree: body() } })
    );
    assert_eq!(expansion_result(Ok(TokenStream { subtree: attrs() })), Ok(attrs()));
}

#[test]
fn failure_without_text_stays_without_text() {
    assert_eq!(
        expansion_result(Err(PanicMessage::Unknown)),
        Err(InvocationFailure::Failed(PanicMessage::Unknown))
    );
    assert_eq!(
        expansion_result(Err(PanicMessage::StaticStr("fixed"))),
        Err(InvocationFailure::Failed(PanicMessage::StaticStr("fixed")))
    );
    assert_ne!(
        expansion_result(Err(PanicMessage::Unknown)),
        Err(InvocationFailure::NotFound)
    );
}

#[test]
fn successful_procedure_gives_the_subtree_of_its_stream() {
    assert_eq!(expansion_result(Ok(TokenStream::with_subtree(body()))), Ok(body()));
    assert_eq!(expansion_result(Ok(TokenStream::new())), Ok(empty()));
}

#[test]
fn panic_message_text() {
    assert_eq!(PanicMessage::StaticStr("fixed").as_str(), Some("fixed"));
    assert_eq!(PanicMessage::String("made".to_string()).as_str(), Some("made"));
    assert_eq!(PanicMessage::String(String::new()).as_str(), Some(""));
    assert_eq!(PanicMessage::Unknown.as_str(), None);
}

#[test]
fn not_found_as_a_panic_message() {
    assert_eq!(
        InvocationFailure::NotFound.into_panic_message(),
        PanicMessage::String("Nothing to expand".to_string())
    );
    assert_eq!(
        InvocationFailure::Failed(PanicMessage::Unknown).into_panic_message(),
        PanicMessage::Unknown
    );
    assert_eq!(
        InvocationFailure::Failed(PanicMessage::String("x".to_string())).into_panic_message(),
        PanicMessage::String("x".to_string())
    );
}

#[test]
fn new_from_a_failed_load_gives_no_expander() {
    let failures = vec![
        (
            LoadFailure::Parse(ParseError { message: "Malformed entity: too short".to_string() }),
            "Malformed entity: too short",
        ),
        (
            LoadFailure::SymbolNotFound { file: "\"/opt/lib/libplain.so\"".to_string() },
            "Cannot find registrar symbol in file \"/opt/lib/libplain.so\"",
        ),
        (
            LoadFailure::Canonicalize {
                file: "\"/nonexistent/libmacros.so\"".to_string(),
                cause: "No such file or directory (os error 2)".to_string(),
            },
            "Cannot canonicalize \"/nonexistent/libmacros.so\": No such file or directory (os error 2)",
        ),
        (
            LoadFailure::Load {
                path: "/nonexistent/libmacros.so".to_string(),
                cause: "/nonexistent/libmacros.so: cannot open shared object file".to_string(),
            },
            "/nonexistent/libmacros.so: cannot open shared object file",
        ),
        (
            LoadFailure::Extraction { message: "undefined symbol: __decls".to_string() },
            "undefined symbol: __decls",
        ),
    ];
    for (failure, report) in failures {
        let built: Result<Expander<&'static str, u32>, String> = Expander::new(Err(failure));
        assert_eq!(built.unwrap_err(), report);
    }
}

#[test]
fn new_from_a_loaded_module_serves_its_procedures() {
    let library = ProcMacroLibrary::new("handle", vec![derive("Only", 7)]);
    assert_eq!(library.len(), 1);
    assert_eq!(library.get(0), Some(&derive("Only", 7)));
    assert_eq!(library.get(1), None);
    let expander = Expander::new(Ok(library)).unwrap();
    assert_eq!(
        expander.list_macros(),
        Ok(vec![("Only".to_string(), ProcMacroKind::CustomDerive)])
    );
    assert_eq!(
        expander.expand("Only", &empty(), None),
        Ok(Invocation::CustomDerive { client: &7, body: TokenStream::new() })
    );
}

#[test]
fn descriptor_parts() {
    let d = derive("Serialize", 1);
    assert_eq!(d.kind(), ProcMacroKind::CustomDerive);
    assert_eq!(d.name(), "Serialize");
    assert_eq!(d.client(), &1);
    let b = bang("vec_of", 2);
    assert_eq!(b.kind(), ProcMacroKind::FuncLike);
    assert_eq!(b.name(), "vec_of");
    assert_eq!(b.client(), &2);
    let a = attr("route", 3);
    assert_eq!(a.kind(), ProcMacroKind::Attr);
    assert_eq!(a.name(), "route");
    assert_eq!(a.client(), &3);
}

fn two_modules() -> Expander<&'static str, u32> {
    Expander::with_libraries(vec![
        ProcMacroLibrary::new("first", vec![derive("Foo", 1), attr("shared", 2)]),
        ProcMacroLibrary::new("empty", vec![]),
        ProcMacroLibrary::new("second", vec![bang("shared", 3), derive("Foo", 4), bang("late", 5)]),
    ])
}

#[test]
fn expand_searches_modules_in_load_order() {
    let expander = two_modules();
    assert_eq!(
        expander.expand("shared", &body(), Some(&attrs())),
        Ok(Invocation::Attr {
            client: &2,
            attributes: TokenStream { subtree: attrs() },
            body: TokenStream { subtree: body() },
        })
    );
    assert_eq!(
        expander.expand("Foo", &body(), None),
        Ok(Invocation::CustomDerive { client: &1, body: TokenStream { subtree: body() } })
    );
    assert_eq!(
        expander.expand("late", &body(), None),
        Ok(Invocation::Bang { client: &5, body: TokenStream { subtree: body() } })
    );
    assert_eq!(expander.expand("never", &body(), None), Err(InvocationFailure::NotFound));
}

#[test]
fn list_macros_lists_modules_in_load_order() {
    let listed = two_modules().list_macros().unwrap();
    assert_eq!(
        listed,
        vec![
            ("Foo".to_string(), ProcMacroKind::CustomDerive),
            ("shared".to_string(), ProcMacroKind::Attr),
            ("shared".to_string(), ProcMacroKind::FuncLike),
            ("Foo".to_string(), ProcMacroKind::CustomDerive),
            ("late".to_string(), ProcMacroKind::FuncLike),
        ]
    );
    assert_eq!(listed.len(), 2 + 0 + 3);
}

#[test]
fn expander_without_modules_serves_nothing() {
    let expander: Expander<&'static str, u32> = Expander::with_libraries(vec![]);
    assert_eq!(expander.list_macros(), Ok(vec![]));
    assert_eq!(expander.expand("Foo", &body(), None), Err(InvocationFailure::NotFound));
}
