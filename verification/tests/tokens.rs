use proc_macro_loader::tokens::{
    Delimiter, DelimiterKind, Ident, Leaf, Literal, Punct, Spacing, Subtree, TokenId, TokenStream,
    TokenTree,
};

fn nested(depth: u32) -> Subtree {
    let mut tree = Subtree {
        delimiter: Some(Delimiter { id: TokenId(0), kind: DelimiterKind::Bracket }),
        token_trees: vec![TokenTree::Leaf(Leaf::Literal(Literal {
            text: "\"innermost\"".to_string(),
            id: TokenId(0),
        }))],
    };
    for level in 1..=depth {
        tree = Subtree {
            delimiter: if level % 2 == 0 {
                None
            } else {
                Some(Delimiter { id: TokenId(level), kind: DelimiterKind::Parenthesis })
            },
            token_trees: vec![
                TokenTree::Leaf(Leaf::Ident(Ident {
                    text: format!("level{}", level),
                    id: TokenId(level),
                })),
                TokenTree::Subtree(tree),
                TokenTree::Leaf(Leaf::Punct(Punct {
                    char: ';',
                    spacing: Spacing::Joint,
                    id: TokenId(level),
                })),
            ],
        };
    }
    tree
}

#[test]
fn clone_of_a_subtree_is_the_same_tree() {
    for depth in 0..6 {
        let tree = nested(depth);
        assert_eq!(tree.clone(), tree);
    }
}

#[test]
fn clone_of_a_subtree_is_a_tree_of_its_own() {
    let tree = nested(2);
    let mut copy = tree.clone();
    copy.token_trees.pop();
    copy.delimiter = Some(Delimiter { id: TokenId(99), kind: DelimiterKind::Brace });
    assert_eq!(tree, nested(2));
    assert_ne!(copy, tree);
}

#[test]
fn clone_of_each_leaf_is_the_same_leaf() {
    let leaves = vec![
        Leaf::Literal(Literal { text: "1.5e3".to_string(), id: TokenId(1) }),
        Leaf::Punct(Punct { char: '#', spacing: Spacing::Alone, id: TokenId(2) }),
        Leaf::Ident(Ident { text: "naïve".to_string(), id: TokenId(u32::MAX) }),
    ];
    for leaf in leaves {
        assert_eq!(leaf.clone(), leaf);
        let tree = TokenTree::Leaf(leaf);
        assert_eq!(tree.clone(), tree);
    }
}

#[test]
fn clone_of_an_empty_subtree_is_empty() {
    let tree = Subtree { delimiter: None, token_trees: vec![] };
    assert_eq!(tree.clone(), Subtree { delimiter: None, token_trees: vec![] });
}

#[test]
fn new_stream_holds_nothing() {
    let stream = TokenStream::new();
    assert_eq!(stream.subtree.delimiter, None);
    assert!(stream.subtree.token_trees.is_empty());
}

#[test]
fn stream_with_subtree_holds_that_subtree() {
    let stream = TokenStream::with_subtree(nested(3));
    assert_eq!(stream.subtree, nested(3));
    assert_eq!(stream.clone(), stream);
    assert_ne!(stream, TokenStream::new());
}
