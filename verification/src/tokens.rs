//! Token trees: the values that go into and come out of a procedure.

use vstd::prelude::*;

verus! {

/// Where in the source a token came from.
#[derive(Clone, Copy, Debug, PartialEq, Eq, Hash)]
pub struct TokenId(pub u32);

/// The bracket that encloses a subtree.
#[derive(Clone, Copy, Debug, PartialEq, Eq, Hash)]
pub enum DelimiterKind {
    Parenthesis,
    Brace,
    Bracket,
}

/// A delimiter and where it came from.
#[derive(Clone, Copy, Debug, PartialEq, Eq, Hash)]
pub struct Delimiter {
    pub id: TokenId,
    pub kind: DelimiterKind,
}

/// Whether a punctuation character is followed at once by another.
#[derive(Clone, Copy, Debug, PartialEq, Eq, Hash)]
pub enum Spacing {
    Alone,
    Joint,
}

/// One punctuation character.
#[derive(Clone, Copy, Debug, PartialEq, Eq, Hash)]
pub struct Punct {
    pub char: char,
    pub spacing: Spacing,
    pub id: TokenId,
}

/// A literal, as written.
#[derive(Debug, PartialEq, Eq, Hash)]
pub struct Literal {
    pub text: String,
    pub id: TokenId,
}

/// An identifier.
#[derive(Debug, PartialEq, Eq, Hash)]
pub struct Ident {
    pub text: String,
    pub id: TokenId,
}

/// A token that has no tokens inside it.
#[derive(Debug, PartialEq, Eq, Hash)]
pub enum Leaf {
    Literal(Literal),
    Punct(Punct),
    Ident(Ident),
}

/// A leaf or a delimited run of token trees.
#[derive(Debug, PartialEq, Eq, Hash)]
pub enum TokenTree {
    Leaf(Leaf),
    Subtree(Subtree),
}

/// A run of token trees, with the delimiter round it if it has one.
#[derive(Debug, PartialEq, Eq, Hash)]
pub struct Subtree {
    pub delimiter: Option<Delimiter>,
    pub token_trees: Vec<TokenTree>,
}

/// What a literal or an identifier is: its text and its place.
pub struct TextView {
    pub text: Seq<char>,
    pub id: TokenId,
}

/// What a leaf is.
pub enum LeafView {
    Literal(TextView),
    Punct(Punct),
    Ident(TextView),
}

/// What a token tree is.
pub enum TokenTreeView {
    Leaf(LeafView),
    Subtree(SubtreeView),
}

/// What a subtree is.
pub struct SubtreeView {
    pub delimiter: Option<Delimiter>,
    pub token_trees: Seq<TokenTreeView>,
}

impl View for Literal {
    type V = TextView;

    open spec fn view(&self) -> TextView {
        TextView { text: self.text@, id: self.id }
    }
}

impl View for Ident {
    type V = TextView;

    open spec fn view(&self) -> TextView {
        TextView { text: self.text@, id: self.id }
    }
}

impl View for Leaf {
    type V = LeafView;

    open spec fn view(&self) -> LeafView {
        match self {
            Leaf::Literal(literal) => LeafView::Literal(literal@),
            Leaf::Punct(punct) => LeafView::Punct(*punct),
            Leaf::Ident(ident) => LeafView::Ident(ident@),
        }
    }
}

/// What `tree` is.
pub open spec fn tree_view(tree: TokenTree) -> TokenTreeView
    decreases tree,
{
    match tree {
        TokenTree::Leaf(leaf) => TokenTreeView::Leaf(leaf@),
        TokenTree::Subtree(subtree) => TokenTreeView::Subtree(subtree_view(subtree)),
    }
}

/// What `subtree` is.
pub open spec fn subtree_view(subtree: Subtree) -> SubtreeView
    decreases subtree,
{
    SubtreeView {
        delimiter: subtree.delimiter,
        token_trees: Seq::new(
            subtree.token_trees@.len(),
            |i: int|
                if 0 <= i < subtree.token_trees@.len() {
                    tree_view(subtree.token_trees@[i])
                } else {
                    arbitrary()
                },
        ),
    }
}

impl View for TokenTree {
    type V = TokenTreeView;

    open spec fn view(&self) -> TokenTreeView {
        tree_view(*self)
    }
}

impl View for Subtree {
    type V = SubtreeView;

    open spec fn view(&self) -> SubtreeView {
        subtree_view(*self)
    }
}

impl Clone for Literal {
    fn clone(&self) -> (copy: Self)
        ensures
            copy@ == self@,
    {
        Literal { text: self.text.clone(), id: self.id }
    }
}

impl Clone for Ident {
    fn clone(&self) -> (copy: Self)
        ensures
            copy@ == self@,
    {
        Ident { text: self.text.clone(), id: self.id }
    }
}

impl Clone for Leaf {
    fn clone(&self) -> (copy: Self)
        ensures
            copy@ == self@,
    {
        match self {
            Leaf::Literal(literal) => Leaf::Literal(literal.clone()),
            Leaf::Punct(punct) => Leaf::Punct(*punct),
            Leaf::Ident(ident) => Leaf::Ident(ident.clone()),
        }
    }
}

impl Clone for TokenTree {
    fn clone(&self) -> (copy: Self)
        ensures
            copy@ == self@,
        decreases self,
    {
        match self {
            TokenTree::Leaf(leaf) => TokenTree::Leaf(leaf.clone()),
            TokenTree::Subtree(subtree) => TokenTree::Subtree(subtree.clone()),
        }
    }
}

impl Clone for Subtree {
    fn clone(&self) -> (copy: Self)
        ensures
            copy@ == self@,
        decreases self,
    {
        let mut trees: Vec<TokenTree> = Vec::new();
        let mut i: usize = 0;
        while i < self.token_trees.len()
            invariant
                i <= self.token_trees.len(),
                trees.len() == i,
                forall|j: int| 0 <= j < i ==> trees@[j]@ == self.token_trees@[j]@,
            decreases self.token_trees.len() - i,
        {
            trees.push(self.token_trees[i].clone());
            i += 1;
        }
        let copy = Subtree { delimiter: self.delimiter, token_trees: trees };
        assert(copy@.token_trees =~= self@.token_trees);
        copy
    }
}

/// The subtree with no delimiter and no tokens.
pub open spec fn empty_subtree() -> SubtreeView {
    SubtreeView { delimiter: None, token_trees: Seq::empty() }
}

/// The form in which tokens are handed to a procedure and come back from it.
#[derive(Debug, PartialEq, Eq, Hash)]
pub struct TokenStream {
    pub subtree: Subtree,
}

impl View for TokenStream {
    type V = SubtreeView;

    open spec fn view(&self) -> SubtreeView {
        self.subtree@
    }
}

impl TokenStream {
    /// The stream that holds nothing.
    pub fn new() -> (stream: TokenStream)
        ensures
            stream@ == empty_subtree(),
    {
        let stream = TokenStream { subtree: Subtree { delimiter: None, token_trees: Vec::new() } };
        assert(stream@.token_trees =~= Seq::empty());
        stream
    }

    /// The stream that holds `subtree`.
    pub fn with_subtree(subtree: Subtree) -> (stream: TokenStream)
        ensures
            stream@ == subtree@,
            stream.subtree == subtree,
    {
        TokenStream { subtree }
    }
}

impl Clone for TokenStream {
    fn clone(&self) -> (copy: Self)
        ensures
            copy@ == self@,
    {
        TokenStream { subtree: self.subtree.clone() }
    }
}

} // verus!
