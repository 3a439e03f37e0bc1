//! A token stream as plain values, and its mathematical view.
use vstd::prelude::*;

verus! {

/// Where a token stands in the source. The id is handed out by whoever built
/// the stream; the rewriting only copies it.
#[derive(Clone, Copy, Debug, PartialEq, Eq)]
pub struct Location {
    pub id: u64,
}

/// The delimiter of a group.
#[derive(Clone, Copy, Debug, PartialEq, Eq)]
pub enum Delimiter {
    Parenthesis,
    Brace,
    Bracket,
    /// A group without visible delimiters.
    Invisible,
}

/// Whether a punctuation character is joined to the next one (`:` in `::`).
#[derive(Clone, Copy, Debug, PartialEq, Eq)]
pub enum Spacing {
    Alone,
    Joint,
}

/// A literal token: either one as written in the source, or one that the
/// rewriting made, given by its value.
#[derive(Clone, Debug, PartialEq, Eq)]
pub enum Lit {
    /// A literal as written in the source, suffix included (`0x1Fkm`).
    Source(String),
    /// An integer literal without suffix.
    Integer(u128),
    /// A float literal without suffix, written in decimal (`70.8e7`).
    Float(String),
    /// A string literal with the given value.
    Str(String),
    /// A character literal with the given value.
    Char(char),
    /// A byte string literal with the given value.
    ByteStr(Vec<u8>),
    /// A C string literal with the given value, without its closing nul.
    CStr(Vec<u8>),
}

/// A token tree.
#[derive(Debug, PartialEq, Eq)]
pub enum Token {
    Ident { name: String, loc: Location },
    Punct { ch: char, spacing: Spacing, loc: Location },
    Literal { lit: Lit, loc: Location },
    Group { delimiter: Delimiter, stream: Vec<Token>, loc: Location },
}

/// The view of a [`Lit`].
pub enum LitView {
    Source(Seq<char>),
    Integer(u128),
    Float(Seq<char>),
    Str(Seq<char>),
    Char(char),
    ByteStr(Seq<u8>),
    CStr(Seq<u8>),
}

/// The view of a [`Token`]: strings and vectors become sequences.
pub enum TokenView {
    Ident { name: Seq<char>, loc: Location },
    Punct { ch: char, spacing: Spacing, loc: Location },
    Literal { lit: LitView, loc: Location },
    Group { delimiter: Delimiter, stream: Seq<TokenView>, loc: Location },
}

impl View for Lit {
    type V = LitView;

    open spec fn view(&self) -> LitView {
        match self {
            Lit::Source(s) => LitView::Source(s@),
            Lit::Integer(v) => LitView::Integer(*v),
            Lit::Float(s) => LitView::Float(s@),
            Lit::Str(s) => LitView::Str(s@),
            Lit::Char(c) => LitView::Char(*c),
            Lit::ByteStr(b) => LitView::ByteStr(b@),
            Lit::CStr(b) => LitView::CStr(b@),
        }
    }
}

/// The view of one token.
pub open spec fn token_view(t: Token) -> TokenView
    decreases t,
{
    match t {
        Token::Ident { name, loc } => TokenView::Ident { name: name@, loc },
        Token::Punct { ch, spacing, loc } => TokenView::Punct { ch, spacing, loc },
        Token::Literal { lit, loc } => TokenView::Literal { lit: lit@, loc },
        Token::Group { delimiter, stream, loc } => {
            TokenView::Group { delimiter, stream: stream_view(stream@), loc }
        },
    }
}

/// The view of a stream of tokens, token by token.
pub open spec fn stream_view(s: Seq<Token>) -> Seq<TokenView>
    decreases s,
{
    if s.len() == 0 {
        Seq::empty()
    } else {
        stream_view(s.subrange(0, s.len() - 1)).push(token_view(s[s.len() - 1]))
    }
}

/// The location of a token.
pub open spec fn location_of(t: TokenView) -> Location {
    match t {
        TokenView::Ident { loc, .. } => loc,
        TokenView::Punct { loc, .. } => loc,
        TokenView::Literal { loc, .. } => loc,
        TokenView::Group { loc, .. } => loc,
    }
}

/// The view of a stream has one view per token, in order.
pub proof fn lemma_stream_view(s: Seq<Token>)
    ensures
        stream_view(s).len() == s.len(),
        forall|i: int| 0 <= i < s.len() ==> #[trigger] stream_view(s)[i] == token_view(s[i]),
    decreases s.len(),
{
    if s.len() > 0 {
        lemma_stream_view(s.subrange(0, s.len() - 1));
    }
}

/// The view of a concatenation is the concatenation of the views.
pub proof fn lemma_stream_view_add(a: Seq<Token>, b: Seq<Token>)
    ensures
        stream_view(a + b) == stream_view(a) + stream_view(b),
{
    lemma_stream_view(a);
    lemma_stream_view(b);
    lemma_stream_view(a + b);
    assert(stream_view(a + b) =~= stream_view(a) + stream_view(b));
}

/// A copy of a byte vector.
pub fn copy_bytes(b: &Vec<u8>) -> (r: Vec<u8>)
    ensures
        r@ == b@,
{
    let mut r: Vec<u8> = Vec::new();
    let mut i: usize = 0;
    while i < b.len()
        invariant
            i <= b.len(),
            r@ == b@.subrange(0, i as int),
        decreases b.len() - i,
    {
        r.push(b[i]);
        i = i + 1;
        assert(r@ =~= b@.subrange(0, i as int));
    }
    assert(r@ =~= b@);
    r
}

impl Lit {
    /// A copy of this literal.
    pub fn copy(&self) -> (r: Lit)
        ensures
            r@ == self@,
    {
        match self {
            Lit::Source(s) => Lit::Source(s.clone()),
            Lit::Integer(v) => Lit::Integer(*v),
            Lit::Float(s) => Lit::Float(s.clone()),
            Lit::Str(s) => Lit::Str(s.clone()),
            Lit::Char(c) => Lit::Char(*c),
            Lit::ByteStr(b) => Lit::ByteStr(copy_bytes(b)),
            Lit::CStr(b) => Lit::CStr(copy_bytes(b)),
        }
    }
}

} // verus!
