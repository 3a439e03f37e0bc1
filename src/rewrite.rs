//! The rewriting pass: the walk over a token stream, the routing of each
//! literal by its suffix, and the tokens that stand in a rewritten literal's
//! place, a handler call or a diagnostic.
use crate::literal::{
    byte_string_value, byte_value, c_string_value, char_value, classify, integer_value,
    is_native_suffix, is_reserved_suffix, literal_class, literal_suffix, native_suffix,
    parse_byte_string_value, parse_byte_value, parse_c_string_value, parse_char_value,
    parse_integer_value, parse_string_value, reserved_suffix, string_value, strip_underscores,
    without_underscores, LitKind,
};
use crate::token::{
    lemma_stream_view, lemma_stream_view_add, stream_view, token_view, Delimiter, Lit, LitView,
    Location, Spacing, Token, TokenView,
};
use vstd::prelude::*;

verus! {

/// The text that follows the suffix in the diagnostic for a reserved suffix.
pub const RESERVED_MESSAGE: &'static str = " is not currently used by rust, but it likely will be in the future. To avoid breakage and not compromise rust's compatibility guarantees, we forbid this suffix";

/// The diagnostic for an integer whose value does not fit in a `u128`.
pub const OVERFLOW_MESSAGE: &'static str = "custom integer literals are only supported for integers whose absolute value does not exceed 340282366920938463463374607431768211455";

/// The diagnostic for a custom C string literal where the host has none.
pub const C_STRING_MESSAGE: &'static str = "custom c-string literal with suffix is only supported on Rust version >=1.79";

/// What becomes of a literal, by its kind and suffix.
#[derive(Clone, Copy, Debug, PartialEq, Eq)]
pub enum Route {
    /// The literal stays as it is.
    PassThrough,
    /// The suffix is reserved: a diagnostic takes the literal's place.
    Reserved,
    /// A call of the handler for the suffix takes the literal's place.
    Custom,
}

/// Why a rewriting could not be done at all.
#[derive(Clone, Debug, PartialEq, Eq)]
pub enum RewriteError {
    /// The attribute was given arguments; it takes none.
    UnexpectedArguments,
    /// A literal token whose text is no literal.
    MalformedLiteral { text: String },
}

/// An identifier.
pub open spec fn ident(name: Seq<char>, loc: Location) -> TokenView {
    TokenView::Ident { name, loc }
}

/// A punctuation character.
pub open spec fn punct(ch: char, spacing: Spacing, loc: Location) -> TokenView {
    TokenView::Punct { ch, spacing, loc }
}

/// `::`
pub open spec fn path_separator(loc: Location) -> Seq<TokenView> {
    seq![punct(':', Spacing::Joint, loc), punct(':', Spacing::Alone, loc)]
}

/// The name of the module that holds the handlers of a kind of literal.
pub open spec fn kind_name(kind: LitKind) -> Seq<char> {
    match kind {
        LitKind::Integer => "integer"@,
        LitKind::Float => "float"@,
        LitKind::Str => "string"@,
        LitKind::Char => "character"@,
        LitKind::Byte => "byte_character"@,
        LitKind::ByteStr => "byte_string"@,
        LitKind::CStr => "c_string"@,
        LitKind::Bool => "bool"@,
    }
}

/// `crate::custom_literal::<kind>::<suffix>!(<component>)`, every token at `loc`.
pub open spec fn handler_call(
    kind: LitKind,
    suffix: Seq<char>,
    component: LitView,
    loc: Location,
) -> Seq<TokenView> {
    seq![ident("crate"@, loc)] + path_separator(loc) + seq![ident("custom_literal"@, loc)]
        + path_separator(loc) + seq![ident(kind_name(kind), loc)] + path_separator(loc) + seq![
        ident(suffix, loc),
        punct('!', Spacing::Alone, loc),
        TokenView::Group {
            delimiter: Delimiter::Parenthesis,
            stream: seq![TokenView::Literal { lit: component, loc }],
            loc,
        },
    ]
}

/// `::core::compile_error!{ "<message>" }`, every token at `loc`.
pub open spec fn diagnostic(message: Seq<char>, loc: Location) -> Seq<TokenView> {
    path_separator(loc) + seq![ident("core"@, loc)] + path_separator(loc) + seq![
        ident("compile_error"@, loc),
        punct('!', Spacing::Alone, loc),
        TokenView::Group {
            delimiter: Delimiter::Brace,
            stream: seq![TokenView::Literal { lit: LitView::Str(message), loc }],
            loc,
        },
    ]
}

/// The diagnostic for a reserved suffix.
pub open spec fn reserved_message(suffix: Seq<char>) -> Seq<char> {
    "suffix "@ + suffix + RESERVED_MESSAGE@
}

/// A literal passes through where its suffix is empty or native; a reserved
/// suffix is diagnosed; any other suffix is dispatched to a handler.
pub open spec fn route_of(kind: LitKind, suffix: Seq<char>) -> Route {
    if kind == LitKind::Bool || suffix.len() == 0 || native_suffix(kind, suffix) {
        Route::PassThrough
    } else if reserved_suffix(kind, suffix) {
        Route::Reserved
    } else {
        Route::Custom
    }
}

/// The literal's text without its suffix.
pub open spec fn number_part(text: Seq<char>) -> Seq<char> {
    text.subrange(0, text.len() - literal_suffix(text).len())
}

/// The component handed to a handler for a literal of the given kind; `None`
/// where an integer does not fit in a `u128`.
pub open spec fn decomposition(kind: LitKind, text: Seq<char>) -> Option<LitView> {
    match kind {
        LitKind::Integer => match integer_value(text) {
            Some(v) => Some(LitView::Integer(v)),
            None => None,
        },
        LitKind::Float => Some(LitView::Float(without_underscores(number_part(text)))),
        LitKind::Str => Some(LitView::Str(string_value(text))),
        LitKind::Char => Some(LitView::Char(char_value(text))),
        LitKind::Byte => Some(LitView::Integer(byte_value(text) as u128)),
        LitKind::ByteStr => Some(LitView::ByteStr(byte_string_value(text))),
        LitKind::CStr => Some(LitView::CStr(c_string_value(text))),
        LitKind::Bool => None,
    }
}

/// What takes the place of a literal with a custom suffix, given its
/// component.
pub open spec fn custom_expansion(
    kind: LitKind,
    component: Option<LitView>,
    suffix: Seq<char>,
    loc: Location,
    c_strings: bool,
) -> Seq<TokenView> {
    if kind == LitKind::CStr && !c_strings {
        diagnostic(C_STRING_MESSAGE@, loc)
    } else {
        match component {
            Some(c) => handler_call(kind, suffix, c, loc),
            None => diagnostic(OVERFLOW_MESSAGE@, loc),
        }
    }
}

/// What takes the place of a literal token written as `text`.
pub open spec fn expand_literal(text: Seq<char>, loc: Location, c_strings: bool)
    -> Seq<TokenView> {
    let kept = seq![TokenView::Literal { lit: LitView::Source(text), loc }];
    match literal_class(text) {
        None => kept,
        Some(kind) => {
            let suffix = literal_suffix(text);
            match route_of(kind, suffix) {
                Route::PassThrough => kept,
                Route::Reserved => diagnostic(reserved_message(suffix), loc),
                Route::Custom => custom_expansion(
                    kind,
                    decomposition(kind, text),
                    suffix,
                    loc,
                    c_strings,
                ),
            }
        },
    }
}

/// What takes the place of one token: a group is rewritten inside, a literal
/// as written in the source is expanded, anything else stays.
pub open spec fn expand_token(t: TokenView, c_strings: bool) -> Seq<TokenView>
    decreases t,
{
    match t {
        TokenView::Group { delimiter, stream, loc } => seq![
            TokenView::Group { delimiter, stream: expand_stream(stream, c_strings), loc },
        ],
        TokenView::Literal { lit: LitView::Source(text), loc } => expand_literal(
            text,
            loc,
            c_strings,
        ),
        _ => seq![t],
    }
}

/// The rewritten stream: the expansions of its tokens, in order.
pub open spec fn expand_stream(s: Seq<TokenView>, c_strings: bool) -> Seq<TokenView>
    decreases s,
{
    if s.len() == 0 {
        Seq::empty()
    } else {
        expand_stream(s.subrange(0, s.len() - 1), c_strings) + expand_token(
            s[s.len() - 1],
            c_strings,
        )
    }
}

/// Whether every literal in the token, at any depth, is well-formed.
pub open spec fn token_parses(t: TokenView) -> bool
    decreases t,
{
    match t {
        TokenView::Group { stream, .. } => stream_parses(stream),
        TokenView::Literal { lit: LitView::Source(text), .. } => literal_class(text) is Some,
        _ => true,
    }
}

/// Whether every literal in the stream, at any depth, is well-formed.
pub open spec fn stream_parses(s: Seq<TokenView>) -> bool
    decreases s,
{
    if s.len() == 0 {
        true
    } else {
        stream_parses(s.subrange(0, s.len() - 1)) && token_parses(s[s.len() - 1])
    }
}

/// The view of a component, where there is one.
pub open spec fn component_view(c: Option<Lit>) -> Option<LitView> {
    match c {
        Some(l) => Some(l@),
        None => None,
    }
}

/// A stream parses where each of its tokens does.
pub proof fn lemma_stream_parses(s: Seq<TokenView>)
    ensures
        stream_parses(s) <==> forall|i: int| 0 <= i < s.len() ==> #[trigger] token_parses(s[i]),
    decreases s.len(),
{
    if s.len() > 0 {
        let p = s.subrange(0, s.len() - 1);
        lemma_stream_parses(p);
        if stream_parses(s) {
            assert forall|i: int| 0 <= i < s.len() implies #[trigger] token_parses(s[i]) by {
                if i < s.len() - 1 {
                    assert(p[i] == s[i]);
                }
            }
        }
        if forall|i: int| 0 <= i < s.len() ==> #[trigger] token_parses(s[i]) {
            assert forall|i: int| 0 <= i < p.len() implies #[trigger] token_parses(p[i]) by {
                assert(p[i] == s[i]);
            }
            assert(token_parses(s[s.len() - 1]));
        }
    }
}

fn ident_token(name: &str, loc: Location) -> (r: Token)
    ensures
        token_view(r) == ident(name@, loc),
{
    Token::Ident { name: String::from_str(name), loc }
}

fn punct_token(ch: char, spacing: Spacing, loc: Location) -> (r: Token)
    ensures
        token_view(r) == punct(ch, spacing, loc),
{
    Token::Punct { ch, spacing, loc }
}

/// A group of one literal token.
fn literal_group(delimiter: Delimiter, lit: Lit, loc: Location) -> (r: Token)
    ensures
        token_view(r) == (TokenView::Group {
            delimiter,
            stream: seq![TokenView::Literal { lit: lit@, loc }],
            loc,
        }),
{
    let stream = vec![Token::Literal { lit, loc }];
    proof {
        lemma_stream_view(stream@);
        assert(stream_view(stream@) =~= seq![TokenView::Literal { lit: lit@, loc }]);
    }
    Token::Group { delimiter, stream, loc }
}

fn kind_name_text(kind: LitKind) -> (r: &'static str)
    ensures
        r@ == kind_name(kind),
{
    match kind {
        LitKind::Integer => "integer",
        LitKind::Float => "float",
        LitKind::Str => "string",
        LitKind::Char => "character",
        LitKind::Byte => "byte_character",
        LitKind::ByteStr => "byte_string",
        LitKind::CStr => "c_string",
        LitKind::Bool => "bool",
    }
}

/// The tokens of `crate::custom_literal::<kind>::<suffix>!(<component>)`,
/// every one of them at `loc`.
pub fn handler_call_tokens(
    kind: LitKind,
    suffix: &str,
    component: Lit,
    loc: Location,
) -> (r: Vec<Token>)
    ensures
        stream_view(r@) == handler_call(kind, suffix@, component@, loc),
{
    let r = vec![
        ident_token("crate", loc),
        punct_token(':', Spacing::Joint, loc),
        punct_token(':', Spacing::Alone, loc),
        ident_token("custom_literal", loc),
        punct_token(':', Spacing::Joint, loc),
        punct_token(':', Spacing::Alone, loc),
        ident_token(kind_name_text(kind), loc),
        punct_token(':', Spacing::Joint, loc),
        punct_token(':', Spacing::Alone, loc),
        ident_token(suffix, loc),
        punct_token('!', Spacing::Alone, loc),
        literal_group(Delimiter::Parenthesis, component, loc),
    ];
    proof {
        lemma_stream_view(r@);
        assert(stream_view(r@) =~= handler_call(kind, suffix@, component@, loc));
    }
    r
}

/// A diagnostic: the host halts with `message` at `loc`.
pub struct CompileError {
    /// Where the diagnostic is reported.
    pub loc: Location,
    /// What it says.
    pub message: String,
}

impl CompileError {
    pub fn new(loc: Location, message: &str) -> (r: CompileError)
        ensures
            r.loc == loc,
            r.message@ == message@,
    {
        CompileError { loc, message: String::from_str(message) }
    }

    /// The tokens of `::core::compile_error!{ "<message>" }`, every one of
    /// them at the diagnostic's location.
    pub fn into_tokens(self) -> (r: Vec<Token>)
        ensures
            stream_view(r@) == diagnostic(self.message@, self.loc),
    {
        let loc = self.loc;
        let ghost message = self.message@;
        let r = vec![
            punct_token(':', Spacing::Joint, loc),
            punct_token(':', Spacing::Alone, loc),
            ident_token("core", loc),
            punct_token(':', Spacing::Joint, loc),
            punct_token(':', Spacing::Alone, loc),
            ident_token("compile_error", loc),
            punct_token('!', Spacing::Alone, loc),
            literal_group(Delimiter::Brace, Lit::Str(self.message), loc),
        ];
        proof {
            lemma_stream_view(r@);
            assert(stream_view(r@) =~= diagnostic(message, loc));
        }
        r
    }
}

/// The message for a reserved suffix.
pub fn reserved_suffix_message(suffix: &str) -> (r: String)
    ensures
        r@ == reserved_message(suffix@),
{
    let mut m = String::from_str("suffix ");
    m.append(suffix);
    m.append(RESERVED_MESSAGE);
    m
}

/// What becomes of a literal of the given kind and suffix.
pub fn route(kind: LitKind, suffix: &str) -> (r: Route)
    ensures
        r == route_of(kind, suffix@),
{
    if matches!(kind, LitKind::Bool) || suffix.unicode_len() == 0 || is_native_suffix(
        kind,
        suffix,
    ) {
        Route::PassThrough
    } else if is_reserved_suffix(kind, suffix) {
        Route::Reserved
    } else {
        Route::Custom
    }
}

/// The tokens that take the place of a literal with a custom suffix, given
/// its component (`None`: an integer too large for a `u128`).
pub fn custom_tokens(
    kind: LitKind,
    component: Option<Lit>,
    suffix: &str,
    loc: Location,
    c_strings: bool,
) -> (r: Vec<Token>)
    ensures
        stream_view(r@) == custom_expansion(
            kind,
            component_view(component),
            suffix@,
            loc,
            c_strings,
        ),
{
    if matches!(kind, LitKind::CStr) && !c_strings {
        CompileError::new(loc, C_STRING_MESSAGE).into_tokens()
    } else {
        match component {
            Some(c) => handler_call_tokens(kind, suffix, c, loc),
            None => CompileError::new(loc, OVERFLOW_MESSAGE).into_tokens(),
        }
    }
}

/// The component of a literal of the given kind, with the given suffix.
fn decompose(kind: LitKind, text: &str, suffix: &str) -> (r: Option<Option<Lit>>)
    requires
        literal_class(text@) == Some(kind),
        suffix@ == literal_suffix(text@),
        suffix@.len() <= text@.len(),
    ensures
        r matches Some(c) && component_view(c) == decomposition(kind, text@),
{
    match kind {
        LitKind::Integer => match parse_integer_value(text) {
            Some(Some(v)) => Some(Some(Lit::Integer(v))),
            Some(None) => Some(None),
            None => None,
        },
        LitKind::Float => {
            let end = text.unicode_len() - suffix.unicode_len();
            Some(Some(Lit::Float(strip_underscores(text.substring_char(0, end)))))
        },
        LitKind::Str => match parse_string_value(text) {
            Some(v) => Some(Some(Lit::Str(v))),
            None => None,
        },
        LitKind::Char => match parse_char_value(text) {
            Some(v) => Some(Some(Lit::Char(v))),
            None => None,
        },
        LitKind::Byte => match parse_byte_value(text) {
            Some(v) => Some(Some(Lit::Integer(v as u128))),
            None => None,
        },
        LitKind::ByteStr => match parse_byte_string_value(text) {
            Some(v) => Some(Some(Lit::ByteStr(v))),
            None => None,
        },
        LitKind::CStr => match parse_c_string_value(text) {
            Some(v) => Some(Some(Lit::CStr(v))),
            None => None,
        },
        LitKind::Bool => Some(None),
    }
}

/// The rewriting pass, with the host's support for C string literals given
/// as a flag.
pub struct Rewriter {
    pub c_strings: bool,
}

impl Rewriter {
    pub fn new(c_strings: bool) -> (r: Rewriter)
        ensures
            r.c_strings == c_strings,
    {
        Rewriter { c_strings }
    }

    /// The tokens that take the place of a literal token written as `text`.
    pub fn rewrite_literal(&self, text: &String, loc: Location)
        -> (r: Result<Vec<Token>, RewriteError>)
        ensures
            r is Ok <==> literal_class(text@) is Some,
            r matches Ok(v) ==> stream_view(v@) == expand_literal(text@, loc, self.c_strings),
            r matches Err(e) ==> (e matches RewriteError::MalformedLiteral { text: t }
                && t@ == text@),
    {
        let (kind, suffix) = match classify(text.as_str()) {
            Some(p) => p,
            None => {
                return Err(RewriteError::MalformedLiteral { text: text.clone() });
            },
        };
        match route(kind, suffix.as_str()) {
            Route::PassThrough => {
                let r = vec![Token::Literal { lit: Lit::Source(text.clone()), loc }];
                proof {
                    lemma_stream_view(r@);
                    assert(stream_view(r@) =~= expand_literal(text@, loc, self.c_strings));
                }
                Ok(r)
            },
            Route::Reserved => {
                let message = reserved_suffix_message(suffix.as_str());
                Ok(CompileError::new(loc, message.as_str()).into_tokens())
            },
            Route::Custom => {
                if matches!(kind, LitKind::CStr) && !self.c_strings {
                    return Ok(custom_tokens(kind, None, suffix.as_str(), loc, self.c_strings));
                }
                match decompose(kind, text.as_str(), suffix.as_str()) {
                    Some(component) => Ok(
                        custom_tokens(kind, component, suffix.as_str(), loc, self.c_strings),
                    ),
                    None => Err(RewriteError::MalformedLiteral { text: text.clone() }),
                }
            },
        }
    }

    /// The tokens that take the place of one token.
    pub fn rewrite_token(&self, t: &Token) -> (r: Result<Vec<Token>, RewriteError>)
        ensures
            r is Ok <==> token_parses(token_view(*t)),
            r matches Err(e) ==> e is MalformedLiteral,
            r matches Ok(v) ==> stream_view(v@) == expand_token(token_view(*t), self.c_strings),
        decreases *t, 1nat,
    {
        let r = match t {
            Token::Group { delimiter, stream, loc } => {
                let inner = self.rewrite(stream)?;
                vec![Token::Group { delimiter: *delimiter, stream: inner, loc: *loc }]
            },
            Token::Literal { lit: Lit::Source(text), loc } => {
                return self.rewrite_literal(text, *loc);
            },
            Token::Literal { lit, loc } => vec![Token::Literal { lit: lit.copy(), loc: *loc }],
            Token::Ident { name, loc } => vec![Token::Ident { name: name.clone(), loc: *loc }],
            Token::Punct { ch, spacing, loc } => vec![punct_token(*ch, *spacing, *loc)],
        };
        proof {
            lemma_stream_view(r@);
            assert(stream_view(r@) =~= expand_token(token_view(*t), self.c_strings));
        }
        Ok(r)
    }

    /// Rewrites a token stream: every literal with a custom suffix, at any
    /// depth, becomes a handler call or a diagnostic; every other token
    /// stays, in order. Fails only on a literal token whose text is no
    /// literal.
    pub fn rewrite(&self, tokens: &Vec<Token>) -> (r: Result<Vec<Token>, RewriteError>)
        ensures
            r is Ok <==> stream_parses(stream_view(tokens@)),
            r matches Err(e) ==> e is MalformedLiteral,
            r matches Ok(v) ==> stream_view(v@) == expand_stream(
                stream_view(tokens@),
                self.c_strings,
            ),
        decreases *tokens, 0nat,
    {
        let ghost input = stream_view(tokens@);
        proof {
            lemma_stream_view(tokens@);
        }
        let mut out: Vec<Token> = Vec::new();
        let mut i: usize = 0;
        while i < tokens.len()
            invariant
                i <= tokens.len(),
                input == stream_view(tokens@),
                input.len() == tokens@.len(),
                forall|j: int| 0 <= j < tokens@.len() ==> #[trigger] input[j] == token_view(
                    tokens@[j],
                ),
                stream_parses(input.subrange(0, i as int)),
                stream_view(out@) == expand_stream(input.subrange(0, i as int), self.c_strings),
            decreases tokens.len() - i,
        {
            let ghost before = out@;
            let mut next = match self.rewrite_token(&tokens[i]) {
                Ok(v) => v,
                Err(e) => {
                    proof {
                        lemma_stream_parses(input);
                        assert(!token_parses(input[i as int]));
                    }
                    return Err(e);
                },
            };
            let ghost added = next@;
            out.append(&mut next);
            proof {
                let p = input.subrange(0, i + 1);
                assert(p.subrange(0, i as int) =~= input.subrange(0, i as int));
                assert(p[i as int] == input[i as int]);
                lemma_stream_view_add(before, added);
                assert(out@ =~= before + added);
            }
            i = i + 1;
        }
        assert(input.subrange(0, tokens.len() as int) =~= input);
        Ok(out)
    }
}

/// The attribute's entry point: `args` are the attribute's arguments, of
/// which there must be none, `input` the item it stands on.
pub fn culit(args: &Vec<Token>, input: &Vec<Token>, c_strings: bool)
    -> (r: Result<Vec<Token>, RewriteError>)
    ensures
        args@.len() > 0 ==> r == Err::<Vec<Token>, RewriteError>(
            RewriteError::UnexpectedArguments,
        ),
        args@.len() == 0 ==> (r is Ok <==> stream_parses(stream_view(input@))),
        args@.len() == 0 ==> (r matches Ok(v) ==> stream_view(v@) == expand_stream(
            stream_view(input@),
            c_strings,
        )),
{
    if args.len() > 0 {
        return Err(RewriteError::UnexpectedArguments);
    }
    Rewriter::new(c_strings).rewrite(input)
}

} // verus!
