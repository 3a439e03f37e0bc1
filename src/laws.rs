//! General properties of the rewriting pass, stated over the spec functions
//! that [`crate::rewrite::Rewriter::rewrite`] is verified against.
use crate::literal::{literal_class, literal_suffix, native_suffix, reserved_suffix, LitKind};
use crate::rewrite::{
    diagnostic, expand_literal, expand_stream, expand_token, handler_call, reserved_message,
};
use crate::token::{location_of, Delimiter, LitView, Location, TokenView};
use vstd::prelude::*;

verus! {

/// Whether the token holds no literal as written in the source, at any depth.
pub open spec fn token_without_literals(t: TokenView) -> bool
    decreases t,
{
    match t {
        TokenView::Literal { lit: LitView::Source(_), .. } => false,
        TokenView::Group { stream, .. } => forall|i: int|
            0 <= i < stream.len() ==> token_without_literals(#[trigger] stream[i]),
        _ => true,
    }
}

/// Whether the token, and every token inside it at any depth, stands at `loc`.
pub open spec fn token_at(t: TokenView, loc: Location) -> bool
    decreases t,
{
    &&& location_of(t) == loc
    &&& match t {
        TokenView::Group { stream, .. } => forall|i: int|
            0 <= i < stream.len() ==> token_at(#[trigger] stream[i], loc),
        _ => true,
    }
}

/// `t` wrapped in groups, the outermost first: each level is a delimiter and
/// the group's location.
pub open spec fn nested(t: TokenView, levels: Seq<(Delimiter, Location)>) -> TokenView
    decreases levels.len(),
{
    if levels.len() == 0 {
        t
    } else {
        TokenView::Group {
            delimiter: levels[0].0,
            stream: seq![nested(t, levels.drop_first())],
            loc: levels[0].1,
        }
    }
}

/// The stream `s` wrapped in groups, the outermost first.
pub open spec fn nested_stream(s: Seq<TokenView>, levels: Seq<(Delimiter, Location)>)
    -> Seq<TokenView>
    decreases levels.len(),
{
    if levels.len() == 0 {
        s
    } else {
        seq![
            TokenView::Group {
                delimiter: levels[0].0,
                stream: nested_stream(s, levels.drop_first()),
                loc: levels[0].1,
            },
        ]
    }
}

/// A stream of one token expands as that token does.
pub proof fn lemma_expand_single(t: TokenView, c_strings: bool)
    ensures
        expand_stream(seq![t], c_strings) == expand_token(t, c_strings),
{
    assert(seq![t].subrange(0, 0) =~= Seq::<TokenView>::empty());
    assert(expand_stream(Seq::<TokenView>::empty(), c_strings) =~= Seq::<TokenView>::empty());
    assert(expand_stream(seq![t], c_strings) =~= expand_token(t, c_strings));
}

/// The expansion of a concatenation is the concatenation of the expansions.
pub proof fn lemma_expand_add(a: Seq<TokenView>, b: Seq<TokenView>, c_strings: bool)
    ensures
        expand_stream(a + b, c_strings) == expand_stream(a, c_strings) + expand_stream(
            b,
            c_strings,
        ),
    decreases b.len(),
{
    if b.len() == 0 {
        assert(a + b =~= a);
        assert(expand_stream(b, c_strings) =~= Seq::<TokenView>::empty());
        assert(expand_stream(a, c_strings) + expand_stream(b, c_strings) =~= expand_stream(
            a,
            c_strings,
        ));
    } else {
        let b0 = b.subrange(0, b.len() - 1);
        lemma_expand_add(a, b0, c_strings);
        assert((a + b).subrange(0, (a + b).len() - 1) =~= a + b0);
        assert((a + b)[(a + b).len() - 1] == b[b.len() - 1]);
        assert(expand_stream(a + b, c_strings) =~= expand_stream(a, c_strings) + expand_stream(
            b,
            c_strings,
        ));
    }
}

/// A stream with no literal as written in the source comes out of the pass
/// token for token as it went in.
pub proof fn law_structural_identity(s: Seq<TokenView>, c_strings: bool)
    requires
        forall|i: int| 0 <= i < s.len() ==> token_without_literals(#[trigger] s[i]),
    ensures
        expand_stream(s, c_strings) == s,
    decreases s, 0nat,
{
    if s.len() > 0 {
        let p = s.subrange(0, s.len() - 1);
        assert forall|i: int| 0 <= i < p.len() implies token_without_literals(#[trigger] p[i]) by {
            assert(p[i] == s[i]);
        }
        law_structural_identity(p, c_strings);
        law_token_identity(s[s.len() - 1], c_strings);
        assert(expand_stream(s, c_strings) =~= s);
    }
}

/// A token with no literal as written in the source comes out of the pass as
/// it went in.
pub proof fn law_token_identity(t: TokenView, c_strings: bool)
    requires
        token_without_literals(t),
    ensures
        expand_token(t, c_strings) == seq![t],
    decreases t, 1nat,
{
    if let TokenView::Group { delimiter, stream, loc } = t {
        assert forall|i: int| 0 <= i < stream.len() implies token_without_literals(
            #[trigger] stream[i],
        ) by {}
        law_structural_identity(stream, c_strings);
    }
}

/// A literal whose suffix is empty or native to its kind stays as it is, at
/// the same location: no handler call is made for it.
pub proof fn law_pass_through(text: Seq<char>, loc: Location, c_strings: bool)
    requires
        literal_class(text) is Some,
        literal_suffix(text).len() == 0 || native_suffix(
            literal_class(text)->0,
            literal_suffix(text),
        ),
    ensures
        expand_literal(text, loc, c_strings) == seq![
            TokenView::Literal { lit: LitView::Source(text), loc },
        ],
{
}

/// Identifiers, punctuation and literals that the pass made are never
/// altered nor moved; a group keeps its delimiter and its location and only
/// its contents are rewritten.
pub proof fn law_non_literal_invariance(t: TokenView, c_strings: bool)
    requires
        !(t matches TokenView::Literal { lit: LitView::Source(_), .. }),
    ensures
        t matches TokenView::Group { delimiter, stream, loc } ==> expand_token(t, c_strings)
            == seq![TokenView::Group { delimiter, stream: expand_stream(stream, c_strings), loc }],
        !(t is Group) ==> expand_token(t, c_strings) == seq![t],
{
}

/// A suffix reserved for a kind always yields the diagnostic, never a handler
/// call, whatever the component.
pub proof fn law_reserved_suffix(text: Seq<char>, loc: Location, c_strings: bool)
    requires
        literal_class(text) is Some,
        reserved_suffix(literal_class(text)->0, literal_suffix(text)),
    ensures
        expand_literal(text, loc, c_strings) == diagnostic(
            reserved_message(literal_suffix(text)),
            loc,
        ),
        forall|c: LitView|
            #[trigger] handler_call(literal_class(text)->0, literal_suffix(text), c, loc)
                != expand_literal(text, loc, c_strings),
{
    let kind = literal_class(text)->0;
    let suffix = literal_suffix(text);
    lemma_reserved_not_native(kind, suffix);
    assert forall|c: LitView| #[trigger]
        handler_call(kind, suffix, c, loc) != expand_literal(text, loc, c_strings) by {
        assert(handler_call(kind, suffix, c, loc)[0] != expand_literal(text, loc, c_strings)[0]);
    }
}

/// No suffix is both reserved and native.
pub proof fn lemma_reserved_not_native(kind: LitKind, s: Seq<char>)
    requires
        reserved_suffix(kind, s),
    ensures
        !native_suffix(kind, s),
        s.len() > 0,
{
    reveal_strlit("i8");
    reveal_strlit("i16");
    reveal_strlit("i32");
    reveal_strlit("i64");
    reveal_strlit("i128");
    reveal_strlit("isize");
    reveal_strlit("u8");
    reveal_strlit("u16");
    reveal_strlit("u32");
    reveal_strlit("u64");
    reveal_strlit("u128");
    reveal_strlit("usize");
    reveal_strlit("f32");
    reveal_strlit("f64");
    reveal_strlit("i256");
    reveal_strlit("u256");
    reveal_strlit("f16");
    reveal_strlit("f128");
    assert("i256"@.len() == 4 && "u256"@.len() == 4 && "f16"@.len() == 3 && "f128"@.len() == 4);
    assert("i256"@[1] == '2' && "u256"@[1] == '2' && "f16"@[0] == 'f' && "f128"@[0] == 'f');
    assert("f32"@[1] == '3' && "f64"@[1] == '6' && "f128"@[1] == '1' && "f16"@[2] == '6');
}

/// Every token that stands in a literal's place, at any depth, carries the
/// literal's location: whether the literal is kept, dispatched to a handler
/// or diagnosed.
pub proof fn law_location_fidelity(text: Seq<char>, loc: Location, c_strings: bool)
    ensures
        forall|i: int|
            0 <= i < expand_literal(text, loc, c_strings).len() ==> token_at(
                #[trigger] expand_literal(text, loc, c_strings)[i],
                loc,
            ),
{
    let r = expand_literal(text, loc, c_strings);
    assert forall|i: int| 0 <= i < r.len() implies token_at(#[trigger] r[i], loc) by {
        let t = r[i];
        if let TokenView::Group { stream, .. } = t {
            assert(stream.len() == 1);
            assert(token_at(stream[0], loc));
        }
    }
}

/// A token nested in groups to any depth is rewritten in place: the groups
/// around it keep their delimiters and locations.
pub proof fn law_group_recursion(
    t: TokenView,
    levels: Seq<(Delimiter, Location)>,
    c_strings: bool,
)
    ensures
        expand_token(nested(t, levels), c_strings) == nested_stream(
            expand_token(t, c_strings),
            levels,
        ),
    decreases levels.len(),
{
    if levels.len() > 0 {
        let inner = nested(t, levels.drop_first());
        law_group_recursion(t, levels.drop_first(), c_strings);
        lemma_expand_single(inner, c_strings);
    }
}

/// Each token is expanded on its own: what a token becomes, a diagnostic
/// included, neither depends on nor changes what the tokens around it become.
pub proof fn law_failure_isolation(
    before: Seq<TokenView>,
    t: TokenView,
    after: Seq<TokenView>,
    c_strings: bool,
)
    ensures
        expand_stream(before + seq![t] + after, c_strings) == expand_stream(before, c_strings)
            + expand_token(t, c_strings) + expand_stream(after, c_strings),
{
    lemma_expand_add(before + seq![t], after, c_strings);
    lemma_expand_add(before, seq![t], c_strings);
    lemma_expand_single(t, c_strings);
}

} // verus!
