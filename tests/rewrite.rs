use culit::literal::{is_native_suffix, is_reserved_suffix, same_text, strip_underscores};
use culit::rewrite::{
    custom_tokens, handler_call_tokens, reserved_suffix_message, route, C_STRING_MESSAGE,
    OVERFLOW_MESSAGE, RESERVED_MESSAGE,
};
use culit::{
    culit, CompileError, Delimiter, Lit, LitKind, Location, RewriteError, Rewriter, Route,
    Spacing, Token,
};

fn at(id: u64) -> Location {
    Location { id }
}

fn ident(name: &str, id: u64) -> Token {
    Token::Ident { name: name.to_string(), loc: at(id) }
}

fn punct(ch: char, spacing: Spacing, id: u64) -> Token {
    Token::Punct { ch, spacing, loc: at(id) }
}

fn source(text: &str, id: u64) -> Token {
    Token::Literal { lit: Lit::Source(text.to_string()), loc: at(id) }
}

fn group(delimiter: Delimiter, stream: Vec<Token>, id: u64) -> Token {
    Token::Group { delimiter, stream, loc: at(id) }
}

/// The tokens of `crate::custom_literal::<kind>::<suffix>!(<component>)` at `id`.
fn call(kind: &str, suffix: &str, component: Lit, id: u64) -> Vec<Token> {
    vec![
        ident("crate", id),
        punct(':', Spacing::Joint, id),
        punct(':', Spacing::Alone, id),
        ident("custom_literal", id),
        punct(':', Spacing::Joint, id),
        punct(':', Spacing::Alone, id),
        ident(kind, id),
        punct(':', Spacing::Joint, id),
        punct(':', Spacing::Alone, id),
        ident(suffix, id),
        punct('!', Spacing::Alone, id),
        group(Delimiter::Parenthesis, vec![Token::Literal { lit: component, loc: at(id) }], id),
    ]
}

/// The tokens of `::core::compile_error!{ "<message>" }` at `id`.
fn halt(message: &str, id: u64) -> Vec<Token> {
    vec![
        punct(':', Spacing::Joint, id),
        punct(':', Spacing::Alone, id),
        ident("core", id),
        punct(':', Spacing::Joint, id),
        punct(':', Spacing::Alone, id),
        ident("compile_error", id),
        punct('!', Spacing::Alone, id),
        group(Delimiter::Brace, vec![Token::Literal { lit: Lit::Str(message.to_string()), loc: at(id) }], id),
    ]
}

fn rewrite(tokens: Vec<Token>) -> Vec<Token> {
    Rewriter::new(true).rewrite(&tokens).expect("well-formed literals")
}

fn rewrite_one(text: &str) -> Vec<Token> {
    rewrite(vec![source(text, 1)])
}

fn reserved(suffix: &str) -> String {
    format!("suffix {suffix}{RESERVED_MESSAGE}")
}

#[test]
fn stream_without_literals_is_unchanged() {
    let make = || {
        vec![
            ident("let", 1),
            ident("x", 2),
            punct('=', Spacing::Alone, 3),
            group(
                Delimiter::Parenthesis,
                vec![ident("a", 5), punct('+', Spacing::Alone, 6), group(Delimiter::Bracket, vec![], 7)],
                4,
            ),
            group(Delimiter::Invisible, vec![ident("true", 9)], 8),
            punct(';', Spacing::Alone, 10),
        ]
    };
    assert_eq!(rewrite(make()), make());
    assert_eq!(rewrite(vec![]), vec![]);
}

#[test]
fn empty_and_native_suffixes_pass_through() {
    for text in ["100", "100u32", "7i8", "1usize", "1.5", "1.5f64", "2.0f32", "1f32", "\"foo\"", "'a'", "b'a'", "b\"x\"", "c\"x\""] {
        assert_eq!(rewrite_one(text), vec![source(text, 1)], "{text}");
    }
}

#[test]
fn tokens_around_a_literal_stay_in_place() {
    let out = rewrite(vec![ident("f", 1), punct('(', Spacing::Alone, 2), source("3km", 3), punct(',', Spacing::Joint, 4)]);
    let mut expected = vec![ident("f", 1), punct('(', Spacing::Alone, 2)];
    expected.extend(call("integer", "km", Lit::Integer(3), 3));
    expected.push(punct(',', Spacing::Joint, 4));
    assert_eq!(out, expected);
}

#[test]
fn synthesized_literals_are_kept() {
    let make = || vec![Token::Literal { lit: Lit::ByteStr(vec![1, 2]), loc: at(1) }, Token::Literal { lit: Lit::Float("1.5".to_string()), loc: at(2) }];
    assert_eq!(rewrite(make()), make());
}

#[test]
fn decomposition_examples() {
    assert_eq!(rewrite_one("0b1111x"), call("integer", "x", Lit::Integer(15), 1));
    assert_eq!(rewrite_one("0xDEAD_BEEFx"), call("integer", "x", Lit::Integer(3735928559), 1));
    assert_eq!(rewrite_one("70.8e7x"), call("float", "x", Lit::Float("70.8e7".to_string()), 1));
    assert_eq!(rewrite_one("7_0_.1_2e-7_x"), call("float", "x", Lit::Float("70.12e-7".to_string()), 1));
    assert_eq!(rewrite_one("r\"foo\\\"x"), call("string", "x", Lit::Str("foo\\".to_string()), 1));
    assert_eq!(rewrite_one("\"a\\tb\"x"), call("string", "x", Lit::Str("a\tb".to_string()), 1));
    assert_eq!(rewrite_one("b'a'x"), call("byte_character", "x", Lit::Integer(97), 1));
    assert_eq!(rewrite_one("'\\u{e9}'x"), call("character", "x", Lit::Char('é'), 1));
    assert_eq!(rewrite_one("b\"a\\x01\"x"), call("byte_string", "x", Lit::ByteStr(vec![97, 1]), 1));
    assert_eq!(rewrite_one("c\"foo\"x"), call("c_string", "x", Lit::CStr(b"foo".to_vec()), 1));
}

#[test]
fn raw_and_escaped_strings_decompose_alike() {
    assert_eq!(rewrite_one("r#\"a\\b\"#x"), rewrite_one("\"a\\\\b\"x"));
    assert_eq!(rewrite_one("br\"a\\b\"x"), rewrite_one("b\"a\\\\b\"x"));
}

#[test]
fn c_strings_without_support_are_diagnosed() {
    let tokens = vec![source("c\"foo\"x", 4)];
    let out = Rewriter::new(false).rewrite(&tokens).unwrap();
    assert_eq!(out, halt(C_STRING_MESSAGE, 4));
    // without a suffix the literal is kept
    let plain = vec![source("c\"foo\"", 4)];
    assert_eq!(Rewriter::new(false).rewrite(&plain).unwrap(), vec![source("c\"foo\"", 4)]);
}

#[test]
fn reserved_suffixes_are_diagnosed() {
    assert_eq!(rewrite_one("100i256"), halt(&reserved("i256"), 1));
    assert_eq!(rewrite_one("100u256"), halt(&reserved("u256"), 1));
    assert_eq!(rewrite_one("70.0f16"), halt(&reserved("f16"), 1));
    assert_eq!(rewrite_one("70.0f128"), halt(&reserved("f128"), 1));
    assert_eq!(rewrite_one("1f16"), halt(&reserved("f16"), 1));
    // a reserved name of one kind is an ordinary suffix on another
    assert_eq!(rewrite_one("\"s\"i256"), call("string", "i256", Lit::Str("s".to_string()), 1));
    assert_eq!(rewrite_one("70.0u256"), call("float", "u256", Lit::Float("70.0".to_string()), 1));
}

#[test]
fn integer_overflow_is_diagnosed() {
    assert_eq!(
        rewrite_one("340282366920938463463374607431768211455x"),
        call("integer", "x", Lit::Integer(u128::MAX), 1)
    );
    assert_eq!(rewrite_one("340282366920938463463374607431768211456x"), halt(OVERFLOW_MESSAGE, 1));
    assert_eq!(rewrite_one("0x1_0000_0000_0000_0000_0000_0000_0000_0000x"), halt(OVERFLOW_MESSAGE, 1));
}

#[test]
fn every_synthesized_token_has_the_literal_location() {
    fn all_at(tokens: &[Token], id: u64) -> bool {
        tokens.iter().all(|t| match t {
            Token::Ident { loc, .. } | Token::Punct { loc, .. } | Token::Literal { loc, .. } => loc.id == id,
            Token::Group { stream, loc, .. } => loc.id == id && all_at(stream, id),
        })
    }
    for text in ["12km", "1.5m", "\"s\"f", "'c'u", "b'c'u", "b\"s\"f", "c\"s\"f", "1i256", "99999999999999999999999999999999999999999x"] {
        let out = rewrite(vec![source(text, 42)]);
        assert!(out.len() > 1, "{text}");
        assert!(all_at(&out, 42), "{text}");
    }
}

#[test]
fn nested_literals_are_rewritten_in_their_groups() {
    let input = vec![group(
        Delimiter::Brace,
        vec![group(Delimiter::Bracket, vec![group(Delimiter::Invisible, vec![source("5s", 4)], 3)], 2)],
        1,
    )];
    let expected = vec![group(
        Delimiter::Brace,
        vec![group(Delimiter::Bracket, vec![group(Delimiter::Invisible, call("integer", "s", Lit::Integer(5), 4), 3)], 2)],
        1,
    )];
    assert_eq!(rewrite(input), expected);
}

#[test]
fn a_diagnostic_leaves_other_literals_alone() {
    let out = rewrite(vec![source("1i256", 1), source("2km", 2), group(Delimiter::Parenthesis, vec![source("3.0f16", 4), source("4km", 5)], 3)]);
    let mut expected = halt(&reserved("i256"), 1);
    expected.extend(call("integer", "km", Lit::Integer(2), 2));
    let mut inner = halt(&reserved("f16"), 4);
    inner.extend(call("integer", "km", Lit::Integer(4), 5));
    expected.push(group(Delimiter::Parenthesis, inner, 3));
    assert_eq!(out, expected);
}

#[test]
fn arguments_are_refused() {
    let args = vec![ident("x", 1)];
    assert_eq!(culit(&args, &vec![source("1km", 2)], true), Err(RewriteError::UnexpectedArguments));
    assert_eq!(culit(&vec![], &vec![source("1km", 2)], true), Ok(call("integer", "km", Lit::Integer(1), 2)));
}

#[test]
fn malformed_literal_is_an_error() {
    let tokens = vec![source("1km", 1), group(Delimiter::Brace, vec![source("\"open", 3)], 2)];
    assert_eq!(
        Rewriter::new(true).rewrite(&tokens),
        Err(RewriteError::MalformedLiteral { text: "\"open".to_string() })
    );
    assert_eq!(
        Rewriter::new(true).rewrite_literal(&"".to_string(), at(1)),
        Err(RewriteError::MalformedLiteral { text: String::new() })
    );
}

#[test]
fn rewrite_token_and_literal() {
    let r = Rewriter::new(true);
    assert_eq!(r.rewrite_literal(&"9h".to_string(), at(3)), Ok(call("integer", "h", Lit::Integer(9), 3)));
    assert_eq!(r.rewrite_token(&ident("x", 1)), Ok(vec![ident("x", 1)]));
    assert_eq!(r.rewrite_token(&source("2.5e1_m", 6)), Ok(call("float", "m", Lit::Float("2.5e1".to_string()), 6)));
}

#[test]
fn routes_by_kind_and_suffix() {
    assert_eq!(route(LitKind::Integer, ""), Route::PassThrough);
    assert_eq!(route(LitKind::Integer, "u64"), Route::PassThrough);
    assert_eq!(route(LitKind::Integer, "f64"), Route::PassThrough);
    assert_eq!(route(LitKind::Integer, "i256"), Route::Reserved);
    assert_eq!(route(LitKind::Integer, "km"), Route::Custom);
    assert_eq!(route(LitKind::Float, "f32"), Route::PassThrough);
    assert_eq!(route(LitKind::Float, "u8"), Route::Custom);
    assert_eq!(route(LitKind::Float, "f128"), Route::Reserved);
    assert_eq!(route(LitKind::Str, "u8"), Route::Custom);
    assert_eq!(route(LitKind::CStr, "f16"), Route::Custom);
    assert_eq!(route(LitKind::Bool, "x"), Route::PassThrough);
}

#[test]
fn suffix_sets() {
    for s in ["i8", "i16", "i32", "i64", "i128", "isize", "u8", "u16", "u32", "u64", "u128", "usize"] {
        assert!(is_native_suffix(LitKind::Integer, s));
        assert!(!is_native_suffix(LitKind::Float, s));
        assert!(!is_reserved_suffix(LitKind::Integer, s));
    }
    assert!(is_native_suffix(LitKind::Float, "f64"));
    assert!(!is_native_suffix(LitKind::Char, "f64"));
    assert!(is_reserved_suffix(LitKind::Float, "f16"));
    assert!(!is_reserved_suffix(LitKind::Float, "i256"));
    assert!(!is_reserved_suffix(LitKind::ByteStr, "f16"));
    assert!(!is_native_suffix(LitKind::Integer, "i3"));
}

#[test]
fn text_comparison() {
    assert!(same_text("abc", "abc"));
    assert!(!same_text("abc", "abd"));
    assert!(!same_text("ab", "abc"));
    assert!(same_text("", ""));
}

#[test]
fn underscores_are_stripped() {
    assert_eq!(strip_underscores("7_0_.1_2_3_e_7"), "70.123e7");
    assert_eq!(strip_underscores("___"), "");
    assert_eq!(strip_underscores(""), "");
    assert_eq!(strip_underscores("1.5"), "1.5");
}

#[test]
fn handler_calls_and_diagnostics() {
    assert_eq!(handler_call_tokens(LitKind::Char, "up", Lit::Char('a'), at(9)), call("character", "up", Lit::Char('a'), 9));
    assert_eq!(custom_tokens(LitKind::Integer, Some(Lit::Integer(15)), "x", at(2), true), call("integer", "x", Lit::Integer(15), 2));
    assert_eq!(custom_tokens(LitKind::Integer, None, "x", at(2), true), halt(OVERFLOW_MESSAGE, 2));
    assert_eq!(custom_tokens(LitKind::CStr, Some(Lit::CStr(vec![1])), "x", at(2), false), halt(C_STRING_MESSAGE, 2));
    assert_eq!(custom_tokens(LitKind::CStr, Some(Lit::CStr(vec![1])), "x", at(2), true), call("c_string", "x", Lit::CStr(vec![1]), 2));
    let e = CompileError::new(at(5), "bad");
    assert_eq!(e.loc, at(5));
    assert_eq!(e.message, "bad");
    assert_eq!(e.into_tokens(), halt("bad", 5));
    assert_eq!(reserved_suffix_message("u256"), reserved("u256"));
}
