//! Literal classification and decomposition, done by `litrs`, and the closed
//! sets of suffixes that decide what becomes of a literal.
use litrs::Literal as L;
use vstd::prelude::*;

verus! {

/// The kind of a literal, as `litrs` tells it from the literal's text.
#[derive(Clone, Copy, Debug, PartialEq, Eq)]
pub enum LitKind {
    /// `true` or `false`; a token stream holds these as identifiers.
    Bool,
    Integer,
    Float,
    Str,
    Char,
    Byte,
    ByteStr,
    CStr,
}

/// What `litrs::Literal::parse` makes of a literal's text: `None` where it
/// refuses the text, else the kind of the literal.
pub uninterp spec fn literal_class(text: Seq<char>) -> Option<LitKind>;

/// What `litrs::Literal::suffix` returns for the literal parsed from the text.
pub uninterp spec fn literal_suffix(text: Seq<char>) -> Seq<char>;

/// What `litrs::IntegerLit::value::<u128>` returns: `None` where the value
/// does not fit.
pub uninterp spec fn integer_value(text: Seq<char>) -> Option<u128>;

/// What `litrs::StringLit::value` returns: the string with escapes resolved.
pub uninterp spec fn string_value(text: Seq<char>) -> Seq<char>;

/// What `litrs::CharLit::value` returns.
pub uninterp spec fn char_value(text: Seq<char>) -> char;

/// What `litrs::ByteLit::value` returns.
pub uninterp spec fn byte_value(text: Seq<char>) -> u8;

/// What `litrs::ByteStringLit::value` returns: the bytes with escapes resolved.
pub uninterp spec fn byte_string_value(text: Seq<char>) -> Seq<u8>;

/// The bytes of what `litrs::CStringLit::value` returns, without the closing nul.
pub uninterp spec fn c_string_value(text: Seq<char>) -> Seq<u8>;

/// Relies on `litrs::Literal::parse`, which refuses malformed text and tells
/// the kind of a literal, and on `Literal::suffix`, a slice of the text from
/// where the suffix starts to its end.
#[verifier::external_body]
pub(crate) fn classify(text: &str) -> (r: Option<(LitKind, String)>)
    ensures
        r is Some <==> literal_class(text@) is Some,
        r matches Some((kind, suffix)) ==> {
            &&& literal_class(text@) == Some(kind)
            &&& suffix@ == literal_suffix(text@)
            &&& suffix@.len() <= text@.len()
            &&& text@.subrange(text@.len() - suffix@.len(), text@.len() as int) == suffix@
        },
{
    let lit = L::parse(text).ok()?;
    let kind = match &lit {
        L::Bool(_) => LitKind::Bool,
        L::Integer(_) => LitKind::Integer,
        L::Float(_) => LitKind::Float,
        L::String(_) => LitKind::Str,
        L::Char(_) => LitKind::Char,
        L::Byte(_) => LitKind::Byte,
        L::ByteString(_) => LitKind::ByteStr,
        L::CString(_) => LitKind::CStr,
        _ => return None,
    };
    Some((kind, lit.suffix().to_string()))
}

/// Relies on `litrs::Literal::parse` and `IntegerLit::value::<u128>`, the
/// value of the digits in the literal's base, or `None` on overflow.
#[verifier::external_body]
pub(crate) fn parse_integer_value(text: &str) -> (r: Option<Option<u128>>)
    ensures
        r is Some <==> literal_class(text@) == Some(LitKind::Integer),
        r matches Some(v) ==> v == integer_value(text@),
{
    match L::parse(text) {
        Ok(L::Integer(l)) => Some(l.value::<u128>()),
        _ => None,
    }
}

/// Relies on `litrs::Literal::parse` and `StringLit::value`.
#[verifier::external_body]
pub(crate) fn parse_string_value(text: &str) -> (r: Option<String>)
    ensures
        r is Some <==> literal_class(text@) == Some(LitKind::Str),
        r matches Some(v) ==> v@ == string_value(text@),
{
    match L::parse(text) {
        Ok(L::String(l)) => Some(l.value().to_string()),
        _ => None,
    }
}

/// Relies on `litrs::Literal::parse` and `CharLit::value`.
#[verifier::external_body]
pub(crate) fn parse_char_value(text: &str) -> (r: Option<char>)
    ensures
        r is Some <==> literal_class(text@) == Some(LitKind::Char),
        r matches Some(v) ==> v == char_value(text@),
{
    match L::parse(text) {
        Ok(L::Char(l)) => Some(l.value()),
        _ => None,
    }
}

/// Relies on `litrs::Literal::parse` and `ByteLit::value`.
#[verifier::external_body]
pub(crate) fn parse_byte_value(text: &str) -> (r: Option<u8>)
    ensures
        r is Some <==> literal_class(text@) == Some(LitKind::Byte),
        r matches Some(v) ==> v == byte_value(text@),
{
    match L::parse(text) {
        Ok(L::Byte(l)) => Some(l.value()),
        _ => None,
    }
}

/// Relies on `litrs::Literal::parse` and `ByteStringLit::value`.
#[verifier::external_body]
pub(crate) fn parse_byte_string_value(text: &str) -> (r: Option<Vec<u8>>)
    ensures
        r is Some <==> literal_class(text@) == Some(LitKind::ByteStr),
        r matches Some(v) ==> v@ == byte_string_value(text@),
{
    match L::parse(text) {
        Ok(L::ByteString(l)) => Some(l.value().to_vec()),
        _ => None,
    }
}

/// Relies on `litrs::Literal::parse` and `CStringLit::value`, whose bytes are
/// taken without the closing nul.
#[verifier::external_body]
pub(crate) fn parse_c_string_value(text: &str) -> (r: Option<Vec<u8>>)
    ensures
        r is Some <==> literal_class(text@) == Some(LitKind::CStr),
        r matches Some(v) ==> v@ == c_string_value(text@),
{
    match L::parse(text) {
        Ok(L::CString(l)) => Some(l.value().to_bytes().to_vec()),
        _ => None,
    }
}

/// Whether two strings hold the same characters.
pub fn same_text(a: &str, b: &str) -> (r: bool)
    ensures
        r == (a@ == b@),
{
    let n = a.unicode_len();
    if n != b.unicode_len() {
        return false;
    }
    let mut i: usize = 0;
    while i < n
        invariant
            n == a@.len(),
            n == b@.len(),
            i <= n,
            forall|j: int| 0 <= j < i ==> a@[j] == b@[j],
        decreases n - i,
    {
        if a.get_char(i) != b.get_char(i) {
            return false;
        }
        i = i + 1;
    }
    assert(a@ =~= b@);
    true
}

/// The suffixes that the host language gives a meaning to, for a literal of
/// the given kind. An integer-looking literal with a float suffix (`1f32`)
/// is a float to the host, so both numeric kinds know the float suffixes.
pub open spec fn native_suffix(kind: LitKind, s: Seq<char>) -> bool {
    match kind {
        LitKind::Integer => integer_type_suffix(s) || float_type_suffix(s),
        LitKind::Float => float_type_suffix(s),
        _ => false,
    }
}

/// The suffixes that the host language does not use yet but may claim.
pub open spec fn reserved_suffix(kind: LitKind, s: Seq<char>) -> bool {
    match kind {
        LitKind::Integer => s == "i256"@ || s == "u256"@ || s == "f16"@ || s == "f128"@,
        LitKind::Float => s == "f16"@ || s == "f128"@,
        _ => false,
    }
}

/// The suffixes of the host's integer types.
pub open spec fn integer_type_suffix(s: Seq<char>) -> bool {
    ||| s == "i8"@
    ||| s == "i16"@
    ||| s == "i32"@
    ||| s == "i64"@
    ||| s == "i128"@
    ||| s == "isize"@
    ||| s == "u8"@
    ||| s == "u16"@
    ||| s == "u32"@
    ||| s == "u64"@
    ||| s == "u128"@
    ||| s == "usize"@
}

/// The suffixes of the host's float types.
pub open spec fn float_type_suffix(s: Seq<char>) -> bool {
    s == "f32"@ || s == "f64"@
}

fn is_integer_type_suffix(s: &str) -> (r: bool)
    ensures
        r == integer_type_suffix(s@),
{
    same_text(s, "i8") || same_text(s, "i16") || same_text(s, "i32") || same_text(s, "i64")
        || same_text(s, "i128") || same_text(s, "isize") || same_text(s, "u8") || same_text(
        s,
        "u16",
    ) || same_text(s, "u32") || same_text(s, "u64") || same_text(s, "u128") || same_text(
        s,
        "usize",
    )
}

fn is_float_type_suffix(s: &str) -> (r: bool)
    ensures
        r == float_type_suffix(s@),
{
    same_text(s, "f32") || same_text(s, "f64")
}

/// Whether the host language gives the suffix a meaning on this kind.
pub fn is_native_suffix(kind: LitKind, s: &str) -> (r: bool)
    ensures
        r == native_suffix(kind, s@),
{
    match kind {
        LitKind::Integer => is_integer_type_suffix(s) || is_float_type_suffix(s),
        LitKind::Float => is_float_type_suffix(s),
        _ => false,
    }
}

/// Whether the host language may claim the suffix on this kind later.
pub fn is_reserved_suffix(kind: LitKind, s: &str) -> (r: bool)
    ensures
        r == reserved_suffix(kind, s@),
{
    match kind {
        LitKind::Integer => same_text(s, "i256") || same_text(s, "u256") || same_text(s, "f16")
            || same_text(s, "f128"),
        LitKind::Float => same_text(s, "f16") || same_text(s, "f128"),
        _ => false,
    }
}

/// A text without its underscores.
pub open spec fn without_underscores(s: Seq<char>) -> Seq<char> {
    s.filter(|c: char| c != '_')
}

/// Drops the underscores of a numeric text (`7_0.1_2e7` becomes `70.12e7`).
pub fn strip_underscores(s: &str) -> (r: String)
    ensures
        r@ == without_underscores(s@),
{
    let n = s.unicode_len();
    let mut r = String::new();
    let mut i: usize = 0;
    while i < n
        invariant
            n == s@.len(),
            i <= n,
            r@ == without_underscores(s@.subrange(0, i as int)),
        decreases n - i,
    {
        let c = s.get_char(i);
        proof {
            reveal(Seq::filter);
            assert(s@.subrange(0, i + 1).drop_last() =~= s@.subrange(0, i as int));
        }
        if c != '_' {
            r.append(s.substring_char(i, i + 1));
        }
        i = i + 1;
    }
    assert(s@.subrange(0, n as int) =~= s@);
    r
}

} // verus!
