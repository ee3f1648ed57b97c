//! Calls into the outside crates `url`, `serde_json` and `base64`, and the
//! outside types that the library carries.
//!
//! Everything in this file is trusted: Verus believes the contracts below
//! without reading the bodies. A result that takes pages to state (what the
//! url crate makes of a string) is given a name, an uninterpreted spec
//! function of the call's arguments; JSON string literals and base64 texts
//! are stated in full.

use base64::Engine;
use vstd::prelude::*;

verus! {

/// `url::ParseError`, the reason why a string is not an absolute URL.
#[verifier::external_type_specification]
#[verifier::external_body]
pub struct ExUrlParseError(url::ParseError);

/// `std::io::Error`.
#[verifier::external_type_specification]
#[verifier::external_body]
pub struct ExIoError(std::io::Error);

/// `std::sync::mpsc::RecvError`.
#[verifier::external_type_specification]
#[verifier::external_body]
pub struct ExRecvError(std::sync::mpsc::RecvError);

/// `serde_json::Error`.
#[verifier::external_type_specification]
#[verifier::external_body]
pub struct ExJsonError(serde_json::Error);

/// The serialization of the URL that `url::Url::parse` makes of `input`, or
/// `None` where it returns an error.
pub uninterp spec fn url_text(input: Seq<char>) -> Option<Seq<char>>;

/// The ASCII serialization of the origin of the URL that `url::Url::parse`
/// makes of `input`, or `None` where it returns an error.
pub uninterp spec fn url_origin_text(input: Seq<char>) -> Option<Seq<char>>;

/// The decoded name/value pairs of the query of the URL that `url::Url::parse`
/// makes of `input`, in order, or `None` where it returns an error.
pub uninterp spec fn url_query_pairs(input: Seq<char>) -> Option<Seq<(Seq<char>, Seq<char>)>>;

/// The serialization of the URL that `url::Url::parse_with_params` makes of
/// `base` and `params`, or `None` where it returns an error.
pub uninterp spec fn url_with_params_text(
    base: Seq<char>,
    params: Seq<(Seq<char>, Seq<char>)>,
) -> Option<Seq<char>>;

/// The address `s` holds no `?` (which would start a query) and no `#`
/// (which would start a fragment).
pub open spec fn plain_address(s: Seq<char>) -> bool {
    !s.contains('?') && !s.contains('#')
}

/// The lower-case hexadecimal digit of `d` (below 16).
pub open spec fn hex_digit(d: int) -> char {
    if d < 10 {
        (48 + d) as char
    } else {
        (87 + d) as char
    }
}

/// How serde_json writes the character `c` inside a string literal (its
/// `ESCAPE` table): `"` and `\` behind a backslash; backspace, tab, line
/// feed, form feed and carriage return as `\b`, `\t`, `\n`, `\f`, `\r`;
/// the other characters below U+0020 as `\u00` and two lower-case hex
/// digits; every other character as itself.
pub open spec fn json_escaped_char(c: char) -> Seq<char> {
    let n = c as int;
    if c == '"' {
        seq!['\\', '"']
    } else if c == '\\' {
        seq!['\\', '\\']
    } else if n == 8 {
        seq!['\\', 'b']
    } else if n == 9 {
        seq!['\\', 't']
    } else if n == 10 {
        seq!['\\', 'n']
    } else if n == 12 {
        seq!['\\', 'f']
    } else if n == 13 {
        seq!['\\', 'r']
    } else if n < 32 {
        seq!['\\', 'u', '0', '0', hex_digit(n / 16), hex_digit(n % 16)]
    } else {
        seq![c]
    }
}

/// The characters of `s`, each written as serde_json writes it inside a
/// string literal.
pub open spec fn json_escaped(s: Seq<char>) -> Seq<char>
    decreases s.len(),
{
    if s.len() == 0 {
        Seq::empty()
    } else {
        json_escaped(s.drop_last()) + json_escaped_char(s.last())
    }
}

/// The JSON string literal that `serde_json::to_string` makes of the text
/// `s`: a quote, the escaped characters, a quote.
pub open spec fn json_string_text(s: Seq<char>) -> Seq<char> {
    seq!['"'] + json_escaped(s) + seq!['"']
}

/// The character of the six-bit value `v` in the standard base64 alphabet
/// (RFC 4648): `A`-`Z`, `a`-`z`, `0`-`9`, `+`, `/`.
pub open spec fn base64_char(v: int) -> char {
    if v < 26 {
        (65 + v) as char
    } else if v < 52 {
        (71 + v) as char
    } else if v < 62 {
        (v - 4) as char
    } else if v == 62 {
        '+'
    } else {
        '/'
    }
}

/// The padded standard base64 text of the bytes `b`: each group of three
/// bytes as four characters; a last group of one or two bytes as two or
/// three characters and `=` padding to four.
pub open spec fn base64_bytes(b: Seq<u8>) -> Seq<char>
    decreases b.len(),
{
    if b.len() == 0 {
        Seq::empty()
    } else if b.len() == 1 {
        let x = b[0] as int;
        seq![base64_char(x / 4), base64_char((x % 4) * 16), '=', '=']
    } else if b.len() == 2 {
        let x = b[0] as int;
        let y = b[1] as int;
        seq![base64_char(x / 4), base64_char((x % 4) * 16 + y / 16), base64_char((y % 16) * 4), '=']
    } else {
        let x = b[0] as int;
        let y = b[1] as int;
        let z = b[2] as int;
        seq![
            base64_char(x / 4),
            base64_char((x % 4) * 16 + y / 16),
            base64_char((y % 16) * 4 + z / 64),
            base64_char(z % 64),
        ] + base64_bytes(b.subrange(3, b.len() as int))
    }
}

/// The padded base64 text that the `STANDARD` engine of `base64` makes of the
/// UTF-8 bytes of `s`.
pub open spec fn base64_text(s: Seq<char>) -> Seq<char> {
    base64_bytes(vstd::utf8::encode_utf8(s))
}

/// Calls `url::Url::parse` and serializes the URL (`Url::to_string`).
/// Claimed: `Ok` exactly where the named parse succeeds, with the named text.
/// Which `ParseError` comes back is left unsaid.
#[verifier::external_body]
pub(crate) fn parse_url(input: &str) -> (r: Result<String, url::ParseError>)
    ensures
        r is Ok <==> url_text(input@) is Some,
        r matches Ok(t) ==> t@ == url_text(input@)->0,
{
    match url::Url::parse(input) {
        Ok(u) => Ok(u.to_string()),
        Err(e) => Err(e),
    }
}

/// Calls `url::Url::parse`, then `Url::origin`, and gives the origin by
/// `Origin::ascii_serialization`. In the url crate an opaque origin (every
/// scheme but ftp, http, https, ws, wss and blob) serializes as `null` and is
/// equal to no origin of another parse; a tuple origin serializes as
/// `scheme://host[:port]`, which is never `null`, and two tuple origins are
/// equal exactly where their serializations are.
/// Claimed: `Ok` exactly where the named parse succeeds, with the named text.
#[verifier::external_body]
pub(crate) fn parse_origin(input: &str) -> (r: Result<String, url::ParseError>)
    ensures
        r is Ok <==> url_origin_text(input@) is Some,
        r matches Ok(t) ==> t@ == url_origin_text(input@)->0,
{
    match url::Url::parse(input) {
        Ok(u) => Ok(u.origin().ascii_serialization()),
        Err(e) => Err(e),
    }
}

/// Calls `url::Url::parse`, then `Url::query_pairs`, and collects the decoded
/// pairs as owned strings, in the order in which they come.
/// Claimed: `Ok` exactly where the named parse succeeds, with the named pairs.
#[verifier::external_body]
pub(crate) fn parse_query_pairs(input: &str) -> (r: Result<Vec<(String, String)>, url::ParseError>)
    ensures
        r is Ok <==> url_query_pairs(input@) is Some,
        r matches Ok(p) ==> p.deep_view() == url_query_pairs(input@)->0,
{
    match url::Url::parse(input) {
        Ok(u) => Ok(u.query_pairs().map(|(k, v)| (k.into_owned(), v.into_owned())).collect()),
        Err(e) => Err(e),
    }
}

/// Calls `url::Url::parse_with_params` and serializes the URL.
/// Claimed: `Ok` exactly where the named call succeeds, with the named text.
/// Where it succeeds, `base` parses too, and the result differs from the
/// parse of `base` only in its query, to which `parse_with_params`
/// appends the pairs form-urlencoded (`query_pairs_mut().extend_pairs`):
/// parsed again, the result has the origin of `base`, and its decoded query
/// pairs are those of `base` followed by `params`. It succeeds exactly where
/// `Url::parse` does on `base` (both go through `ParseOptions::parse`).
/// Where `base` has no `?` and no `#`, the parsed `base` has no query and no
/// fragment: its query pairs are none, and `query_pairs_mut` pushes `?` at
/// the end of its serialization, so that serialization followed by `?`
/// begins the result (scheme, host, port and path are kept).
#[verifier::external_body]
pub(crate) fn parse_url_with_params(base: &str, params: &Vec<(String, String)>) -> (r: Result<
    String,
    url::ParseError,
>)
    ensures
        r is Ok <==> url_with_params_text(base@, params.deep_view()) is Some,
        r matches Ok(t) ==> t@ == url_with_params_text(base@, params.deep_view())->0,
        r matches Ok(t) ==> url_query_pairs(base@) is Some && url_query_pairs(t@) == Some(
            url_query_pairs(base@)->0 + params.deep_view(),
        ) && url_origin_text(t@) == url_origin_text(base@),
        r is Ok <==> url_text(base@) is Some,
        r matches Ok(t) ==> (plain_address(base@) ==> (url_query_pairs(base@) == Some(
            Seq::<(Seq<char>, Seq<char>)>::empty(),
        ) && t@.len() > url_text(base@)->0.len() && t@.subrange(0, url_text(base@)->0.len() + 1int)
            == url_text(base@)->0.push('?'))),
{
    match url::Url::parse_with_params(base, params) {
        Ok(u) => Ok(u.to_string()),
        Err(e) => Err(e),
    }
}

/// Calls `serde_json::to_string` on a `str`. serde_json documents that
/// serialization fails only where the value's `Serialize` impl decides to
/// fail or a map has non-string keys; neither can happen for a `str`, so the
/// result is claimed to be `Ok`, with the literal that serde_json's escape
/// table gives (`json_string_text`).
#[verifier::external_body]
pub(crate) fn json_string(s: &str) -> (r: Result<String, serde_json::Error>)
    ensures
        r is Ok,
        r matches Ok(t) ==> t@ == json_string_text(s@),
{
    serde_json::to_string(s)
}

/// Calls `Engine::encode` of `base64::engine::general_purpose::STANDARD` on
/// the UTF-8 bytes of `s`. Claimed: their padded standard base64 text
/// (`base64_text`).
#[verifier::external_body]
pub(crate) fn base64_encode(s: &str) -> (r: String)
    ensures
        r@ == base64_text(s@),
{
    base64::engine::general_purpose::STANDARD.encode(s)
}

/// A text without quotes, backslashes and characters below U+0020 is
/// written as itself between quotes.
pub proof fn law_plain_text_is_quoted_as_is(s: Seq<char>)
    requires
        forall|i: int| 0 <= i < s.len() ==> s[i] != '"' && s[i] != '\\' && (s[i] as int) >= 32,
    ensures
        json_escaped(s) == s,
        json_string_text(s) == seq!['"'] + s + seq!['"'],
    decreases s.len(),
{
    if s.len() > 0 {
        let rest = s.drop_last();
        assert forall|i: int| 0 <= i < rest.len() implies rest[i] != '"' && rest[i] != '\\' && (
        rest[i] as int) >= 32 by {
            assert(rest[i] == s[i]);
        }
        law_plain_text_is_quoted_as_is(rest);
        assert(s[s.len() - 1] == s.last());
        assert(json_escaped_char(s.last()) == seq![s.last()]);
        assert(rest + seq![s.last()] =~= s);
    }
}

} // verus!
