//! The calls this library makes into std and into outside crates, each with
//! the contract that the callee's source or documentation gives it.

use rand::Rng;
use crate::text::digit_char;
use vstd::prelude::*;
use vstd::utf8::{decode_utf8, valid_utf8};

verus! {

/// The view of an optional string.
pub open spec fn opt_view(o: Option<String>) -> Option<Seq<char>> {
    match o {
        Some(s) => Some(s@),
        None => None,
    }
}

/// The text that `String::from_utf8_lossy` makes of `bytes`.
pub uninterp spec fn utf8_lossy(bytes: Seq<u8>) -> Seq<char>;

/// Calls `String::from_utf8_lossy`. Claimed: the result depends on the bytes
/// alone, and a byte sequence that is valid UTF-8 is decoded as it stands
/// and a non-empty byte sequence gives a non-empty text (invalid sequences
/// become U+FFFD; which replacements are made is left unsaid here).
#[verifier::external_body]
pub(crate) fn decode_lossy(bytes: &[u8]) -> (text: String)
    ensures
        text@ == utf8_lossy(bytes@),
        valid_utf8(bytes@) ==> text@ == decode_utf8(bytes@),
        bytes@.len() > 0 ==> text@.len() > 0,
{
    String::from_utf8_lossy(bytes).into_owned()
}

/// What `regex::Regex::new(pattern)` followed by `replace_all(haystack,
/// replacement)` gives: `None` when the pattern is refused.
pub uninterp spec fn regex_replace_all(
    pattern: Seq<char>,
    haystack: Seq<char>,
    replacement: Seq<char>,
) -> Option<Seq<char>>;

/// Compiles `pattern` with `regex::Regex::new` and replaces every match in
/// `haystack` with `replacement` (`Regex::replace_all`). Claimed: the result
/// depends on the three strings alone, and the three control-sequence
/// patterns named below compile (every construct in them, `\x1b`, `\a`,
/// escaped brackets, a class, lazy repetition, a group with alternation and
/// `$`, is in the crate's documented syntax, and they are far below its
/// size limits); nothing is said of which text matches.
#[verifier::external_body]
pub(crate) fn replace_all_matches(pattern: &str, haystack: &str, replacement: &str) -> (res: Option<
    String,
>)
    ensures
        opt_view(res) == regex_replace_all(pattern@, haystack@, replacement@),
        (pattern@ == "\\x1b\\[[0-9;]*m"@ || pattern@ == "\\x1b\\]0;(.*?)(\\n|$)"@ || pattern@
            == "\\x1b\\]0;(.*?)\\a"@) ==> res is Some,
{
    match regex::Regex::new(pattern) {
        Ok(re) => Some(re.replace_all(haystack, replacement).into_owned()),
        Err(_) => None,
    }
}

/// A lower-case hexadecimal digit (`0 <= d < 16`).
pub open spec fn lower_hex_char(d: nat) -> char {
    if d < 10 {
        digit_char(d)
    } else if d == 10 {
        'a'
    } else if d == 11 {
        'b'
    } else if d == 12 {
        'c'
    } else if d == 13 {
        'd'
    } else if d == 14 {
        'e'
    } else {
        'f'
    }
}

/// How serde_json writes one character inside a string literal: a quote and
/// a backslash get a backslash, backspace, tab, line feed, form feed and
/// carriage return get their short escapes, any other character below
/// U+0020 becomes `\u00` and two lower-case hex digits, and every other
/// character is written as it is.
pub open spec fn json_char_escape(c: char) -> Seq<char> {
    let v = c as u32;
    if c == '"' {
        seq!['\\', '"']
    } else if c == '\\' {
        seq!['\\', '\\']
    } else if v == 0x08u32 {
        seq!['\\', 'b']
    } else if v == 0x09u32 {
        seq!['\\', 't']
    } else if v == 0x0au32 {
        seq!['\\', 'n']
    } else if v == 0x0cu32 {
        seq!['\\', 'f']
    } else if v == 0x0du32 {
        seq!['\\', 'r']
    } else if v < 0x20u32 {
        seq!['\\', 'u', '0', '0', lower_hex_char((v / 16) as nat), lower_hex_char((v % 16) as nat)]
    } else {
        seq![c]
    }
}

/// The characters of `s`, each escaped for a JSON string literal.
pub open spec fn json_escaped(s: Seq<char>) -> Seq<char>
    decreases s.len(),
{
    if s.len() == 0 {
        seq![]
    } else {
        json_char_escape(s[0]) + json_escaped(s.drop_first())
    }
}

/// The JSON string literal that `serde_json::to_string` writes for `s`:
/// the escaped characters between two quotes.
pub open spec fn json_string_literal(s: Seq<char>) -> Seq<char> {
    seq!['"'] + json_escaped(s) + seq!['"']
}

/// A string that serde_json writes without any escape: no quote, no
/// backslash and no control character below U+0020.
pub open spec fn json_plain(s: Seq<char>) -> bool {
    forall|i: int|
        0 <= i < s.len() ==> s[i] != '"' && s[i] != '\\' && (s[i] as u32) >= 0x20u32
}

proof fn lemma_json_plain_escaped(s: Seq<char>)
    requires
        json_plain(s),
    ensures
        json_escaped(s) == s,
    decreases s.len(),
{
    if s.len() > 0 {
        let rest = s.drop_first();
        assert(s[0] != '"' && s[0] != '\\' && (s[0] as u32) >= 0x20u32);
        assert forall|i: int| 0 <= i < rest.len() implies rest[i] != '"' && rest[i] != '\\'
            && (rest[i] as u32) >= 0x20u32 by {
            assert(rest[i] == s[i + 1]);
        }
        lemma_json_plain_escaped(rest);
        assert(json_char_escape(s[0]) == seq![s[0]]);
        assert(json_escaped(s) =~= s);
    } else {
        assert(json_escaped(s) =~= s);
    }
}

/// A string with nothing to escape is written between two quotes as it
/// stands.
pub proof fn lemma_json_plain_literal(s: Seq<char>)
    requires
        json_plain(s),
    ensures
        json_string_literal(s) == seq!['"'] + s + seq!['"'],
{
    lemma_json_plain_escaped(s);
}

/// Calls `serde_json::to_string` on a string slice. Claimed, from the
/// source (the compact formatter and its escape table): serialising a `str`
/// into the in-memory buffer never fails, and the result is the string's
/// characters, escaped as `json_char_escape` says, between two quotes.
#[verifier::external_body]
pub(crate) fn json_quote(s: &str) -> (res: Option<String>)
    ensures
        res is Some,
        res matches Some(q) ==> q@ == json_string_literal(s@),
{
    serde_json::to_string(s).ok()
}

/// The host that `url::Url::parse(s)` and then `Url::host_str` give:
/// `None` when `s` does not parse or the URL has no host.
pub uninterp spec fn url_host(s: Seq<char>) -> Option<Seq<char>>;

/// Parses `s` with `url::Url::parse` and returns `host_str` of the result.
/// Claimed: the result depends on `s` alone.
#[verifier::external_body]
pub(crate) fn parse_url_host(s: &str) -> (host: Option<String>)
    ensures
        opt_view(host) == url_host(s@),
{
    match url::Url::parse(s) {
        Ok(u) => match u.host_str() {
            Some(h) => Some(h.to_string()),
            None => None,
        },
        Err(_) => None,
    }
}

/// The hyphenated lower-case form of a UUID: 36 characters, hyphens at
/// positions 8, 13, 18 and 23, lower-case hexadecimal digits elsewhere.
pub open spec fn is_hyphenated_uuid(s: Seq<char>) -> bool {
    &&& s.len() == 36
    &&& forall|i: int|
        0 <= i < 36 ==> if i == 8 || i == 13 || i == 18 || i == 23 {
            s[i] == '-'
        } else {
            (0x30u32 <= (s[i] as u32) <= 0x39u32) || (0x61u32 <= (s[i] as u32) <= 0x66u32)
        }
}

/// A version-4 (random) UUID in hyphenated form: the version digit is `4`
/// and the variant digit is one of `8`, `9`, `a`, `b`.
pub open spec fn is_v4_uuid(s: Seq<char>) -> bool {
    &&& is_hyphenated_uuid(s)
    &&& s[14] == '4'
    &&& (s[19] == '8' || s[19] == '9' || s[19] == 'a' || s[19] == 'b')
}

/// Calls `uuid::Uuid::new_v4()` and formats it with `to_string`. Claimed,
/// from the source: the version and variant bits are set (version 4, RFC
/// variant) and `Display` writes the hyphenated lower-case form. Which
/// random bits come out is left unsaid.
#[verifier::external_body]
pub(crate) fn fresh_uuid() -> (id: String)
    ensures
        is_v4_uuid(id@),
{
    uuid::Uuid::new_v4().to_string()
}

/// Calls `rand::thread_rng().gen_range(low..high)`. Claimed, from its
/// documentation: a value in the half-open range (which value is random).
#[verifier::external_body]
pub(crate) fn random_in_range(low: u16, high: u16) -> (r: u16)
    requires
        low < high,
    ensures
        low <= r < high,
{
    rand::thread_rng().gen_range(low..high)
}

} // verus!
