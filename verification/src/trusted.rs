//! What this library takes on trust from the crates it calls.
//!
//! Every item here is believed, not proved: a declaration of an outside type,
//! a name for what an outside function returns, or a wrapper whose body makes
//! one outside call and whose contract states the call's result.

use vstd::prelude::*;
use vstd::utf8::{encode_utf8, valid_utf8};

verus! {

/// A compiled regular expression of the `regex` crate.
#[verifier::external_type_specification]
#[verifier::external_body]
pub struct ExRegex(regex::Regex);

/// The error with which the `regex` crate refuses a pattern.
#[verifier::external_type_specification]
#[verifier::external_body]
pub struct ExRegexError(regex::Error);

/// A structured value of the `serde_json` crate.
#[verifier::external_type_specification]
#[verifier::external_body]
pub struct ExJsonValue(serde_json::Value);

/// An owned file-system path of std.
#[verifier::external_type_specification]
#[verifier::external_body]
pub struct ExPathBuf(std::path::PathBuf);

/// What `regex::Regex::new` makes of `pattern`: the compiled expression, or
/// `None` where the pattern is refused.
pub uninterp spec fn regex_compiled(pattern: Seq<char>) -> Option<regex::Regex>;

/// Whether the expression finds a match anywhere in `text` (what
/// `regex::Regex::is_match` returns).
pub uninterp spec fn regex_accepts(re: regex::Regex, text: Seq<char>) -> bool;

/// What `serde_json::from_slice` makes of `bytes`: the value they spell as
/// JSON text, or `None` where they are not one JSON document.
pub uninterp spec fn json_decoding(bytes: Seq<u8>) -> Option<serde_json::Value>;

/// What `rmp_serde::from_slice` makes of `bytes`: the value that they begin
/// with as MessagePack, or `None` where they begin with none.
pub uninterp spec fn msgpack_decoding(bytes: Seq<u8>) -> Option<serde_json::Value>;

/// What `jsonpath_lib::select` answers for `path` on `value`. The outer
/// `None` stands for the arguments on which the call does not return: its
/// evaluator aborts on path expressions that it does not implement. The inner
/// value is the number of nodes selected, or `None` where the path is
/// rejected.
pub uninterp spec fn jsonpath_selection(value: serde_json::Value, path: Seq<char>) -> Option<
    Option<usize>,
>;

/// The text that the standard padded base64 alphabet gives `bytes` (what
/// `encode` of `base64::engine::general_purpose::STANDARD` returns).
pub uninterp spec fn base64_text(bytes: Seq<u8>) -> Seq<char>;

/// The bytes that `text` stands for in standard padded base64, or `None`
/// where `text` is not such an encoding (what `decode` of
/// `base64::engine::general_purpose::STANDARD` returns).
pub uninterp spec fn base64_bytes(text: Seq<char>) -> Option<Seq<u8>>;

/// Calls `regex::Regex::new`. Claims that the outcome depends on the pattern
/// alone: a pattern is refused or accepted whenever it is compiled, and the
/// expressions compiled from it are the same expression.
#[verifier::external_body]
pub(crate) fn regex_compile(pattern: &str) -> (r: Result<regex::Regex, regex::Error>)
    ensures
        match r {
            Ok(re) => regex_compiled(pattern@) == Some(re),
            Err(_) => regex_compiled(pattern@) is None,
        },
{
    regex::Regex::new(pattern)
}

/// Calls `regex::Regex::is_match`. Claims that the answer depends only on the
/// expression and on the text searched.
#[verifier::external_body]
pub(crate) fn regex_is_match(re: &regex::Regex, text: &str) -> (hit: bool)
    ensures
        hit == regex_accepts(*re, text@),
{
    re.is_match(text)
}

/// `Clone::clone` of `regex::Regex`, which the crate derives. Claims that the
/// copy is the same expression.
pub assume_specification[ <regex::Regex as Clone>::clone ](re: &regex::Regex) -> (r: regex::Regex)
    ensures
        r == *re,
;

/// Renders a `regex::Error` through its `Display` impl. Nothing is claimed of
/// the text.
#[verifier::external_body]
pub(crate) fn regex_error_text(error: &regex::Error) -> String {
    error.to_string()
}

/// Calls `serde_json::from_slice` for a `serde_json::Value` and drops the
/// error. Claims that the outcome depends on the bytes alone.
#[verifier::external_body]
pub(crate) fn json_decode(bytes: &[u8]) -> (r: Option<serde_json::Value>)
    ensures
        r == json_decoding(bytes@),
{
    serde_json::from_slice::<serde_json::Value>(bytes).ok()
}

/// Calls `rmp_serde::from_slice` for a `serde_json::Value` and drops the
/// error. Claims that the outcome depends on the bytes alone.
#[verifier::external_body]
pub(crate) fn msgpack_decode(bytes: &[u8]) -> (r: Option<serde_json::Value>)
    ensures
        r == msgpack_decoding(bytes@),
{
    rmp_serde::from_slice::<serde_json::Value>(bytes).ok()
}

/// Calls `jsonpath_lib::select` and hands back how many nodes it selected,
/// `None` where it rejected the path. Leaves out the arguments on which the
/// call aborts; claims that the outcome depends on the value and the path
/// alone.
#[verifier::external_body]
pub(crate) fn jsonpath_count(value: &serde_json::Value, path: &str) -> (r: Option<usize>)
    requires
        jsonpath_selection(*value, path@) is Some,
    ensures
        jsonpath_selection(*value, path@) == Some(r),
{
    jsonpath_lib::select(value, path).ok().map(|nodes| nodes.len())
}

/// Calls `encode` of the standard padded base64 engine. Leaves out inputs
/// whose encoded length does not fit in `usize`, on which the call aborts.
/// Claims that the text depends on the bytes alone and that decoding it gives
/// the bytes back.
#[verifier::external_body]
pub(crate) fn base64_encode(bytes: &[u8]) -> (text: String)
    requires
        (bytes@.len() / 3) * 4 + 4 <= usize::MAX,
    ensures
        text@ == base64_text(bytes@),
        base64_bytes(text@) == Some(bytes@),
{
    base64::Engine::encode(&base64::engine::general_purpose::STANDARD, bytes)
}

/// Calls `decode` of the standard padded base64 engine and drops the error.
/// Claims that the outcome depends on the text alone.
#[verifier::external_body]
pub(crate) fn base64_decode(text: &str) -> (r: Option<Vec<u8>>)
    ensures
        match r {
            Some(bytes) => base64_bytes(text@) == Some(bytes@),
            None => base64_bytes(text@) is None,
        },
{
    base64::Engine::decode(&base64::engine::general_purpose::STANDARD, text).ok()
}

/// The text that `String::from_utf8_lossy` makes of `bytes`: their text where
/// they are UTF-8, and with U+FFFD in place of what is not.
pub uninterp spec fn utf8_lossy(bytes: Seq<u8>) -> Seq<char>;

/// The whole seconds of a duration (what `Duration::as_secs` returns).
pub uninterp spec fn duration_secs(duration: core::time::Duration) -> u64;

/// Calls `String::push`, which appends one character.
#[verifier::external_body]
pub(crate) fn string_push(text: &mut String, c: char)
    ensures
        final(text)@ == old(text)@.push(c),
{
    text.push(c)
}

/// Calls `String::from_utf8` on a copy of the bytes and drops the error.
/// Claims that it succeeds on valid UTF-8 and on nothing else, and that the
/// text is the one those bytes encode.
#[verifier::external_body]
pub(crate) fn utf8_text(bytes: &[u8]) -> (r: Option<String>)
    ensures
        r is Some <==> valid_utf8(bytes@),
        r matches Some(text) ==> encode_utf8(text@) == bytes@,
{
    String::from_utf8(bytes.to_vec()).ok()
}

/// Calls `String::from_utf8_lossy`. Claims that the text depends on the bytes
/// alone and that valid UTF-8 comes out as the text it encodes.
#[verifier::external_body]
pub(crate) fn utf8_lossy_text(bytes: &[u8]) -> (text: String)
    ensures
        text@ == utf8_lossy(bytes@),
        valid_utf8(bytes@) ==> encode_utf8(text@) == bytes@,
{
    String::from_utf8_lossy(bytes).into_owned()
}

/// `Duration::as_secs`: the whole seconds that the duration holds.
pub assume_specification[ core::time::Duration::as_secs ](duration: &core::time::Duration) -> (secs:
    u64)
    ensures
        secs == duration_secs(*duration),
;

/// The lower-case form of a text (what `str::to_lowercase` returns).
pub uninterp spec fn lowercase(text: Seq<char>) -> Seq<char>;

/// `needle` stands somewhere in `hay`, character by character.
pub open spec fn text_contains(hay: Seq<char>, needle: Seq<char>) -> bool {
    exists|at: int|
        0 <= at <= hay.len() - needle.len() && #[trigger] hay.subrange(at, at + needle.len())
            == needle
}

/// Calls `str::to_lowercase`. Claims that the text depends on the input
/// alone.
#[verifier::external_body]
pub(crate) fn to_lowercase(text: &str) -> (lower: String)
    ensures
        lower@ == lowercase(text@),
{
    text.to_lowercase()
}

/// Calls `str::contains` with a text as the pattern: whether the pattern
/// matches a sub-slice of the text.
#[verifier::external_body]
pub(crate) fn str_contains(hay: &str, needle: &str) -> (found: bool)
    ensures
        found == text_contains(hay@, needle@),
{
    hay.contains(needle)
}

/// The score that the skim matcher of the `fuzzy_matcher` crate, in its
/// default setting, gives to `pattern` in `choice`; `None` where the pattern
/// does not match (what `fuzzy_match` of `SkimMatcherV2::default()`
/// returns).
pub uninterp spec fn fuzzy_score(choice: Seq<char>, pattern: Seq<char>) -> Option<i64>;

/// Calls `fuzzy_match` of a default `fuzzy_matcher::skim::SkimMatcherV2`.
/// Claims that the score depends on the two texts alone.
#[verifier::external_body]
pub(crate) fn fuzzy_match(choice: &str, pattern: &str) -> (score: Option<i64>)
    ensures
        score == fuzzy_score(choice@, pattern@),
{
    fuzzy_matcher::FuzzyMatcher::fuzzy_match(
        &fuzzy_matcher::skim::SkimMatcherV2::default(),
        choice,
        pattern,
    )
}

/// The indented JSON text of a value (what `serde_json::to_string_pretty`
/// returns), or `None` where the value cannot be written.
pub uninterp spec fn json_pretty_text(value: serde_json::Value) -> Option<Seq<char>>;

/// Calls `serde_json::to_string_pretty` and drops the error. Claims that the
/// text depends on the value alone.
#[verifier::external_body]
pub(crate) fn json_pretty(value: &serde_json::Value) -> (r: Option<String>)
    ensures
        match r {
            Some(text) => json_pretty_text(*value) == Some(text@),
            None => json_pretty_text(*value) is None,
        },
{
    serde_json::to_string_pretty(value).ok()
}

} // verus!
