//! What the query view shows of the kind of its query.

use vstd::prelude::*;
use vstd::slice::slice_subrange;
use crate::db::parser::{begins_with, chars_of, find_dots, first_dots, trim_bounds, trimmed};

verus! {

/// The kind of a query as the query view marks it while it is typed.
#[derive(Copy, Clone, Debug, PartialEq, Eq)]
pub enum QueryKind {
    /// The keyword `prefix`.
    Prefix,
    /// The keyword `range`.
    Range,
    /// The keyword `regex`.
    Regex,
    /// The keyword `jsonpath`.
    Json,
    /// No keyword, but two dots in the text.
    DottedRange,
    /// No keyword: the text itself is the prefix.
    PlainPrefix,
}

/// The kind of the query that a text spells so far.
pub open spec fn query_kind(query: Seq<char>) -> QueryKind {
    let text = trimmed(query);
    if "prefix "@.is_prefix_of(text) {
        QueryKind::Prefix
    } else if "range "@.is_prefix_of(text) {
        QueryKind::Range
    } else if "regex "@.is_prefix_of(text) {
        QueryKind::Regex
    } else if "jsonpath "@.is_prefix_of(text) {
        QueryKind::Json
    } else if first_dots(text, 0) is Some {
        QueryKind::DottedRange
    } else {
        QueryKind::PlainPrefix
    }
}

/// Detects the kind of a query from its text.
pub fn detect_query_type(query: &str) -> (kind: QueryKind)
    ensures
        kind == query_kind(query@),
{
    let chars = chars_of(query);
    let (start, end) = trim_bounds(chars.as_slice());
    let text = slice_subrange(chars.as_slice(), start, end);
    assert(text@ =~= trimmed(query@));
    if begins_with(text, "prefix ") {
        QueryKind::Prefix
    } else if begins_with(text, "range ") {
        QueryKind::Range
    } else if begins_with(text, "regex ") {
        QueryKind::Regex
    } else if begins_with(text, "jsonpath ") {
        QueryKind::Json
    } else if find_dots(text).is_some() {
        QueryKind::DottedRange
    } else {
        QueryKind::PlainPrefix
    }
}

/// The label of a kind of query.
pub fn query_label(kind: QueryKind) -> (label: &'static str)
    ensures
        label@ == match kind {
            QueryKind::Prefix => "PREFIX"@,
            QueryKind::Range => "RANGE"@,
            QueryKind::Regex => "REGEX"@,
            QueryKind::Json => "JSON"@,
            QueryKind::DottedRange => "RANGE"@,
            QueryKind::PlainPrefix => "PREFIX"@,
        },
{
    match kind {
        QueryKind::Prefix => "PREFIX",
        QueryKind::Range => "RANGE",
        QueryKind::Regex => "REGEX",
        QueryKind::Json => "JSON",
        QueryKind::DottedRange => "RANGE",
        QueryKind::PlainPrefix => "PREFIX",
    }
}

} // verus!
