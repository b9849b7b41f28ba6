//! The query grammar: from the text of a query to its mode.
//!
//! ```text
//! query      := "prefix " rest
//!             | "range " range-body
//!             | "regex " rest
//!             | "jsonpath " rest
//!             | rest
//! range-body := key ".." key
//!             | key WS key
//! ```
//!
//! Keywords are case-sensitive and end in one space. White space around the
//! whole query is dropped first. A query without keyword is a prefix.

use vstd::prelude::*;
use vstd::slice::slice_subrange;
use vstd::string::*;
use crate::db::query::{Mode, ModeView};
use crate::errors::AppError;
use crate::trusted::{regex_compile, regex_compiled, regex_error_text};

verus! {

/// Whether `c` is white space: a character with the Unicode property
/// `White_Space`.
pub open spec fn is_space(c: char) -> bool {
    let u = c as u32;
    ||| 0x09 <= u <= 0x0d
    ||| u == 0x20
    ||| u == 0x85
    ||| u == 0xa0
    ||| u == 0x1680
    ||| 0x2000 <= u <= 0x200a
    ||| u == 0x2028
    ||| u == 0x2029
    ||| u == 0x202f
    ||| u == 0x205f
    ||| u == 0x3000
}

/// The first position from `from` on that holds no white space, or the
/// length of `s`.
pub open spec fn skip_spaces(s: Seq<char>, from: int) -> int
    decreases s.len() - from,
{
    if 0 <= from < s.len() && is_space(s[from]) {
        skip_spaces(s, from + 1)
    } else {
        from
    }
}

/// The first position from `from` on that holds white space, or the length
/// of `s`.
pub open spec fn skip_word(s: Seq<char>, from: int) -> int
    decreases s.len() - from,
{
    if 0 <= from < s.len() && !is_space(s[from]) {
        skip_word(s, from + 1)
    } else {
        from
    }
}

/// The position behind the last character before `to` that is no white
/// space, or 0.
pub open spec fn skip_spaces_back(s: Seq<char>, to: int) -> int
    decreases to,
{
    if 0 < to <= s.len() && is_space(s[to - 1]) {
        skip_spaces_back(s, to - 1)
    } else {
        to
    }
}

/// Where `s` without the white space at its two ends starts.
pub open spec fn trim_start(s: Seq<char>) -> int {
    skip_spaces(s, 0)
}

/// Where `s` without the white space at its two ends stops.
pub open spec fn trim_end(s: Seq<char>) -> int {
    let start = trim_start(s);
    let end = skip_spaces_back(s, s.len() as int);
    if end < start {
        start
    } else {
        end
    }
}

/// `s` without the white space at its two ends.
pub open spec fn trimmed(s: Seq<char>) -> Seq<char> {
    s.subrange(trim_start(s), trim_end(s))
}

/// The first position from `from` on where two dots stand side by side.
pub open spec fn first_dots(s: Seq<char>, from: int) -> Option<int>
    decreases s.len() - from,
{
    if from < 0 || from + 1 >= s.len() {
        None
    } else if s[from] == '.' && s[from + 1] == '.' {
        Some(from)
    } else {
        first_dots(s, from + 1)
    }
}

/// The two keys of a range body: the texts around the first `..`, trimmed;
/// without `..`, the first two words. `None` where there are neither.
pub open spec fn range_keys(body: Seq<char>) -> Option<(Seq<char>, Seq<char>)> {
    match first_dots(body, 0) {
        Some(dots) => Some((trimmed(body.take(dots)), trimmed(body.skip(dots + 2)))),
        None => {
            let lo_from = skip_spaces(body, 0);
            let lo_to = skip_word(body, lo_from);
            let hi_from = skip_spaces(body, lo_to);
            let hi_to = skip_word(body, hi_from);
            if hi_from < body.len() {
                Some((body.subrange(lo_from, lo_to), body.subrange(hi_from, hi_to)))
            } else {
                None
            }
        },
    }
}

/// What the grammar makes of the text of a query.
pub enum Parsed {
    /// Nothing is left once the text is trimmed.
    Empty,
    /// A prefix query.
    Prefix(Seq<char>),
    /// A range query, with its lower and its upper key.
    Range(Seq<char>, Seq<char>),
    /// The keyword `range` without two keys behind it.
    InvalidRange,
    /// A query by regular expression, with the pattern.
    Regex(Seq<char>),
    /// A query by path into the decoded value, with the path.
    JsonPath(Seq<char>),
}

/// The grammar: what the text of a query asks for.
pub open spec fn parsed(input: Seq<char>) -> Parsed {
    let text = trimmed(input);
    if text.len() == 0 {
        Parsed::Empty
    } else if "prefix "@.is_prefix_of(text) {
        Parsed::Prefix(text.skip("prefix "@.len() as int))
    } else if "range "@.is_prefix_of(text) {
        match range_keys(text.skip("range "@.len() as int)) {
            Some((lo, hi)) => Parsed::Range(lo, hi),
            None => Parsed::InvalidRange,
        }
    } else if "regex "@.is_prefix_of(text) {
        Parsed::Regex(text.skip("regex "@.len() as int))
    } else if "jsonpath "@.is_prefix_of(text) {
        Parsed::JsonPath(text.skip("jsonpath "@.len() as int))
    } else {
        Parsed::Prefix(text)
    }
}

/// The mode that a query asks for; `None` for a query that is refused.
pub open spec fn parsed_mode(query: Parsed) -> Option<ModeView> {
    match query {
        Parsed::Prefix(p) => Some(ModeView::Prefix(p)),
        Parsed::Range(lo, hi) => Some(ModeView::Range(lo, hi)),
        Parsed::JsonPath(path) => Some(ModeView::JsonPath(path)),
        Parsed::Regex(pattern) => match regex_compiled(pattern) {
            Some(re) => Some(ModeView::Regex(re)),
            None => None,
        },
        Parsed::Empty => None,
        Parsed::InvalidRange => None,
    }
}

/// Whether `c` is white space.
pub fn char_is_space(c: char) -> (r: bool)
    ensures
        r == is_space(c),
{
    let u = c as u32;
    (0x09 <= u && u <= 0x0d) || u == 0x20 || u == 0x85 || u == 0xa0 || u == 0x1680 || (0x2000 <= u
        && u <= 0x200a) || u == 0x2028 || u == 0x2029 || u == 0x202f || u == 0x205f || u == 0x3000
}

/// The characters of `text`.
pub fn chars_of(text: &str) -> (chars: Vec<char>)
    ensures
        chars@ == text@,
{
    let mut chars: Vec<char> = Vec::new();
    for c in it: text.chars()
        invariant
            it.seq() == text@,
            chars@ == text@.take(it.index() as int),
    {
        chars.push(c);
        assert(text@.take(it.index() as int).push(c) =~= text@.take(it.index() as int + 1));
    }
    assert(text@.take(text@.len() as int) =~= text@);
    chars
}

/// The first position of `s` from `from` on that holds no white space.
pub fn skip_spaces_from(s: &[char], from: usize) -> (r: usize)
    requires
        from <= s@.len(),
    ensures
        r == skip_spaces(s@, from as int),
        from <= r <= s@.len(),
{
    let mut i = from;
    while i < s.len() && char_is_space(s[i])
        invariant
            from <= i <= s@.len(),
            skip_spaces(s@, from as int) == skip_spaces(s@, i as int),
        decreases s@.len() - i,
    {
        i += 1;
    }
    i
}

/// The first position of `s` from `from` on that holds white space.
fn skip_word_from(s: &[char], from: usize) -> (r: usize)
    requires
        from <= s@.len(),
    ensures
        r == skip_word(s@, from as int),
        from <= r <= s@.len(),
{
    let mut i = from;
    while i < s.len() && !char_is_space(s[i])
        invariant
            from <= i <= s@.len(),
            skip_word(s@, from as int) == skip_word(s@, i as int),
        decreases s@.len() - i,
    {
        i += 1;
    }
    i
}

/// Where `s` without the white space at its two ends starts and stops.
pub fn trim_bounds(s: &[char]) -> (r: (usize, usize))
    ensures
        r.0 == trim_start(s@),
        r.1 == trim_end(s@),
        r.0 <= r.1 <= s@.len(),
{
    let start = skip_spaces_from(s, 0);
    let mut end = s.len();
    while end > 0 && char_is_space(s[end - 1])
        invariant
            end <= s@.len(),
            skip_spaces_back(s@, s@.len() as int) == skip_spaces_back(s@, end as int),
        decreases end,
    {
        end -= 1;
    }
    if end < start {
        (start, start)
    } else {
        (start, end)
    }
}

/// The first position of `s` where two dots stand side by side.
pub fn find_dots(s: &[char]) -> (r: Option<usize>)
    ensures
        match r {
            Some(i) => first_dots(s@, 0) == Some(i as int) && i + 2 <= s@.len(),
            None => first_dots(s@, 0) is None,
        },
{
    if s.len() < 2 {
        return None;
    }
    let mut i: usize = 0;
    while i < s.len() - 1
        invariant
            i < s@.len(),
            first_dots(s@, 0) == first_dots(s@, i as int),
        decreases s@.len() - i,
    {
        if s[i] == '.' && s[i + 1] == '.' {
            return Some(i);
        }
        i += 1;
    }
    None
}

/// Whether `s` begins with the characters of `keyword`.
pub fn begins_with(s: &[char], keyword: &str) -> (r: bool)
    ensures
        r == keyword@.is_prefix_of(s@),
{
    let len = keyword.unicode_len();
    if len > s.len() {
        return false;
    }
    let mut i: usize = 0;
    while i < len
        invariant
            i <= len == keyword@.len(),
            len <= s@.len(),
            forall|j: int| 0 <= j < i ==> s@[j] == keyword@[j],
        decreases len - i,
    {
        if s[i] != keyword.get_char(i) {
            proof {
                if keyword@.is_prefix_of(s@) {
                    assert(s@.subrange(0, keyword@.len() as int)[i as int] == keyword@[i as int]);
                }
            }
            return false;
        }
        i += 1;
    }
    assert(keyword@ =~= s@.subrange(0, keyword@.len() as int));
    true
}

/// Whether `r` is what the grammar asks for on `input`: the mode that the
/// text spells, or the error that it earns. A pattern that the expression
/// compiler refuses is a `BadRegex`.
pub open spec fn parse_agrees(input: Seq<char>, r: Result<Mode<'_>, AppError>) -> bool {
    match parsed(input) {
        Parsed::Empty => r matches Err(AppError::EmptyQuery),
        Parsed::InvalidRange => r matches Err(AppError::BadQuery(reason)) && reason@
            == "invalid range"@,
        Parsed::Prefix(p) => r matches Ok(mode) && mode@ == ModeView::Prefix(p),
        Parsed::Range(lo, hi) => r matches Ok(mode) && mode@ == ModeView::Range(lo, hi),
        Parsed::JsonPath(path) => r matches Ok(mode) && mode@ == ModeView::JsonPath(path),
        Parsed::Regex(pattern) => match regex_compiled(pattern) {
            Some(re) => r matches Ok(mode) && mode@ == ModeView::Regex(re),
            None => r matches Err(AppError::BadRegex(_)),
        },
    }
}

/// Parses the text of a query into its mode.
///
/// - `prefix <text>` asks for the keys that start with the text;
/// - `range <lo>..<hi>` and `range <lo> <hi>` ask for the keys from `lo` up
///   to, and without, `hi`;
/// - `regex <pattern>` asks for the keys in which the pattern matches;
/// - `jsonpath <path>` asks for the values in which the path selects a node;
/// - any other text is itself a prefix.
///
/// The text behind a keyword is taken as it stands. The expression of a
/// `regex` query is compiled here, so that a scan never meets a bad one.
#[verifier::rlimit(40)]
pub fn parse_query(input: &str) -> (r: Result<Mode<'_>, AppError>)
    ensures
        parse_agrees(input@, r),
{
    let chars = chars_of(input);
    let (start, end) = trim_bounds(chars.as_slice());
    if start == end {
        return Err(AppError::EmptyQuery);
    }
    let text = slice_subrange(chars.as_slice(), start, end);
    assert(text@ =~= trimmed(input@));
    if begins_with(text, "prefix ") {
        let from = start + "prefix ".unicode_len();
        let rest = input.substring_char(from, end);
        assert(rest@ =~= text@.skip("prefix "@.len() as int));
        return Ok(Mode::Prefix(rest));
    }
    if begins_with(text, "range ") {
        let from = start + "range ".unicode_len();
        let body = slice_subrange(chars.as_slice(), from, end);
        assert(body@ =~= text@.skip("range "@.len() as int));
        if let Some(dots) = find_dots(body) {
            let left = slice_subrange(body, 0, dots);
            let right = slice_subrange(body, dots + 2, body.len());
            let (lo_from, lo_to) = trim_bounds(left);
            let (hi_from, hi_to) = trim_bounds(right);
            let lo = input.substring_char(from + lo_from, from + lo_to);
            let hi = input.substring_char(from + dots + 2 + hi_from, from + dots + 2 + hi_to);
            assert(left@ =~= body@.take(dots as int));
            assert(right@ =~= body@.skip(dots as int + 2));
            assert(lo@ =~= trimmed(left@));
            assert(hi@ =~= trimmed(right@));
            return Ok(Mode::Range(lo, hi));
        }
        let lo_from = skip_spaces_from(body, 0);
        let lo_to = skip_word_from(body, lo_from);
        let hi_from = skip_spaces_from(body, lo_to);
        let hi_to = skip_word_from(body, hi_from);
        if hi_from < body.len() {
            let lo = input.substring_char(from + lo_from, from + lo_to);
            let hi = input.substring_char(from + hi_from, from + hi_to);
            assert(lo@ =~= body@.subrange(lo_from as int, lo_to as int));
            assert(hi@ =~= body@.subrange(hi_from as int, hi_to as int));
            return Ok(Mode::Range(lo, hi));
        }
        return Err(AppError::BadQuery("invalid range".to_owned()));
    }
    if begins_with(text, "regex ") {
        let from = start + "regex ".unicode_len();
        let rest = input.substring_char(from, end);
        assert(rest@ =~= text@.skip("regex "@.len() as int));
        return match regex_compile(rest) {
            Ok(re) => Ok(Mode::Regex(re)),
            Err(e) => Err(AppError::BadRegex(regex_error_text(&e))),
        };
    }
    if begins_with(text, "jsonpath ") {
        let from = start + "jsonpath ".unicode_len();
        let rest = input.substring_char(from, end);
        assert(rest@ =~= text@.skip("jsonpath "@.len() as int));
        return Ok(Mode::JsonPath(rest));
    }
    let rest = input.substring_char(start, end);
    assert(rest@ =~= text@);
    Ok(Mode::Prefix(rest))
}

} // verus!
