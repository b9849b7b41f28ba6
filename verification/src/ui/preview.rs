//! The preview of a value: as indented JSON, as text, or as a hex dump.

use vstd::prelude::*;
use vstd::string::*;
use vstd::utf8::{decode_utf8, encode_utf8_decode_utf8, valid_utf8};
use crate::db::parser::{chars_of, skip_spaces, skip_spaces_from};
use crate::trusted::{json_decode, json_decoding, json_pretty, json_pretty_text, string_push, utf8_text};
use crate::util::hex_digit;

verus! {

/// What a value is shown as.
#[derive(Copy, Clone, Debug, PartialEq, Eq)]
pub enum ValueFormat {
    /// Text that starts like a JSON document.
    Json,
    /// Other text.
    Text,
    /// Bytes that are no text, as a hex dump.
    Binary,
}

/// The preview of a value.
#[derive(Debug)]
pub struct Preview {
    /// What the value is shown as.
    pub format: ValueFormat,
    /// The lines shown.
    pub lines: Vec<String>,
}

/// The texts of a sequence of lines.
pub open spec fn lines_view(lines: Seq<String>) -> Seq<Seq<char>> {
    Seq::new(lines.len(), |i: int| lines[i]@)
}

/// The first position from `from` on that holds a line feed, or the length
/// of the text.
pub open spec fn line_end(text: Seq<char>, from: int) -> int
    decreases text.len() - from,
{
    if 0 <= from < text.len() && text[from] != '\n' {
        line_end(text, from + 1)
    } else {
        from
    }
}

/// A line without the carriage return at its end.
pub open spec fn without_return(line: Seq<char>) -> Seq<char> {
    if line.len() > 0 && line.last() == '\r' {
        line.drop_last()
    } else {
        line
    }
}

/// The line of a text that starts at `from` and stops before `end`: the
/// stretch between the two, without the carriage return before a line feed
/// that ends it.
pub open spec fn line_at(text: Seq<char>, from: int, end: int) -> Seq<char> {
    if end < text.len() {
        without_return(text.subrange(from, end))
    } else {
        text.subrange(from, end)
    }
}

/// The lines of a text from position `from` on: the stretches between line
/// feeds, each without the carriage return before its line feed. A line
/// feed at the end of the text starts no line.
pub open spec fn lines_from(text: Seq<char>, from: int) -> Seq<Seq<char>>
    decreases
            if from < text.len() {
                text.len() - from
            } else {
                0
            },
{
    if from < 0 || from >= text.len() {
        Seq::empty()
    } else {
        let end = if line_end(text, from) >= from {
            line_end(text, from)
        } else {
            from
        };
        seq![line_at(text, from, end)] + lines_from(text, end + 1)
    }
}

/// The lines of a text.
#[verifier::rlimit(40)]
pub fn text_lines(text: &str) -> (lines: Vec<String>)
    ensures
        lines_view(lines@) == lines_from(text@, 0),
{
    let chars = chars_of(text);
    let mut lines: Vec<String> = Vec::new();
    let mut from: usize = 0;
    let ghost mut next: int = 0;
    assert(lines_view(lines@) =~= Seq::<Seq<char>>::empty());
    while from < chars.len()
        invariant
            chars@ == text@,
            from <= chars@.len(),
            from == next || (from == chars@.len() && next >= chars@.len()),
            lines_from(text@, 0) == lines_view(lines@) + lines_from(text@, next),
        decreases chars@.len() - from,
    {
        let mut end = from;
        while end < chars.len() && chars[end] != '\n'
            invariant
                from <= end <= chars@.len(),
                line_end(chars@, from as int) == line_end(chars@, end as int),
            decreases chars@.len() - end,
        {
            end += 1;
        }
        let mut stop = end;
        if end < chars.len() && stop > from && chars[stop - 1] == '\r' {
            stop -= 1;
        }
        let mut line = String::new();
        let mut i = from;
        while i < stop
            invariant
                from <= i <= stop <= chars@.len(),
                line@ == chars@.subrange(from as int, i as int),
            decreases stop - i,
        {
            string_push(&mut line, chars[i]);
            assert(line@ =~= chars@.subrange(from as int, i as int + 1));
            i += 1;
        }
        let ghost held = lines_view(lines@);
        let ghost this = line_at(chars@, from as int, end as int);
        assert(line@ =~= this);
        lines.push(line);
        assert(lines_view(lines@) =~= held.push(this));
        assert(held + (seq![this] + lines_from(text@, end + 1)) =~= lines_view(lines@)
            + lines_from(text@, end + 1));
        proof {
            next = end + 1;
        }
        from = if end < chars.len() {
            end + 1
        } else {
            end
        };
    }
    assert(lines_from(text@, next) =~= Seq::<Seq<char>>::empty());
    assert(lines_view(lines@) + Seq::<Seq<char>>::empty() =~= lines_view(lines@));
    lines
}

/// The digits of `n` in base sixteen, at least `width` of them, with zeros
/// in front where `n` has fewer.
pub open spec fn hex_padded(n: nat, width: nat) -> Seq<char>
    decreases n + width,
{
    if n < 16 && width <= 1 {
        seq![hex_digit(n)]
    } else {
        hex_padded(n / 16, if width > 0 {
            (width - 1) as nat
        } else {
            0
        }).push(hex_digit(n % 16))
    }
}

/// A byte as the text column of a hex dump shows it: itself where it is a
/// printable ASCII character, a dot otherwise.
pub open spec fn dump_char(b: u8) -> char {
    if 0x20 <= b <= 0x7e {
        b as char
    } else {
        '.'
    }
}

/// The bytes of a chunk in base sixteen, two digits each, with a space
/// between two bytes.
pub open spec fn dump_hex(chunk: Seq<u8>) -> Seq<char>
    decreases chunk.len(),
{
    if chunk.len() == 0 {
        Seq::empty()
    } else if chunk.len() == 1 {
        seq![hex_digit((chunk[0] / 16) as nat), hex_digit((chunk[0] % 16) as nat)]
    } else {
        dump_hex(chunk.drop_last()) + seq![
            ' ',
            hex_digit((chunk.last() / 16) as nat),
            hex_digit((chunk.last() % 16) as nat),
        ]
    }
}

/// The text column of a hex dump for a chunk.
pub open spec fn dump_text(chunk: Seq<u8>) -> Seq<char> {
    Seq::new(chunk.len(), |i: int| dump_char(chunk[i]))
}

/// As many spaces as it takes to fill `text` up to `width` characters.
pub open spec fn padding(text: Seq<char>, width: nat) -> Seq<char> {
    Seq::new(
        if text.len() < width {
            (width - text.len()) as nat
        } else {
            0
        },
        |i: int| ' ',
    )
}

/// One line of a hex dump: the offset of the chunk in eight digits, its
/// bytes in base sixteen filled up to 48 columns, and its bytes as text
/// between bars.
pub open spec fn dump_line(offset: nat, chunk: Seq<u8>) -> Seq<char> {
    hex_padded(offset, 8) + ": "@ + dump_hex(chunk) + padding(dump_hex(chunk), 48) + " |"@
        + dump_text(chunk) + "|"@
}

/// The lines of the hex dump of `bytes` from chunk number `from` on, 16
/// bytes to the line.
pub open spec fn dump_lines(bytes: Seq<u8>, from: int) -> Seq<Seq<char>>
    decreases
            if 16 * from < bytes.len() {
                bytes.len() - 16 * from
            } else {
                0
            },
{
    if from < 0 || 16 * from >= bytes.len() {
        Seq::empty()
    } else {
        let end = if 16 * from + 16 <= bytes.len() {
            16 * from + 16
        } else {
            bytes.len() as int
        };
        seq![dump_line((16 * from) as nat, bytes.subrange(16 * from, end))] + dump_lines(
            bytes,
            from + 1,
        )
    }
}

/// Appends the digits of `n` in base sixteen, at least `width` of them.
fn push_hex_padded(text: &mut String, n: usize, width: usize)
    ensures
        final(text)@ == old(text)@ + hex_padded(n as nat, width as nat),
    decreases n + width,
{
    if n < 16 && width <= 1 {
        string_push(text, hex_char(n as u8));
        assert(text@ =~= old(text)@ + hex_padded(n as nat, width as nat));
    } else {
        push_hex_padded(
            text,
            n / 16,
            if width > 0 {
                width - 1
            } else {
                0
            },
        );
        string_push(text, hex_char((n % 16) as u8));
        assert(text@ =~= old(text)@ + hex_padded(n as nat, width as nat));
    }
}

/// The character of a digit below 16.
fn hex_char(n: u8) -> (c: char)
    requires
        n < 16,
    ensures
        c == hex_digit(n as nat),
{
    if n < 10 {
        (0x30u8 + n) as char
    } else {
        (0x61u8 + n - 10) as char
    }
}

/// One line of a hex dump.
#[verifier::rlimit(40)]
fn hex_dump_line(offset: usize, chunk: &[u8]) -> (line: String)
    ensures
        line@ == dump_line(offset as nat, chunk@),
{
    let mut line = String::new();
    push_hex_padded(&mut line, offset, 8);
    line.append(": ");
    let ghost head = line@;
    let mut hex = String::new();
    let mut i: usize = 0;
    assert(chunk@.take(0) =~= Seq::<u8>::empty());
    while i < chunk.len()
        invariant
            i <= chunk@.len(),
            hex@ == dump_hex(chunk@.take(i as int)),
        decreases chunk@.len() - i,
    {
        let ghost before = hex@;
        assert(chunk@.take(i as int + 1).drop_last() =~= chunk@.take(i as int));
        assert(chunk@.take(i as int + 1).last() == chunk@[i as int]);
        if i > 0 {
            string_push(&mut hex, ' ');
        }
        string_push(&mut hex, hex_char(chunk[i] / 16));
        string_push(&mut hex, hex_char(chunk[i] % 16));
        assert(hex@ =~= dump_hex(chunk@.take(i as int + 1))) by {
            if i == 0 {
                assert(chunk@.take(1)[0] == chunk@[0]);
            }
        }
        i += 1;
    }
    assert(chunk@.take(i as int) =~= chunk@);
    let width = hex.as_str().unicode_len();
    line.append(hex.as_str());
    let mut pad = String::new();
    let mut filled = width;
    assert(pad@ =~= Seq::new(0nat, |i: int| ' '));
    while filled < 48
        invariant
            width == hex@.len(),
            width <= filled,
            width < 48 ==> filled <= 48,
            width >= 48 ==> filled == width,
            pad@ == Seq::new((filled - width) as nat, |i: int| ' '),
        decreases 48 - filled,
    {
        string_push(&mut pad, ' ');
        filled += 1;
        assert(pad@ =~= Seq::new((filled - width) as nat, |i: int| ' '));
    }
    assert(pad@.len() == padding(hex@, 48).len());
    assert(pad@ =~= padding(hex@, 48));
    line.append(pad.as_str());
    line.append(" |");
    let mut shown = String::new();
    let mut j: usize = 0;
    while j < chunk.len()
        invariant
            j <= chunk@.len(),
            shown@ == dump_text(chunk@).take(j as int),
        decreases chunk@.len() - j,
    {
        let b = chunk[j];
        let c = if 0x20 <= b && b <= 0x7e {
            b as char
        } else {
            '.'
        };
        string_push(&mut shown, c);
        assert(shown@ =~= dump_text(chunk@).take(j as int + 1));
        j += 1;
    }
    assert(dump_text(chunk@).take(j as int) =~= dump_text(chunk@));
    line.append(shown.as_str());
    line.append("|");
    assert(line@ =~= dump_line(offset as nat, chunk@));
    line
}

/// The hex dump of bytes, 16 to the line.
pub fn hex_dump(bytes: &[u8]) -> (lines: Vec<String>)
    ensures
        lines_view(lines@) == dump_lines(bytes@, 0),
{
    let mut lines: Vec<String> = Vec::new();
    let mut from: usize = 0;
    let ghost mut k: int = 0;
    assert(lines_view(lines@) =~= Seq::<Seq<char>>::empty());
    while from < bytes.len()
        invariant
            k >= 0,
            from <= bytes@.len(),
            from == 16 * k || (from == bytes@.len() && 16 * k >= bytes@.len()),
            dump_lines(bytes@, 0) == lines_view(lines@) + dump_lines(bytes@, k),
        decreases bytes@.len() - from,
    {
        let end = if bytes.len() - from >= 16 {
            from + 16
        } else {
            bytes.len()
        };
        let chunk = vstd::slice::slice_subrange(bytes, from, end);
        let line = hex_dump_line(from, chunk);
        let ghost held = lines_view(lines@);
        lines.push(line);
        assert(lines_view(lines@) =~= held.push(dump_line(from as nat, chunk@)));
        assert(held + (seq![dump_line(from as nat, chunk@)] + dump_lines(bytes@, k + 1))
            =~= lines_view(lines@) + dump_lines(bytes@, k + 1));
        proof {
            k = k + 1;
        }
        from = end;
    }
    assert(dump_lines(bytes@, k) =~= Seq::<Seq<char>>::empty());
    assert(lines_view(lines@) + Seq::<Seq<char>>::empty() =~= lines_view(lines@));
    lines
}

/// Whether a text starts like a JSON document: behind the white space at
/// its start stands a brace or a bracket.
pub open spec fn looks_like_json(text: Seq<char>) -> bool {
    let at = skip_spaces(text, 0);
    0 <= at < text.len() && (text[at] == '{' || text[at] == '[')
}

/// What a value is shown as: text that starts like a JSON document, other
/// text, or bytes.
pub open spec fn value_format(value: Seq<u8>) -> ValueFormat {
    if valid_utf8(value) {
        if looks_like_json(decode_utf8(value)) {
            ValueFormat::Json
        } else {
            ValueFormat::Text
        }
    } else {
        ValueFormat::Binary
    }
}

/// The lines that the preview shows for a value: of text, its lines; of
/// text that starts like a JSON document and is one, the lines of its
/// indented form; of bytes that are no text, the hex dump.
pub open spec fn value_lines(value: Seq<u8>) -> Seq<Seq<char>> {
    match value_format(value) {
        ValueFormat::Binary => dump_lines(value, 0),
        ValueFormat::Text => lines_from(decode_utf8(value), 0),
        ValueFormat::Json => match json_decoding(value) {
            Some(parsed) => match json_pretty_text(parsed) {
                Some(pretty) => lines_from(pretty, 0),
                None => lines_from(decode_utf8(value), 0),
            },
            None => lines_from(decode_utf8(value), 0),
        },
    }
}

/// Formats a value for the preview.
pub fn format_value_content(value: &[u8]) -> (preview: Preview)
    ensures
        preview.format == value_format(value@),
        lines_view(preview.lines@) == value_lines(value@),
{
    match utf8_text(value) {
        Some(text) => {
            proof {
                encode_utf8_decode_utf8(text@);
            }
            let chars = chars_of(text.as_str());
            let at = skip_spaces_from(chars.as_slice(), 0);
            if at < chars.len() && (chars[at] == '{' || chars[at] == '[') {
                let pretty = match json_decode(value) {
                    Some(parsed) => json_pretty(&parsed),
                    None => None,
                };
                let lines = match pretty {
                    Some(pretty) => text_lines(pretty.as_str()),
                    None => text_lines(text.as_str()),
                };
                Preview { format: ValueFormat::Json, lines }
            } else {
                Preview { format: ValueFormat::Text, lines: text_lines(text.as_str()) }
            }
        },
        None => Preview { format: ValueFormat::Binary, lines: hex_dump(value) },
    }
}

} // verus!
