//! Small conversions and the formatting of sizes, durations and entries for
//! display.

use core::time::Duration;
use vstd::prelude::*;
use vstd::string::*;
use vstd::utf8::{decode_utf8, encode_utf8, encode_utf8_decode_utf8, is_char_boundary, valid_utf8};
use crate::trusted::{duration_secs, string_push, utf8_lossy, utf8_lossy_text, utf8_text};

verus! {

/// The character of a digit below 16, in lower case.
pub open spec fn hex_digit(n: nat) -> char {
    if n < 10 {
        (0x30 + n) as u8 as char
    } else {
        (0x61 + n - 10) as u8 as char
    }
}

/// The lower-case hexadecimal text of `bytes`: two digits for each byte, the
/// high one first.
pub open spec fn hex_text(bytes: Seq<u8>) -> Seq<char> {
    Seq::new(
        2 * bytes.len(),
        |i: int|
            if i % 2 == 0 {
                hex_digit((bytes[i / 2] / 16) as nat)
            } else {
                hex_digit((bytes[i / 2] % 16) as nat)
            },
    )
}

/// The character of a digit below 16.
fn hex_char(n: u8) -> (c: char)
    requires
        n < 16,
    ensures
        c == hex_digit(n as nat),
{
    if n < 10 {
        (0x30u8 + n) as char
    } else {
        (0x61u8 + n - 10) as char
    }
}

/// Converts bytes to lower-case hexadecimal text.
pub fn bytes_to_hex(bytes: &[u8]) -> (text: String)
    ensures
        text@ == hex_text(bytes@),
{
    let mut text = String::new();
    let mut i: usize = 0;
    while i < bytes.len()
        invariant
            i <= bytes@.len(),
            text@ == hex_text(bytes@.take(i as int)),
        decreases bytes@.len() - i,
    {
        let ghost before = text@;
        string_push(&mut text, hex_char(bytes[i] / 16));
        string_push(&mut text, hex_char(bytes[i] % 16));
        assert(text@ =~= hex_text(bytes@.take(i as int + 1))) by {
            assert(bytes@.take(i as int + 1)[i as int] == bytes@[i as int]);
            assert forall|j: int| 0 <= j < 2 * i implies before[j] == hex_text(
                bytes@.take(i as int + 1),
            )[j] by {
                assert(bytes@.take(i as int)[j / 2] == bytes@.take(i as int + 1)[j / 2]);
            }
        }
        i += 1;
    }
    assert(bytes@.take(i as int) =~= bytes@);
    text
}

/// Why a text is no hexadecimal encoding.
#[derive(Debug, PartialEq, Eq)]
pub enum HexError {
    /// The text does not have an even number of bytes.
    OddLength,
    /// A pair of bytes does not spell a byte.
    InvalidDigit,
}

/// The value of a hexadecimal digit in either case, if `b` is one.
pub open spec fn hex_value(b: u8) -> Option<u8> {
    if 0x30 <= b <= 0x39 {
        Some((b - 0x30) as u8)
    } else if 0x61 <= b <= 0x66 {
        Some((b - 0x61 + 10) as u8)
    } else if 0x41 <= b <= 0x46 {
        Some((b - 0x41 + 10) as u8)
    } else {
        None
    }
}

/// The byte that the pair `hi`, `lo` spells: two hexadecimal digits in
/// either case, or a plus sign and one digit.
pub open spec fn hex_pair(hi: u8, lo: u8) -> Option<u8> {
    match (hex_value(hi), hex_value(lo)) {
        (Some(h), Some(l)) => Some((h * 16 + l) as u8),
        (None, Some(l)) => if hi == 0x2b {
            Some(l)
        } else {
            None
        },
        _ => None,
    }
}

/// The byte that pair number `k` of `text` spells.
pub open spec fn hex_pair_at(text: Seq<u8>, k: int) -> Option<u8> {
    hex_pair(text[2 * k], text[2 * k + 1])
}

/// Every pair of `text` from pair number `from` on spells a byte.
pub open spec fn hex_pairs_valid(text: Seq<u8>, from: int) -> bool {
    forall|k: int| from <= k < text.len() / 2 ==> #[trigger] hex_pair_at(text, k) is Some
}

/// The bytes that the pairs of `text` spell.
pub open spec fn hex_bytes(text: Seq<u8>) -> Seq<u8> {
    Seq::new(text.len() / 2, |k: int| hex_pair_at(text, k)->0)
}

/// What a hexadecimal text decodes to: its bytes, or why it has none.
pub open spec fn hex_decoding(text: Seq<u8>) -> Result<Seq<u8>, HexError> {
    if text.len() % 2 != 0 {
        Err(HexError::OddLength)
    } else if !hex_pairs_valid(text, 0) {
        Err(HexError::InvalidDigit)
    } else {
        Ok(hex_bytes(text))
    }
}

/// The value of a hexadecimal digit.
fn hex_value_of(b: u8) -> (r: Option<u8>)
    ensures
        r == hex_value(b),
{
    if 0x30 <= b && b <= 0x39 {
        Some(b - 0x30)
    } else if 0x61 <= b && b <= 0x66 {
        Some(b - 0x61 + 10)
    } else if 0x41 <= b && b <= 0x46 {
        Some(b - 0x41 + 10)
    } else {
        None
    }
}

/// Converts hexadecimal text back to bytes. Each pair of bytes of the text
/// spells one byte, as two digits in either case or as a plus sign and one
/// digit. A text of odd length, or with a pair that spells nothing, fails.
pub fn hex_to_bytes(hex: &str) -> (r: Result<Vec<u8>, HexError>)
    ensures
        match hex_decoding(hex.spec_bytes()) {
            Ok(bytes) => r matches Ok(v) && v@ == bytes,
            Err(e) => r == Err::<Vec<u8>, HexError>(e),
        },
{
    let text = hex.as_bytes();
    if text.len() % 2 != 0 {
        return Err(HexError::OddLength);
    }
    let mut bytes: Vec<u8> = Vec::new();
    let mut k: usize = 0;
    while k < text.len() / 2
        invariant
            text@ == hex.spec_bytes(),
            text@.len() % 2 == 0,
            k <= text@.len() / 2,
            bytes@.len() == k,
            forall|j: int| 0 <= j < k ==> #[trigger] hex_pair_at(text@, j) == Some(bytes@[j]),
        decreases text@.len() / 2 - k,
    {
        let hi = text[2 * k];
        let lo = text[2 * k + 1];
        let byte = match (hex_value_of(hi), hex_value_of(lo)) {
            (Some(h), Some(l)) => Some(h * 16 + l),
            (None, Some(l)) => if hi == 0x2b {
                Some(l)
            } else {
                None
            },
            _ => None,
        };
        match byte {
            Some(b) => {
                bytes.push(b);
            },
            None => {
                assert(!hex_pairs_valid(text@, 0)) by {
                    assert(hex_pair_at(text@, k as int) is None);
                }
                return Err(HexError::InvalidDigit);
            },
        }
        k += 1;
    }
    assert(bytes@ =~= hex_bytes(text@));
    Ok(bytes)
}

/// Hexadecimal text decodes to the bytes it was made from.
pub proof fn lemma_hex_roundtrip(bytes: Seq<u8>)
    ensures
        hex_decoding(encode_utf8(hex_text(bytes))) == Ok::<Seq<u8>, HexError>(bytes),
{
    let text = hex_text(bytes);
    let coded = encode_utf8(text);
    assert forall|i: int| 0 <= i < text.len() implies 0 <= (#[trigger] text[i]) as u32 <= 0x7f by {
    }
    vstd::utf8::is_ascii_chars_encode_utf8(text);
    assert(coded.len() == 2 * bytes.len());
    assert forall|k: int| 0 <= k < coded.len() / 2 implies #[trigger] hex_pair_at(coded, k)
        == Some(bytes[k]) by {
        let b = bytes[k];
        assert(coded[2 * k] == text[2 * k] as u8);
        assert(coded[2 * k + 1] == text[2 * k + 1] as u8);
        assert((2 * k) / 2 == k && (2 * k + 1) / 2 == k);
        assert((b / 16) * 16 + b % 16 == b);
    }
    assert(hex_bytes(coded) =~= bytes);
}

/// Reads bytes as UTF-8 text; `None` where they are not UTF-8.
pub fn bytes_to_utf8(bytes: &[u8]) -> (r: Option<String>)
    ensures
        r is Some <==> valid_utf8(bytes@),
        r matches Some(text) ==> text@ == decode_utf8(bytes@),
{
    let r = utf8_text(bytes);
    proof {
        if r is Some {
            encode_utf8_decode_utf8(r->0@);
        }
    }
    r
}

/// The character of a digit below 10.
pub open spec fn digit(n: nat) -> char {
    (0x30 + n) as u8 as char
}

/// The decimal text of `n`, without leading zeros.
pub open spec fn decimal(n: nat) -> Seq<char>
    decreases n,
{
    if n < 10 {
        seq![digit(n)]
    } else {
        decimal(n / 10).push(digit(n % 10))
    }
}

/// Appends the decimal text of `n` to `text`.
fn push_decimal(text: &mut String, n: u128)
    ensures
        final(text)@ == old(text)@ + decimal(n as nat),
    decreases n,
{
    if n >= 10 {
        push_decimal(text, n / 10);
    }
    let c = (0x30u8 + (n % 10) as u8) as char;
    string_push(text, c);
    assert(text@ =~= old(text)@ + decimal(n as nat));
}

/// `num / den` rounded to the nearest whole number, a half to the even one.
pub open spec fn div_round_half_even(num: nat, den: nat) -> nat
    recommends
        den > 0,
{
    let q = num / den;
    let rest = num % den;
    if 2 * rest > den || (2 * rest == den && q % 2 == 1) {
        q + 1
    } else {
        q
    }
}

/// The power of two by whose multiples numbers of the size of `n` are told
/// apart in a 64-bit floating-point number, which holds 53 binary digits.
pub open spec fn float_grain(n: nat) -> nat {
    if n < 0x20_0000_0000_0000 {
        1
    } else if n < 0x40_0000_0000_0000 {
        2
    } else if n < 0x80_0000_0000_0000 {
        4
    } else if n < 0x100_0000_0000_0000 {
        8
    } else if n < 0x200_0000_0000_0000 {
        16
    } else if n < 0x400_0000_0000_0000 {
        32
    } else if n < 0x800_0000_0000_0000 {
        64
    } else if n < 0x1000_0000_0000_0000 {
        128
    } else if n < 0x2000_0000_0000_0000 {
        256
    } else if n < 0x4000_0000_0000_0000 {
        512
    } else if n < 0x8000_0000_0000_0000 {
        1024
    } else {
        2048
    }
}

/// `n` as a 64-bit floating-point number holds it: rounded to 53 binary
/// digits, a half to the even one.
pub open spec fn float_rounded(n: nat) -> nat {
    div_round_half_even(n, float_grain(n)) * float_grain(n)
}

/// The unit in which a size is shown: 0 for bytes, then KB, MB, GB, and 4
/// for TB, the largest.
pub open spec fn size_unit(bytes: nat) -> nat {
    if bytes < 1024 {
        0
    } else if bytes < 1024 * 1024 {
        1
    } else if bytes < 1024 * 1024 * 1024 {
        2
    } else if bytes < 1024 * 1024 * 1024 * 1024 {
        3
    } else {
        4
    }
}

/// The number of bytes in one of unit number `unit`.
pub open spec fn unit_size(unit: nat) -> nat {
    if unit == 0 {
        1
    } else if unit == 1 {
        1024
    } else if unit == 2 {
        1024 * 1024
    } else if unit == 3 {
        1024 * 1024 * 1024
    } else {
        1024 * 1024 * 1024 * 1024
    }
}

/// The name of unit number `unit`.
pub open spec fn unit_name(unit: nat) -> Seq<char> {
    if unit == 0 {
        "B"@
    } else if unit == 1 {
        "KB"@
    } else if unit == 2 {
        "MB"@
    } else if unit == 3 {
        "GB"@
    } else {
        "TB"@
    }
}

/// A size in tenths of its unit: the size, as a floating-point number holds
/// it, over the unit's size, rounded to one decimal place.
pub open spec fn size_tenths(bytes: nat) -> nat {
    div_round_half_even(float_rounded(bytes) * 10, unit_size(size_unit(bytes)))
}

/// A size as shown: below 1024 the bytes, as in `1023 B`; from there on the
/// largest unit up to TB that the size reaches, with one decimal place, as
/// in `2.0 KB`.
pub open spec fn size_text(bytes: nat) -> Seq<char> {
    if bytes < 1024 {
        decimal(bytes) + " B"@
    } else {
        decimal(size_tenths(bytes) / 10) + "."@ + decimal(size_tenths(bytes) % 10) + " "@
            + unit_name(size_unit(bytes))
    }
}

/// `num / den` rounded to the nearest whole number, a half to the even one.
fn round_half_even(num: u128, den: u128) -> (r: u128)
    requires
        den > 0,
        den <= 0x1_0000_0000_0000_0000,
    ensures
        r == div_round_half_even(num as nat, den as nat),
{
    let q = num / den;
    let rest = num % den;
    if 2 * rest > den || (2 * rest == den && q % 2 == 1) {
        assert(q < num || num == 0 || den == 1) by (nonlinear_arith)
            requires
                q == num / den,
                den > 0,
        ;
        assert(q * den + rest == num) by (nonlinear_arith)
            requires
                q == num / den,
                rest == num % den,
                den > 0,
        ;
        q + 1
    } else {
        q
    }
}

/// The grain of a 64-bit floating-point number of the size of `n`.
fn grain_of(n: u64) -> (g: u128)
    ensures
        g == float_grain(n as nat),
        1 <= g <= 2048,
{
    if n < 0x20_0000_0000_0000 {
        1
    } else if n < 0x40_0000_0000_0000 {
        2
    } else if n < 0x80_0000_0000_0000 {
        4
    } else if n < 0x100_0000_0000_0000 {
        8
    } else if n < 0x200_0000_0000_0000 {
        16
    } else if n < 0x400_0000_0000_0000 {
        32
    } else if n < 0x800_0000_0000_0000 {
        64
    } else if n < 0x1000_0000_0000_0000 {
        128
    } else if n < 0x2000_0000_0000_0000 {
        256
    } else if n < 0x4000_0000_0000_0000 {
        512
    } else if n < 0x8000_0000_0000_0000 {
        1024
    } else {
        2048
    }
}

/// Formats a size in bytes for reading.
pub fn format_size(bytes: u64) -> (text: String)
    ensures
        text@ == size_text(bytes as nat),
{
    let mut text = String::new();
    if bytes < 1024 {
        push_decimal(&mut text, bytes as u128);
        text.append(" B");
        return text;
    }
    let (unit_bytes, name): (u128, &str) = if bytes < 1024 * 1024 {
        (1024, "KB")
    } else if bytes < 1024 * 1024 * 1024 {
        (1024 * 1024, "MB")
    } else if bytes < 1024 * 1024 * 1024 * 1024 {
        (1024 * 1024 * 1024, "GB")
    } else {
        (1024 * 1024 * 1024 * 1024, "TB")
    };
    let grain = grain_of(bytes);
    let steps = round_half_even(bytes as u128, grain);
    assert(steps <= bytes + 1) by (nonlinear_arith)
        requires
            steps == div_round_half_even(bytes as nat, grain as nat),
            grain >= 1,
    {
        let q = bytes as nat / grain as nat;
        assert(q <= bytes);
    }
    assert(steps * grain <= 0x2_0000_0000_0000_0000_0000) by (nonlinear_arith)
        requires
            steps <= 0x1_0000_0000_0000_0000,
            grain <= 2048,
    ;
    let rounded = steps * grain;
    let tenths = round_half_even(rounded * 10, unit_bytes);
    push_decimal(&mut text, tenths / 10);
    text.append(".");
    push_decimal(&mut text, tenths % 10);
    text.append(" ");
    text.append(name);
    text
}

/// Formats a length in bytes for reading.
pub fn format_bytes(len: usize) -> (text: String)
    ensures
        text@ == size_text(len as nat),
{
    format_size(len as u64)
}

/// A number of seconds as shown: hours, minutes and seconds as in
/// `1h 2m 5s`, without the hours where there are none, and without the
/// minutes too where there are neither.
pub open spec fn duration_text(secs: nat) -> Seq<char> {
    let h = secs / 3600;
    let m = (secs % 3600) / 60;
    let s = secs % 60;
    if h > 0 {
        decimal(h) + "h "@ + decimal(m) + "m "@ + decimal(s) + "s"@
    } else if m > 0 {
        decimal(m) + "m "@ + decimal(s) + "s"@
    } else {
        decimal(s) + "s"@
    }
}

/// Formats the whole seconds of a duration as hours, minutes and seconds.
pub fn format_duration(dur: Duration) -> (text: String)
    ensures
        text@ == duration_text(duration_secs(dur) as nat),
{
    let secs = dur.as_secs();
    let h = secs / 3600;
    let m = (secs % 3600) / 60;
    let s = secs % 60;
    let mut text = String::new();
    if h > 0 {
        push_decimal(&mut text, h as u128);
        text.append("h ");
    }
    if h > 0 || m > 0 {
        push_decimal(&mut text, m as u128);
        text.append("m ");
    }
    push_decimal(&mut text, s as u128);
    text.append("s");
    assert(text@ =~= duration_text(secs as nat));
    text
}

/// A text cut to `max_width` bytes: the text itself where it fits; three
/// dots where no more than three bytes are allowed; else the text of its
/// first `max_width - 3` bytes and three dots.
pub open spec fn truncated(text: Seq<char>, max_width: nat) -> Seq<char> {
    if encode_utf8(text).len() <= max_width {
        text
    } else if max_width <= 3 {
        "..."@
    } else {
        decode_utf8(encode_utf8(text).subrange(0, max_width - 3)) + "..."@
    }
}

/// A text can be cut to `max_width` bytes: where it must be cut, the place
/// of the cut lies between two characters.
pub open spec fn can_truncate(text: Seq<char>, max_width: nat) -> bool {
    encode_utf8(text).len() > max_width && max_width > 3 ==> is_char_boundary(
        encode_utf8(text),
        max_width - 3,
    )
}

/// Cuts a text to fit `max_width` bytes, with three dots in place of what
/// was cut.
pub fn truncate_with_ellipsis(text: &str, max_width: usize) -> (r: String)
    requires
        can_truncate(text@, max_width as nat),
    ensures
        r@ == truncated(text@, max_width as nat),
{
    if text.as_bytes().len() <= max_width {
        text.to_owned()
    } else if max_width <= 3 {
        "...".to_owned()
    } else {
        let (kept, _) = text.split_at(max_width - 3);
        proof {
            encode_utf8_decode_utf8(kept@);
            assert(encode_utf8(kept@) == encode_utf8(text@).subrange(0, max_width - 3));
            assert(kept@ == decode_utf8(encode_utf8(text@).subrange(0, max_width - 3)));
        }
        let mut r = kept.to_owned();
        r.append("...");
        assert(r@ == kept@ + "..."@);
        r
    }
}

/// An entry as one line: the key, a colon and a space, and the value as
/// text.
pub open spec fn kv_line(key: Seq<char>, value: Seq<u8>) -> Seq<char> {
    key + ": "@ + utf8_lossy(value)
}

/// Formats an entry as one line, cut to fit `max_width` bytes.
pub fn format_kv_entry(key: &str, value: &[u8], max_width: usize) -> (r: String)
    requires
        can_truncate(kv_line(key@, value@), max_width as nat),
    ensures
        r@ == truncated(kv_line(key@, value@), max_width as nat),
{
    let value_text = utf8_lossy_text(value);
    let mut entry = key.to_owned();
    entry.append(": ");
    entry.append(value_text.as_str());
    truncate_with_ellipsis(entry.as_str(), max_width)
}

/// The place in a list of results as shown: `No results` for an empty
/// list, else the place counted from one, a slash, the total, and `result`
/// where the page holds one, `results` where it holds more or none.
pub open spec fn pagination_text(current: nat, total: nat, result_count: nat) -> Seq<char> {
    if total == 0 {
        "No results"@
    } else if result_count == 1 {
        decimal(current + 1) + "/"@ + decimal(total) + " result"@
    } else {
        decimal(current + 1) + "/"@ + decimal(total) + " results"@
    }
}

/// Formats the place in a list of results.
pub fn format_pagination(current: usize, total: usize, result_count: usize) -> (text: String)
    requires
        total > 0 ==> current < usize::MAX,
    ensures
        text@ == pagination_text(current as nat, total as nat, result_count as nat),
{
    if total == 0 {
        return "No results".to_owned();
    }
    let mut text = String::new();
    push_decimal(&mut text, (current + 1) as u128);
    text.append("/");
    push_decimal(&mut text, total as u128);
    if result_count == 1 {
        text.append(" result");
    } else {
        text.append(" results");
    }
    assert(text@ =~= pagination_text(current as nat, total as nat, result_count as nat));
    text
}

} // verus!
