//! Colors written as hexadecimal text: `#RRGGBB` or `#RRGGBBAA`.

use vstd::prelude::*;
use vstd::string::StrSliceExecFns;
use vstd::utf8::is_ascii_chars;

verus! {

/// A color as red, green, blue and opacity.
pub type Rgba = (u8, u8, u8, u8);

/// The value of a hexadecimal digit in either case, or nothing for any
/// other character.
pub open spec fn hex_digit_value(c: char) -> Option<int> {
    if '0' <= c <= '9' {
        Some(c as int - '0' as int)
    } else if 'a' <= c <= 'f' {
        Some(c as int - 'a' as int + 10)
    } else if 'A' <= c <= 'F' {
        Some(c as int - 'A' as int + 10)
    } else {
        None
    }
}

/// The byte that the two hexadecimal digits at `at` and `at + 1` write, or
/// nothing where one of the two is no hexadecimal digit.
pub open spec fn hex_byte(s: Seq<char>, at: int) -> Option<u8> {
    match (hex_digit_value(s[at]), hex_digit_value(s[at + 1])) {
        (Some(high), Some(low)) => Some((high * 16 + low) as u8),
        _ => None,
    }
}

/// Whether a text has the form of a color: one `#`, then six or eight
/// hexadecimal digits in either case, and nothing else.
pub open spec fn is_color_text(s: Seq<char>) -> bool {
    &&& s.len() == 7 || s.len() == 9
    &&& s[0] == '#'
    &&& forall|i: int| 1 <= i < s.len() ==> hex_digit_value(#[trigger] s[i]) is Some
}

/// The color that a text writes. After one `#`, six hexadecimal digits give
/// red, green and blue with full opacity, and eight give opacity too. Any
/// other text writes no color: one without the `#` or with more than one,
/// one of another length, one with any other character.
pub open spec fn hex_color(s: Seq<char>) -> Option<Rgba> {
    let digits = s.skip(1);
    if s.len() == 7 && s[0] == '#' {
        match (hex_byte(digits, 0), hex_byte(digits, 2), hex_byte(digits, 4)) {
            (Some(r), Some(g), Some(b)) => Some((r, g, b, 255u8)),
            _ => None,
        }
    } else if s.len() == 9 && s[0] == '#' {
        match (
            hex_byte(digits, 0),
            hex_byte(digits, 2),
            hex_byte(digits, 4),
            hex_byte(digits, 6),
        ) {
            (Some(r), Some(g), Some(b), Some(a)) => Some((r, g, b, a)),
            _ => None,
        }
    } else {
        None
    }
}

/// A text writes a color if and only if it has the form of one; a color
/// text holds ASCII characters only.
pub proof fn lemma_color_text(s: Seq<char>)
    ensures
        hex_color(s) is Some <==> is_color_text(s),
        is_color_text(s) ==> is_ascii_chars(s),
{
    let digits = s.skip(1);
    if hex_color(s) is Some {
        assert forall|i: int| 1 <= i < s.len() implies hex_digit_value(#[trigger] s[i]) is Some by {
            let pair = 2 * ((i - 1) / 2);
            assert(hex_byte(digits, pair) is Some);
            assert(i - 1 == pair || i - 1 == pair + 1);
            assert(digits[i - 1] == s[i]);
        }
    }
    if is_color_text(s) {
        assert forall|k: int| 0 <= k < digits.len() implies hex_digit_value(
            #[trigger] digits[k],
        ) is Some by {
            assert(digits[k] == s[k + 1]);
        }
        assert(hex_byte(digits, 0) is Some);
        assert(hex_byte(digits, 2) is Some);
        assert(hex_byte(digits, 4) is Some);
        if s.len() == 9 {
            assert(hex_byte(digits, 6) is Some);
        }
        assert forall|i: int| 0 <= i < s.len() implies '\0' <= #[trigger] s[i] <= '\u{7f}' by {
            if i > 0 {
                assert(hex_digit_value(s[i]) is Some);
            }
        }
    }
}

fn digit_value(c: char) -> (r: Option<u8>)
    ensures
        match r {
            Some(v) => hex_digit_value(c) == Some(v as int) && v < 16,
            None => hex_digit_value(c) is None,
        },
{
    if '0' <= c && c <= '9' {
        Some((c as u32 - '0' as u32) as u8)
    } else if 'a' <= c && c <= 'f' {
        Some((c as u32 - 'a' as u32 + 10) as u8)
    } else if 'A' <= c && c <= 'F' {
        Some((c as u32 - 'A' as u32 + 10) as u8)
    } else {
        None
    }
}

fn char_at(text: &str, at: usize) -> (c: char)
    requires
        text.is_ascii(),
        at < text@.len(),
    ensures
        c == text@[at as int],
{
    text.get_ascii(at) as char
}

fn byte_at(text: &str, start: usize, at: usize) -> (r: Option<u8>)
    requires
        text.is_ascii(),
        start + at + 2 <= text@.len() <= usize::MAX,
    ensures
        r == hex_byte(text@.skip(start as int), at as int),
{
    let high = digit_value(char_at(text, start + at));
    let low = digit_value(char_at(text, start + at + 1));
    match (high, low) {
        (Some(h), Some(l)) => Some(h * 16 + l),
        _ => None,
    }
}

/// Reads a color from hexadecimal text such as `#1a1a1a` or `#1a1a1aff`.
pub fn parse_hex_color(hex: &str) -> (r: Option<Rgba>)
    ensures
        r == hex_color(hex@),
{
    proof {
        lemma_color_text(hex@);
    }
    if !hex.is_ascii() {
        return None;
    }
    let len = hex.unicode_len();
    if len != 7 && len != 9 {
        return None;
    }
    if char_at(hex, 0) != '#' {
        return None;
    }
    let red = byte_at(hex, 1, 0);
    let green = byte_at(hex, 1, 2);
    let blue = byte_at(hex, 1, 4);
    if len == 7 {
        match (red, green, blue) {
            (Some(r), Some(g), Some(b)) => Some((r, g, b, 255)),
            _ => None,
        }
    } else {
        match (red, green, blue, byte_at(hex, 1, 6)) {
            (Some(r), Some(g), Some(b), Some(a)) => Some((r, g, b, a)),
            _ => None,
        }
    }
}

} // verus!
