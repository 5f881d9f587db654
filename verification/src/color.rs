//! Background colors: an opaque RGB triple, parsed from a hex string.

use vstd::prelude::*;
use vstd::string::StrSliceExecFns;

use crate::error::ConvertError;

verus! {

/// An opaque color, one byte per channel.
#[derive(Debug, Clone, Copy, PartialEq, Eq, Structural)]
pub struct Rgb {
    pub r: u8,
    pub g: u8,
    pub b: u8,
}

/// `c` is an ASCII hexadecimal digit (either case).
pub open spec fn is_hex_digit(c: char) -> bool {
    (48 <= c as u32 && c as u32 <= 57)  // '0' ..= '9'
    || (97 <= c as u32 && c as u32 <= 102)  // 'a' ..= 'f'
    || (65 <= c as u32 && c as u32 <= 70)  // 'A' ..= 'F'
}

/// The numeric value of a hexadecimal digit.
pub open spec fn hex_val(c: char) -> nat
    recommends
        is_hex_digit(c),
{
    if 48 <= c as u32 && c as u32 <= 57 {
        (c as u32 - 48) as nat
    } else if 97 <= c as u32 && c as u32 <= 102 {
        (c as u32 - 97 + 10) as nat
    } else {
        (c as u32 - 65 + 10) as nat
    }
}

/// Every character of `s` is a hexadecimal digit.
pub open spec fn all_hex_digits(s: Seq<char>) -> bool {
    forall|i: int| 0 <= i < s.len() ==> is_hex_digit(#[trigger] s[i])
}

/// A well-formed color string: exactly six hexadecimal digits, with one
/// optional leading `#`.
pub open spec fn valid_hex_color(s: Seq<char>) -> bool {
    ||| (s.len() == 6 && all_hex_digits(s))
    ||| (s.len() == 7 && s[0] == '#' && all_hex_digits(s.skip(1)))
}

/// The six digits of a well-formed color string, the leading `#` removed.
pub open spec fn hex_color_body(s: Seq<char>) -> Seq<char> {
    if s.len() == 7 {
        s.skip(1)
    } else {
        s
    }
}

/// The value of the two hexadecimal digits starting at index `i`.
pub open spec fn hex_pair_val(s: Seq<char>, i: int) -> nat {
    hex_val(s[i]) * 16 + hex_val(s[i + 1])
}

/// The color a well-formed hex string denotes: one byte pair per channel,
/// in the order red, green, blue.
pub open spec fn spec_hex_color(s: Seq<char>) -> Rgb
    recommends
        valid_hex_color(s),
{
    let body = hex_color_body(s);
    Rgb {
        r: hex_pair_val(body, 0) as u8,
        g: hex_pair_val(body, 2) as u8,
        b: hex_pair_val(body, 4) as u8,
    }
}

/// The numeric value of one hexadecimal digit character, or `None` when the
/// character is no such digit.
fn hex_digit_value(c: char) -> (r: Option<u8>)
    ensures
        r is Some <==> is_hex_digit(c),
        r is Some ==> r->0 as nat == hex_val(c) && r->0 < 16,
{
    let n = c as u32;
    if 48 <= n && n <= 57 {
        Some((n - 48) as u8)
    } else if 97 <= n && n <= 102 {
        Some((n - 97 + 10) as u8)
    } else if 65 <= n && n <= 70 {
        Some((n - 65 + 10) as u8)
    } else {
        None
    }
}

/// The byte denoted by the two hexadecimal digits of `s` at `i` and `i + 1`,
/// or `None` when either character is no hexadecimal digit.
fn hex_pair(s: &str, i: usize) -> (r: Option<u8>)
    requires
        i < usize::MAX,
        i + 1 < s@.len(),
    ensures
        r is Some <==> (is_hex_digit(s@[i as int]) && is_hex_digit(s@[i + 1])),
        r is Some ==> r->0 as nat == hex_pair_val(s@, i as int),
{
    let hi = hex_digit_value(s.get_char(i));
    let lo = hex_digit_value(s.get_char(i + 1));
    match (hi, lo) {
        (Some(h), Some(l)) => Some(h * 16 + l),
        _ => None,
    }
}

/// Parse a background color from a hex string: six hexadecimal digits with
/// an optional leading `#`. Every other length, a missing `#` on a
/// seven-character string, and every non-digit character is rejected with
/// `ConvertError::InvalidColor`.
pub fn parse_hex_color(s: &str) -> (r: Result<Rgb, ConvertError>)
    ensures
        valid_hex_color(s@) <==> r is Ok,
        r is Ok ==> r->Ok_0 == spec_hex_color(s@),
        r is Err ==> r->Err_0 == ConvertError::InvalidColor,
{
    let n = s.unicode_len();
    if n != 6 && n != 7 {
        return Err(ConvertError::InvalidColor);
    }
    let body: &str = if n == 7 {
        if s.get_char(0) != '#' {
            return Err(ConvertError::InvalidColor);
        }
        s.substring_char(1, 7)
    } else {
        s
    };
    assert(body@ == hex_color_body(s@));
    let red = hex_pair(body, 0);
    let green = hex_pair(body, 2);
    let blue = hex_pair(body, 4);
    match (red, green, blue) {
        (Some(r), Some(g), Some(b)) => {
            assert(valid_hex_color(s@)) by {
                let bd = hex_color_body(s@);
                assert(forall|i: int| 0 <= i < 6 ==> is_hex_digit(#[trigger] bd[i]));
            }
            Ok(Rgb { r, g, b })
        },
        _ => Err(ConvertError::InvalidColor),
    }
}

} // verus!
