//! Packed colours and the `#RRGGBB` notation for them.

use vstd::prelude::*;
use vstd::string::StrSliceExecFns;

verus! {

/// The colour that stands in for one that cannot be read.
pub const WHITE: u32 = 0xFF_FF_FF;

/// The value of a hexadecimal digit, in either case.
pub open spec fn hex_digit(c: char) -> Option<u32> {
    let code = c as u32;
    if 0x30 <= code <= 0x39 {
        Some((code - 0x30) as u32)
    } else if 0x61 <= code <= 0x66 {
        Some((code - 0x61 + 10) as u32)
    } else if 0x41 <= code <= 0x46 {
        Some((code - 0x41 + 10) as u32)
    } else {
        None
    }
}

/// Whether `s` is a colour in the form `#RRGGBB`: a hash sign and six
/// hexadecimal digits, nothing else.
pub open spec fn is_hex_color(s: Seq<char>) -> bool {
    &&& s.len() == 7
    &&& s[0] == '#'
    &&& forall|i: int| 1 <= i < 7 ==> (#[trigger] hex_digit(s[i])) is Some
}

/// The number that the six digits of a colour in the form `#RRGGBB` spell.
pub open spec fn hex_color_value(s: Seq<char>) -> int {
    hex_digit(s[1])->0 * 0x10_00_00 + hex_digit(s[2])->0 * 0x1_00_00 + hex_digit(s[3])->0 * 0x10_00
        + hex_digit(s[4])->0 * 0x1_00 + hex_digit(s[5])->0 * 0x10 + hex_digit(s[6])->0
}

/// The packed colour that `s` names: its value where it is well formed,
/// white where it is not.
pub open spec fn packed_color(s: Seq<char>) -> u32 {
    if is_hex_color(s) {
        hex_color_value(s) as u32
    } else {
        WHITE
    }
}

/// The value of the hexadecimal digit at position `i` of `text`.
fn digit_at(text: &str, i: usize) -> (r: Option<u32>)
    requires
        i < text@.len(),
    ensures
        r == hex_digit(text@[i as int]),
        r is Some ==> r->0 < 16,
{
    let code: u32 = text.get_char(i) as u32;
    if 0x30 <= code && code <= 0x39 {
        Some(code - 0x30)
    } else if 0x61 <= code && code <= 0x66 {
        Some(code - 0x61 + 10)
    } else if 0x41 <= code && code <= 0x46 {
        Some(code - 0x41 + 10)
    } else {
        None
    }
}

/// Reads a colour in the form `#RRGGBB`. Anything else is read as white.
pub fn parse_color(color_hex: &str) -> (color: u32)
    ensures
        color == packed_color(color_hex@),
{
    if color_hex.unicode_len() != 7 {
        return WHITE;
    }
    if color_hex.get_char(0) != '#' {
        return WHITE;
    }
    let digits = (
        digit_at(color_hex, 1),
        digit_at(color_hex, 2),
        digit_at(color_hex, 3),
        digit_at(color_hex, 4),
        digit_at(color_hex, 5),
        digit_at(color_hex, 6),
    );
    match digits {
        (Some(r1), Some(r0), Some(g1), Some(g0), Some(b1), Some(b0)) => {
            r1 * 0x10_00_00 + r0 * 0x1_00_00 + g1 * 0x10_00 + g0 * 0x1_00 + b1 * 0x10 + b0
        },
        _ => WHITE,
    }
}

} // verus!
