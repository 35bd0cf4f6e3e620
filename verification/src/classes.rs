//! The code-point classes that decide how a character is treated.

use vstd::prelude::*;

verus! {

/// The half-width voiced mark (dakuten), U+FF9E.
pub const VOICED_MARK: char = 'ﾞ';

/// The half-width semi-voiced mark (handakuten), U+FF9F.
pub const SEMI_VOICED_MARK: char = 'ﾟ';

/// Printable ASCII: U+0020 through U+007E.
pub open spec fn is_printable_ascii(v: u32) -> bool {
    0x0020 <= v <= 0x007E
}

/// A half-width katakana base character: the space, or a code point of the
/// half-width block U+FF61 through U+FF9D.
pub open spec fn is_half_width_kana(v: u32) -> bool {
    v == 0x0020 || 0xFF61 <= v <= 0xFF9D
}

/// One of the two half-width voiced marks, U+FF9E and U+FF9F.
pub open spec fn is_voiced_mark(v: u32) -> bool {
    v == 0xFF9E || v == 0xFF9F
}

/// A half-width character of any of the three classes. A text without one
/// is full-width already.
pub open spec fn is_half_width(v: u32) -> bool {
    is_printable_ascii(v) || is_half_width_kana(v) || is_voiced_mark(v)
}

/// What a following character adds to the code point of a full-width base:
/// 1 for the voiced mark, 2 for the semi-voiced mark, 0 for anything else
/// and at the end of the text.
pub open spec fn voiced_offset(next: Option<char>) -> u32 {
    match next {
        Some(c) => if c == VOICED_MARK {
            1
        } else if c == SEMI_VOICED_MARK {
            2
        } else {
            0
        },
        None => 0,
    }
}

/// Tells whether `code_point` is printable ASCII.
pub fn ascii_check(code_point: u32) -> (b: bool)
    ensures
        b == is_printable_ascii(code_point),
{
    code_point >= 0x0020 && code_point <= 0x007E
}

/// Tells whether `code_point` is a half-width katakana base character.
pub fn hw_kana_check(code_point: u32) -> (b: bool)
    ensures
        b == is_half_width_kana(code_point),
{
    code_point == 0x0020 || (code_point >= 0xFF61 && code_point <= 0xFF9D)
}

/// Tells whether `code_point` is one of the two half-width voiced marks.
pub fn dakuten_check(code_point: u32) -> (b: bool)
    ensures
        b == is_voiced_mark(code_point),
{
    code_point == 0xFF9E || code_point == 0xFF9F
}

/// How far to step from a full-width base when `next_char` follows its
/// half-width form. The voiced and the semi-voiced form of a full-width
/// katakana stand one and two code points after the plain form.
pub fn check_voiced(next_char: Option<char>) -> (offset: u32)
    ensures
        offset == voiced_offset(next_char),
{
    match next_char {
        Some(n_ch) => {
            if n_ch == VOICED_MARK {
                1
            } else if n_ch == SEMI_VOICED_MARK {
                2
            } else {
                0
            }
        },
        None => 0,
    }
}

} // verus!
