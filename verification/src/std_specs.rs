//! Contracts for the standard-library functions that the conversion calls
//! and that `vstd` leaves unspecified. Verus takes these on trust.

use vstd::prelude::*;

verus! {

/// Whether `v` is a Unicode scalar value: a code point up to U+10FFFF that
/// is not a surrogate.
pub open spec fn is_scalar_value(v: u32) -> bool {
    v <= 0xD7FF || 0xE000 <= v <= 0x10FFFF
}

/// `char::from_u32` yields the character with the given code point when
/// that code point is a Unicode scalar value, and `None` otherwise.
pub assume_specification[ char::from_u32 ](i: u32) -> (r: Option<char>)
    ensures
        r == (if is_scalar_value(i) {
            Some(i as char)
        } else {
            None
        }),
;

/// `String::push` appends the one character to the end of the string and
/// leaves what was there before in place.
pub assume_specification[ String::push ](s: &mut String, ch: char)
    ensures
        final(s)@ == old(s)@.push(ch),
;

} // verus!
