//! Conversion of one character, given the character that follows it.

use vstd::prelude::*;

use crate::classes::{
    ascii_check, check_voiced, dakuten_check, hw_kana_check, is_half_width_kana,
    is_printable_ascii, is_voiced_mark, voiced_offset,
};
use crate::mode::ConvertMode;
use crate::std_specs::is_scalar_value;
use crate::table::{kana_map, lemma_keys, lemma_values, lookup};

verus! {

/// The code point of the ideographic (full-width) space.
pub const IDEOGRAPHIC_SPACE: u32 = 0x3000;

/// The distance from a printable ASCII character other than the space to
/// its full-width form.
pub const FULL_WIDTH_OFFSET: u32 = 0xFEE0;

/// The full-width form of `ch` as the ASCII rule gives it: the ideographic
/// space for the space, else the character `FULL_WIDTH_OFFSET` code points
/// further on. Where no such character exists, `ch` itself.
pub open spec fn full_width_ascii(ch: char) -> char {
    let v: u32 = if ch == ' ' {
        IDEOGRAPHIC_SPACE
    } else {
        (ch as u32 + FULL_WIDTH_OFFSET) as u32
    };
    if is_scalar_value(v) {
        v as char
    } else {
        ch
    }
}

/// The full-width form of `ch` as the katakana rule gives it: the table's
/// base form, stepped on by what the following character `next` asks for.
/// Where the table has no entry, or the step leads to no character, `ch`
/// itself.
pub open spec fn full_width_kana(ch: char, next: Option<char>) -> char {
    match kana_map().get(ch) {
        Some(base) => {
            let v: u32 = (base as u32 + voiced_offset(next)) as u32;
            if is_scalar_value(v) {
                v as char
            } else {
                ch
            }
        },
        None => ch,
    }
}

/// On a character of its class the ASCII rule never falls back: the space
/// gives the ideographic space, and every other printable ASCII character
/// the character `FULL_WIDTH_OFFSET` code points further on.
pub proof fn lemma_full_width_ascii(ch: char)
    requires
        is_printable_ascii(ch as u32),
    ensures
        ch == ' ' ==> full_width_ascii(ch) as u32 == IDEOGRAPHIC_SPACE,
        ch != ' ' ==> full_width_ascii(ch) as u32 == ch as u32 + FULL_WIDTH_OFFSET,
{
}

/// On a character of its class the katakana rule never falls back: the
/// table has an entry for it, and the result is the character whose code
/// point is that of the entry plus what the following character asks for.
pub proof fn lemma_full_width_kana(ch: char, next: Option<char>)
    requires
        is_half_width_kana(ch as u32),
    ensures
        kana_map().contains_key(ch),
        full_width_kana(ch, next) as u32 == kana_map()[ch] as u32 + voiced_offset(next),
{
    lemma_keys(ch);
    lemma_values(ch);
}

/// What the conversion puts out for `ch` when `next` follows it: its
/// full-width form where `mode` covers it, nothing for a voiced mark under
/// a mode that covers katakana, and `ch` itself otherwise. The ASCII rule
/// is asked first, so it decides for the space.
pub open spec fn emitted(ch: char, next: Option<char>, mode: ConvertMode) -> Option<char> {
    let v: u32 = ch as u32;
    if mode.converts_ascii() && is_printable_ascii(v) {
        Some(full_width_ascii(ch))
    } else if mode.converts_kana() && is_half_width_kana(v) {
        Some(full_width_kana(ch, next))
    } else if mode.converts_kana() && is_voiced_mark(v) {
        None
    } else {
        Some(ch)
    }
}

/// Applies the ASCII rule to `ch`.
pub fn convert_ascii_char(ch: char) -> (r: char)
    ensures
        r == full_width_ascii(ch),
{
    let v: u32 = if ch == ' ' {
        IDEOGRAPHIC_SPACE
    } else {
        ch as u32 + FULL_WIDTH_OFFSET
    };
    char::from_u32(v).unwrap_or(ch)
}

/// Applies the katakana rule to `ch`, which `next_ch` follows in the text.
pub fn convert_kana_char(ch: char, next_ch: Option<char>) -> (r: char)
    ensures
        r == full_width_kana(ch, next_ch),
{
    match lookup(ch) {
        Some(base) => char::from_u32(base as u32 + check_voiced(next_ch)).unwrap_or(ch),
        None => ch,
    }
}

/// One step of the conversion: what to put out for `ch`, which `next_ch`
/// follows in the text, or `None` where `ch` is to be dropped.
pub fn convert_char(ch: char, next_ch: Option<char>, mode: ConvertMode) -> (r: Option<char>)
    ensures
        r == emitted(ch, next_ch, mode),
{
    let code_point: u32 = ch as u32;
    if mode.changes_ascii() && ascii_check(code_point) {
        Some(convert_ascii_char(ch))
    } else if mode.changes_kana() && hw_kana_check(code_point) {
        Some(convert_kana_char(ch, next_ch))
    } else if !mode.changes_kana() || !dakuten_check(code_point) {
        Some(ch)
    } else {
        None
    }
}

} // verus!
