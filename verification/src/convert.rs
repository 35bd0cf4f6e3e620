//! Conversion of a whole text: one pass from left to right, with one
//! character of lookahead.

use vstd::prelude::*;
use vstd::std_specs::iter::IteratorSpec;

use crate::laws::lemma_length;
use crate::mode::ConvertMode;
use crate::single::{convert_char, emitted};

verus! {

/// The character that follows position `i` of `s`, if there is one.
pub open spec fn lookahead(s: Seq<char>, i: int) -> Option<char> {
    if i + 1 < s.len() {
        Some(s[i + 1])
    } else {
        None
    }
}

/// What the conversion has put out once the first `n` characters of `s`
/// are dealt with: the output for each of them in turn, each seen together
/// with the character that follows it in `s`.
pub open spec fn converted_prefix(s: Seq<char>, mode: ConvertMode, n: int) -> Seq<char>
    decreases n,
{
    if n <= 0 {
        Seq::empty()
    } else {
        let done = converted_prefix(s, mode, n - 1);
        match emitted(s[n - 1], lookahead(s, n - 1), mode) {
            Some(c) => done.push(c),
            None => done,
        }
    }
}

/// The full-width form of the text `s` under `mode`.
pub open spec fn full_width(s: Seq<char>, mode: ConvertMode) -> Seq<char> {
    converted_prefix(s, mode, s.len() as int)
}

/// Converts the half-width katakana and the printable ASCII of `input` to
/// their full-width forms, as far as `mode` covers them, and returns the
/// new text. A base character and the voiced mark after it become one
/// character; every character that `mode` does not cover is kept as it is.
pub fn to_double_byte(input: &str, mode: ConvertMode) -> (out: String)
    ensures
        out@ == full_width(input@, mode),
        out@.len() <= input@.len(),
{
    proof {
        lemma_length(input@, mode);
    }
    let mut out = String::new();
    let mut char_iter = input.chars();
    let mut this_char_elem = char_iter.next();
    let ghost mut done: int = 0;
    loop
        invariant
            0 <= done <= input@.len(),
            this_char_elem == (if done < input@.len() {
                Some(input@[done])
            } else {
                None
            }),
            char_iter.remaining() == (if done < input@.len() {
                input@.skip(done + 1)
            } else {
                Seq::empty()
            }),
            out@ == converted_prefix(input@, mode, done),
        ensures
            out@ == full_width(input@, mode),
        decreases input@.len() - done,
    {
        match this_char_elem {
            Some(ch) => {
                let next_char_elem = char_iter.next();
                match convert_char(ch, next_char_elem, mode) {
                    Some(c) => out.push(c),
                    None => {},
                }
                this_char_elem = next_char_elem;
                proof {
                    done = done + 1;
                }
            },
            None => break,
        }
    }
    out
}

} // verus!
