//! The selector that says which character classes a conversion rewrites.

use vstd::prelude::*;

use crate::classes::{is_half_width_kana, is_printable_ascii, is_voiced_mark};

verus! {

/// Which characters a conversion rewrites: half-width katakana, printable
/// ASCII, or both.
#[derive(Clone, Copy, PartialEq, Eq, Debug, Structural)]
pub enum ConvertMode {
    /// Rewrite half-width katakana, and drop the voiced marks.
    KanaOnly,
    /// Rewrite printable ASCII.
    AsciiOnly,
    /// Rewrite both.
    KanaAndAscii,
}

impl ConvertMode {
    /// Whether printable ASCII is rewritten under this mode.
    pub open spec fn converts_ascii(self) -> bool {
        self == ConvertMode::AsciiOnly || self == ConvertMode::KanaAndAscii
    }

    /// Whether half-width katakana is rewritten under this mode.
    pub open spec fn converts_kana(self) -> bool {
        self == ConvertMode::KanaOnly || self == ConvertMode::KanaAndAscii
    }

    /// Whether a conversion under this mode touches `ch`: rewrites it, or
    /// drops it as a voiced mark.
    pub open spec fn covers(self, ch: char) -> bool {
        ||| self.converts_ascii() && is_printable_ascii(ch as u32)
        ||| self.converts_kana() && is_half_width_kana(ch as u32)
        ||| self.converts_kana() && is_voiced_mark(ch as u32)
    }

    /// Tells whether printable ASCII is rewritten under this mode.
    pub fn changes_ascii(self) -> (b: bool)
        ensures
            b == self.converts_ascii(),
    {
        self == ConvertMode::AsciiOnly || self == ConvertMode::KanaAndAscii
    }

    /// Tells whether half-width katakana is rewritten under this mode.
    pub fn changes_kana(self) -> (b: bool)
        ensures
            b == self.converts_kana(),
    {
        self == ConvertMode::KanaOnly || self == ConvertMode::KanaAndAscii
    }
}

} // verus!
