//! What holds of the conversion as a whole, proved from its definition.

use vstd::prelude::*;

use crate::classes::{
    is_half_width, is_half_width_kana, is_printable_ascii, is_voiced_mark, voiced_offset,
    SEMI_VOICED_MARK, VOICED_MARK,
};
use crate::convert::{converted_prefix, full_width, lookahead};
use crate::mode::ConvertMode;
use crate::single::{
    emitted, full_width_ascii, lemma_full_width_ascii, lemma_full_width_kana, FULL_WIDTH_OFFSET,
    IDEOGRAPHIC_SPACE,
};
use crate::table::{kana_map, lemma_keys, lemma_paired, lemma_values};

verus! {

/// The half-width katakana of the ka, sa, ta and ha rows: those whose
/// voiced form stands right after the plain form in Unicode.
pub const VOICEABLE_ROW: [char; 20] = [
    'ｶ', 'ｷ', 'ｸ', 'ｹ', 'ｺ',
    'ｻ', 'ｼ', 'ｽ', 'ｾ', 'ｿ',
    'ﾀ', 'ﾁ', 'ﾂ', 'ﾃ', 'ﾄ',
    'ﾊ', 'ﾋ', 'ﾌ', 'ﾍ', 'ﾎ',
];

/// The full-width voiced forms, each at the position of its half-width
/// base in `VOICEABLE_ROW`.
pub const VOICED_ROW: [char; 20] = [
    'ガ', 'ギ', 'グ', 'ゲ', 'ゴ',
    'ザ', 'ジ', 'ズ', 'ゼ', 'ゾ',
    'ダ', 'ヂ', 'ヅ', 'デ', 'ド',
    'バ', 'ビ', 'ブ', 'ベ', 'ボ',
];

/// The half-width katakana of the ha row: those that have a semi-voiced
/// form, which stands two code points after the plain form in Unicode.
pub const SEMI_VOICEABLE_ROW: [char; 5] = ['ﾊ', 'ﾋ', 'ﾌ', 'ﾍ', 'ﾎ'];

/// The full-width semi-voiced forms, each at the position of its
/// half-width base in `SEMI_VOICEABLE_ROW`.
pub const SEMI_VOICED_ROW: [char; 5] = ['パ', 'ピ', 'プ', 'ペ', 'ポ'];

/// An empty text converts to an empty text, whatever the mode.
pub proof fn lemma_empty(mode: ConvertMode)
    ensures
        full_width(Seq::<char>::empty(), mode) == Seq::<char>::empty(),
{
}

/// A text of one character converts to what is put out for that character
/// when nothing follows it.
pub proof fn lemma_single(ch: char, mode: ConvertMode)
    ensures
        full_width(seq![ch], mode) == (match emitted(ch, None, mode) {
            Some(c) => seq![c],
            None => Seq::<char>::empty(),
        }),
{
    reveal_with_fuel(converted_prefix, 2);
    let s = seq![ch];
    assert(lookahead(s, 0) == None::<char>);
}

/// A half-width katakana of the table, alone, converts to exactly the
/// character that the table maps it to, under every mode that covers
/// katakana.
pub proof fn lemma_single_kana(k: char, mode: ConvertMode)
    requires
        kana_map().contains_key(k),
        mode.converts_kana(),
    ensures
        full_width(seq![k], mode) == seq![kana_map()[k]],
{
    lemma_keys(k);
    lemma_full_width_kana(k, None);
    lemma_full_width_ascii(' ');
    lemma_single(k, mode);
}

/// A printable ASCII character, alone, converts to the character
/// `FULL_WIDTH_OFFSET` code points further on, and the space to the
/// ideographic space, under every mode that covers ASCII.
pub proof fn lemma_single_ascii(c: char, mode: ConvertMode)
    requires
        is_printable_ascii(c as u32),
        mode.converts_ascii(),
    ensures
        full_width(seq![c], mode) == seq![full_width_ascii(c)],
        c == ' ' ==> full_width_ascii(c) as u32 == IDEOGRAPHIC_SPACE,
        c != ' ' ==> full_width_ascii(c) as u32 == c as u32 + FULL_WIDTH_OFFSET,
{
    lemma_full_width_ascii(c);
    lemma_single(c, mode);
}

/// The space becomes the ideographic space under every mode. The one
/// exception is a space right before a voiced mark under the mode that
/// covers katakana alone, where the katakana rule steps on from it.
pub proof fn lemma_space(next: Option<char>, mode: ConvertMode)
    requires
        mode.converts_ascii() || voiced_offset(next) == 0,
    ensures
        emitted(' ', next, mode) matches Some(c) && c as u32 == IDEOGRAPHIC_SPACE,
{
    lemma_full_width_ascii(' ');
    lemma_full_width_kana(' ', next);
    lemma_paired(0);
}

/// A voiced mark with nothing before it is dropped under every mode that
/// covers katakana, and kept under the mode that does not.
pub proof fn lemma_orphaned_mark(mark: char, mode: ConvertMode)
    requires
        is_voiced_mark(mark as u32),
    ensures
        full_width(seq![mark], mode) == (if mode.converts_kana() {
            Seq::<char>::empty()
        } else {
            seq![mark]
        }),
{
    lemma_single(mark, mode);
}

/// A text of two characters, the second a voiced mark, converts under a
/// mode that covers katakana to the one character put out for the first
/// when the mark follows it.
pub proof fn lemma_pair(ch: char, mark: char, mode: ConvertMode)
    requires
        is_voiced_mark(mark as u32),
        mode.converts_kana(),
    ensures
        full_width(seq![ch, mark], mode) == (match emitted(ch, Some(mark), mode) {
            Some(c) => seq![c],
            None => Seq::<char>::empty(),
        }),
{
    reveal_with_fuel(converted_prefix, 3);
    let s = seq![ch, mark];
    assert(lookahead(s, 0) == Some(mark));
    assert(lookahead(s, 1) == None::<char>);
}

/// A half-width katakana of `VOICEABLE_ROW`, followed by the voiced mark,
/// converts to the one full-width voiced character: the output is one
/// character shorter than the input.
pub proof fn lemma_voiced_pair(i: int, mode: ConvertMode)
    requires
        0 <= i < 20,
        mode.converts_kana(),
    ensures
        full_width(seq![VOICEABLE_ROW@[i], VOICED_MARK], mode) == seq![VOICED_ROW@[i]],
        full_width(seq![VOICEABLE_ROW@[i], VOICED_MARK], mode).len() == 1,
{
    let k = VOICEABLE_ROW@[i];
    lemma_full_width_kana(k, Some(VOICED_MARK));
    lemma_pair(k, VOICED_MARK, mode);
    assert(kana_map()[k] as u32 + 1 == VOICED_ROW@[i] as u32);
}

/// A half-width katakana of `SEMI_VOICEABLE_ROW`, followed by the
/// semi-voiced mark, converts to the one full-width semi-voiced character:
/// the output is one character shorter than the input.
pub proof fn lemma_semi_voiced_pair(i: int, mode: ConvertMode)
    requires
        0 <= i < 5,
        mode.converts_kana(),
    ensures
        full_width(seq![SEMI_VOICEABLE_ROW@[i], SEMI_VOICED_MARK], mode) == seq![
            SEMI_VOICED_ROW@[i],
        ],
        full_width(seq![SEMI_VOICEABLE_ROW@[i], SEMI_VOICED_MARK], mode).len() == 1,
{
    let k = SEMI_VOICEABLE_ROW@[i];
    lemma_full_width_kana(k, Some(SEMI_VOICED_MARK));
    lemma_pair(k, SEMI_VOICED_MARK, mode);
    assert(kana_map()[k] as u32 + 2 == SEMI_VOICED_ROW@[i] as u32);
}

/// Whatever is put out for a character, `mode` does not cover it: what the
/// two rules produce lies outside the half-width classes.
pub proof fn lemma_emitted_not_covered(ch: char, next: Option<char>, mode: ConvertMode)
    ensures
        emitted(ch, next, mode) matches Some(c) ==> !mode.covers(c),
{
    if is_printable_ascii(ch as u32) {
        lemma_full_width_ascii(ch);
    }
    if is_half_width_kana(ch as u32) {
        lemma_full_width_kana(ch, next);
        lemma_values(ch);
    }
}

/// No character of a converted text is one that `mode` covers.
pub proof fn lemma_output_not_covered(s: Seq<char>, mode: ConvertMode)
    ensures
        forall|j: int|
            0 <= j < full_width(s, mode).len() ==> !mode.covers(#[trigger] full_width(s, mode)[j]),
{
    lemma_prefix_not_covered(s, mode, s.len() as int);
}

proof fn lemma_prefix_not_covered(s: Seq<char>, mode: ConvertMode, n: int)
    requires
        0 <= n <= s.len(),
    ensures
        forall|j: int|
            0 <= j < converted_prefix(s, mode, n).len() ==> !mode.covers(
                #[trigger] converted_prefix(s, mode, n)[j],
            ),
    decreases n,
{
    if n > 0 {
        let done = converted_prefix(s, mode, n - 1);
        lemma_prefix_not_covered(s, mode, n - 1);
        lemma_emitted_not_covered(s[n - 1], lookahead(s, n - 1), mode);
        assert forall|j: int| 0 <= j < converted_prefix(s, mode, n).len() implies !mode.covers(
            #[trigger] converted_prefix(s, mode, n)[j],
        ) by {
            if j < done.len() {
                assert(converted_prefix(s, mode, n)[j] == done[j]);
            }
        }
    }
}

/// A text in which `mode` covers no character converts to itself.
pub proof fn lemma_untouched(s: Seq<char>, mode: ConvertMode)
    requires
        forall|i: int| 0 <= i < s.len() ==> !mode.covers(#[trigger] s[i]),
    ensures
        full_width(s, mode) == s,
{
    lemma_prefix_untouched(s, mode, s.len() as int);
}

proof fn lemma_prefix_untouched(s: Seq<char>, mode: ConvertMode, n: int)
    requires
        0 <= n <= s.len(),
        forall|i: int| 0 <= i < s.len() ==> !mode.covers(#[trigger] s[i]),
    ensures
        converted_prefix(s, mode, n) == s.take(n),
    decreases n,
{
    if n > 0 {
        lemma_prefix_untouched(s, mode, n - 1);
        assert(!mode.covers(s[n - 1]));
        assert(s.take(n - 1).push(s[n - 1]) =~= s.take(n));
    }
}

/// A text that is full-width already, with no character of a half-width
/// class in it, converts to itself under every mode.
pub proof fn lemma_full_width_text(s: Seq<char>, mode: ConvertMode)
    requires
        forall|i: int| 0 <= i < s.len() ==> !is_half_width(#[trigger] s[i] as u32),
    ensures
        full_width(s, mode) == s,
{
    assert forall|i: int| 0 <= i < s.len() implies !mode.covers(#[trigger] s[i]) by {
        assert(!is_half_width(s[i] as u32));
    }
    lemma_untouched(s, mode);
}

/// To convert a second time changes nothing, whether under the same mode
/// or under one that covers no more than the first did.
pub proof fn lemma_idempotent(s: Seq<char>, first: ConvertMode, second: ConvertMode)
    requires
        second.converts_ascii() ==> first.converts_ascii(),
        second.converts_kana() ==> first.converts_kana(),
    ensures
        full_width(full_width(s, first), second) == full_width(s, first),
{
    lemma_output_not_covered(s, first);
    lemma_untouched(full_width(s, first), second);
}

/// The output has one character for each character of the input, but none
/// for a voiced mark under a mode that covers katakana. So it is never
/// longer than the input, and shorter only by the marks.
pub proof fn lemma_length(s: Seq<char>, mode: ConvertMode)
    ensures
        full_width(s, mode).len() <= s.len(),
        mode.converts_kana() ==> full_width(s, mode).len() == s.len() - s.filter(
            |c: char| is_voiced_mark(c as u32),
        ).len(),
        !mode.converts_kana() ==> full_width(s, mode).len() == s.len(),
{
    lemma_prefix_length(s, mode, s.len() as int);
    assert(s.take(s.len() as int) =~= s);
}

proof fn lemma_prefix_length(s: Seq<char>, mode: ConvertMode, n: int)
    requires
        0 <= n <= s.len(),
    ensures
        converted_prefix(s, mode, n).len() <= n,
        mode.converts_kana() ==> converted_prefix(s, mode, n).len() == n - s.take(n).filter(
            |c: char| is_voiced_mark(c as u32),
        ).len(),
        !mode.converts_kana() ==> converted_prefix(s, mode, n).len() == n,
    decreases n,
{
    let is_mark = |c: char| is_voiced_mark(c as u32);
    reveal(Seq::filter);
    if n > 0 {
        lemma_prefix_length(s, mode, n - 1);
        assert(s.take(n).drop_last() =~= s.take(n - 1));
        assert(s.take(n).last() == s[n - 1]);
        assert(is_mark(s[n - 1]) == is_voiced_mark(s[n - 1] as u32));
    } else {
        assert(s.take(0).len() == 0);
    }
}

/// What is put out for the characters after a cut does not depend on what
/// stands before the cut: the conversion looks ahead, never back.
pub proof fn lemma_split(a: Seq<char>, b: Seq<char>, mode: ConvertMode)
    ensures
        full_width(a + b, mode) == converted_prefix(a + b, mode, a.len() as int) + full_width(
            b,
            mode,
        ),
{
    lemma_split_prefix(a, b, mode, b.len() as int);
}

proof fn lemma_split_prefix(a: Seq<char>, b: Seq<char>, mode: ConvertMode, n: int)
    requires
        0 <= n <= b.len(),
    ensures
        converted_prefix(a + b, mode, a.len() + n) == converted_prefix(
            a + b,
            mode,
            a.len() as int,
        ) + converted_prefix(b, mode, n),
    decreases n,
{
    if n > 0 {
        lemma_split_prefix(a, b, mode, n - 1);
        assert((a + b)[a.len() + n - 1] == b[n - 1]);
        assert(lookahead(a + b, a.len() + n - 1) == lookahead(b, n - 1));
    }
}

/// A text may be converted in two pieces, as long as it is not cut right
/// before a voiced mark: the conversion of the whole is the conversion of
/// the first piece followed by that of the second.
pub proof fn lemma_concat(a: Seq<char>, b: Seq<char>, mode: ConvertMode)
    requires
        b.len() > 0 ==> !is_voiced_mark(b[0] as u32),
    ensures
        full_width(a + b, mode) == full_width(a, mode) + full_width(b, mode),
{
    lemma_split(a, b, mode);
    lemma_concat_prefix(a, b, mode, a.len() as int);
}

proof fn lemma_concat_prefix(a: Seq<char>, b: Seq<char>, mode: ConvertMode, n: int)
    requires
        b.len() > 0 ==> !is_voiced_mark(b[0] as u32),
        0 <= n <= a.len(),
    ensures
        converted_prefix(a + b, mode, n) == converted_prefix(a, mode, n),
    decreases n,
{
    if n > 0 {
        lemma_concat_prefix(a, b, mode, n - 1);
        assert((a + b)[n - 1] == a[n - 1]);
        assert(voiced_offset(lookahead(a + b, n - 1)) == voiced_offset(lookahead(a, n - 1)));
    }
}

} // verus!
