//! The table that pairs each half-width katakana character with its
//! full-width base form.

use vstd::prelude::*;

use crate::classes::is_half_width_kana;

verus! {

/// The number of entries in the table.
pub const TABLE_LEN: usize = 62;

/// The half-width side of the table.
pub const HALF_WIDTH_ROW: [char; 62] = [
    ' ', '｡', '｢', '｣', '､', '･', 'ｰ',
    'ｱ', 'ｲ', 'ｳ', 'ｴ', 'ｵ',
    'ｶ', 'ｷ', 'ｸ', 'ｹ', 'ｺ',
    'ｻ', 'ｼ', 'ｽ', 'ｾ', 'ｿ',
    'ﾀ', 'ﾁ', 'ﾂ', 'ﾃ', 'ﾄ',
    'ﾅ', 'ﾆ', 'ﾇ', 'ﾈ', 'ﾉ',
    'ﾊ', 'ﾋ', 'ﾌ', 'ﾍ', 'ﾎ',
    'ﾏ', 'ﾐ', 'ﾑ', 'ﾒ', 'ﾓ',
    'ﾔ', 'ﾕ', 'ﾖ',
    'ﾗ', 'ﾘ', 'ﾙ', 'ﾚ', 'ﾛ',
    'ﾜ', 'ｦ',
    'ﾝ',
    'ｧ', 'ｨ', 'ｩ', 'ｪ', 'ｫ',
    'ｬ', 'ｭ', 'ｮ',
    'ｯ',
];

/// The full-width side of the table.
pub const FULL_WIDTH_ROW: [char; 62] = [
    '　', '。', '「', '」', '、', '・', 'ー',
    'ア', 'イ', 'ウ', 'エ', 'オ',
    'カ', 'キ', 'ク', 'ケ', 'コ',
    'サ', 'シ', 'ス', 'セ', 'ソ',
    'タ', 'チ', 'ツ', 'テ', 'ト',
    'ナ', 'ニ', 'ヌ', 'ネ', 'ノ',
    'ハ', 'ヒ', 'フ', 'ヘ', 'ホ',
    'マ', 'ミ', 'ム', 'メ', 'モ',
    'ヤ', 'ユ', 'ヨ',
    'ラ', 'リ', 'ル', 'レ', 'ロ',
    'ワ', 'ヲ',
    'ン',
    'ァ', 'ィ', 'ゥ', 'ェ', 'ォ',
    'ャ', 'ュ', 'ョ',
    'ッ',
];

/// The table as a map: each character of the half-width row is a key, and
/// its value is the character at the same position of the full-width row.
/// A character that the half-width row does not hold is no key.
pub open spec fn kana_map() -> Map<char, char> {
    Map::new(
        |k: char| HALF_WIDTH_ROW@.contains(k),
        |k: char| FULL_WIDTH_ROW@[HALF_WIDTH_ROW@.index_of(k)],
    )
}

/// No character stands twice in the half-width row, so the position of a
/// key, and with it the value, is determined.
pub proof fn lemma_half_width_row_distinct()
    ensures
        HALF_WIDTH_ROW@.no_duplicates(),
{
}

/// The character at position `i` of the half-width row maps to the
/// character at position `i` of the full-width row.
pub proof fn lemma_paired(i: int)
    requires
        0 <= i < TABLE_LEN,
    ensures
        kana_map().get(HALF_WIDTH_ROW@[i]) == Some(FULL_WIDTH_ROW@[i]),
{
    lemma_half_width_row_distinct();
    let k = HALF_WIDTH_ROW@[i];
    assert(HALF_WIDTH_ROW@.contains(k));
    let j = HALF_WIDTH_ROW@.index_of(k);
    assert(0 <= j < HALF_WIDTH_ROW@.len() && HALF_WIDTH_ROW@[j] == k);
    assert(j == i);
}

/// Where the half-width row holds the character with code point `v`.
spec fn row_position(v: u32) -> int {
    if v == 0x0020 {
        0
    } else if v <= 0xFF65 {
        v - 0xFF60
    } else if v == 0xFF66 {
        51
    } else if v <= 0xFF6F {
        v - 0xFF67 + 53
    } else if v == 0xFF70 {
        6
    } else if v <= 0xFF9C {
        v - 0xFF71 + 7
    } else {
        52
    }
}

/// The keys of the table are the half-width space and the code points
/// U+FF61 through U+FF9D, all of them: a character of that class is never
/// looked up in vain.
pub proof fn lemma_keys(ch: char)
    ensures
        kana_map().contains_key(ch) <==> is_half_width_kana(ch as u32),
{
    if is_half_width_kana(ch as u32) {
        let i = row_position(ch as u32);
        assert(HALF_WIDTH_ROW@[i] == ch);
    }
}

/// Every value of the table lies in U+3000 through U+30FC. So the two
/// code points after a value are Unicode scalar values too: stepping from
/// a base to its voiced or semi-voiced form always gives a character.
pub proof fn lemma_values(ch: char)
    requires
        kana_map().contains_key(ch),
    ensures
        0x3000 <= kana_map()[ch] as u32 <= 0x30FC,
{
    let i = HALF_WIDTH_ROW@.index_of(ch);
    assert(0 <= i < TABLE_LEN);
    assert(forall|j: int|
        0 <= j < TABLE_LEN ==> 0x3000 <= #[trigger] FULL_WIDTH_ROW@[j] as u32 <= 0x30FC);
}

/// Looks `ch` up in the table: its full-width base form, or `None` where
/// the table has no entry for it.
pub fn lookup(ch: char) -> (r: Option<char>)
    ensures
        r == kana_map().get(ch),
{
    let mut i: usize = 0;
    while i < TABLE_LEN
        invariant
            i <= TABLE_LEN,
            forall|j: int| 0 <= j < i ==> HALF_WIDTH_ROW@[j] != ch,
        decreases TABLE_LEN - i,
    {
        if HALF_WIDTH_ROW[i] == ch {
            proof {
                lemma_paired(i as int);
            }
            return Some(FULL_WIDTH_ROW[i]);
        }
        i += 1;
    }
    None
}

} // verus!
