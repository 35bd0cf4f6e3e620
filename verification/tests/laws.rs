use kana_converter::laws::{SEMI_VOICEABLE_ROW, SEMI_VOICED_ROW, VOICEABLE_ROW, VOICED_ROW};
use kana_converter::table::{FULL_WIDTH_ROW, HALF_WIDTH_ROW};
use kana_converter::{to_double_byte, AsciiOnly, ConvertMode, KanaAndAscii, KanaOnly};

fn modes() -> Vec<ConvertMode> {
    vec![KanaOnly, AsciiOnly, KanaAndAscii]
}

fn samples() -> Vec<&'static str> {
    vec![
        "",
        " ",
        "ﾞ",
        " ﾞ",
        "ｶﾞｷﾞｸﾞｹﾞｺﾞｶｷｸｹｺｰ LATIN01234-!@#$%カタカナひらがな漢字",
        "ｼﾝｸﾞﾙﾊﾞｲﾄｶﾅ ASCII ダブルバイトカナ　ひらがな　漢字",
        "ﾊﾟﾋﾟﾌﾟﾍﾟﾎﾟ",
        "ｱﾞｳﾞｶﾟ",
        "Aﾞ ﾟB",
        "ﾞﾞﾞ",
        "~ｰ~",
        "🙂 ok ｵｰｹｰ",
    ]
}

fn is_voiced_mark(c: char) -> bool {
    c == 'ﾞ' || c == 'ﾟ'
}

fn is_printable_ascii(c: char) -> bool {
    (c as u32) >= 0x20 && (c as u32) <= 0x7E
}

fn is_half_width_kana(c: char) -> bool {
    c == ' ' || ((c as u32) >= 0xFF61 && (c as u32) <= 0xFF9D)
}

#[test]
fn single_kana_gives_its_table_entry() {
    for i in 0..HALF_WIDTH_ROW.len() {
        let input = HALF_WIDTH_ROW[i].to_string();
        let expected = FULL_WIDTH_ROW[i].to_string();
        assert_eq!(to_double_byte(&input, KanaOnly), expected);
        assert_eq!(to_double_byte(&input, KanaAndAscii), expected);
    }
}

#[test]
fn single_kana_is_kept_where_kana_is_not_covered() {
    for i in 1..HALF_WIDTH_ROW.len() {
        let input = HALF_WIDTH_ROW[i].to_string();
        assert_eq!(to_double_byte(&input, AsciiOnly), input);
    }
}

#[test]
fn voiced_pairs_merge_into_one_character() {
    assert_eq!(VOICEABLE_ROW.len(), VOICED_ROW.len());
    for i in 0..VOICEABLE_ROW.len() {
        let input = format!("{}{}", VOICEABLE_ROW[i], 'ﾞ');
        let expected = VOICED_ROW[i].to_string();
        for mode in vec![KanaOnly, KanaAndAscii] {
            let out = to_double_byte(&input, mode);
            assert_eq!(out, expected);
            assert_eq!(out.chars().count(), input.chars().count() - 1);
        }
        assert_eq!(to_double_byte(&input, AsciiOnly), input);
    }
}

#[test]
fn semi_voiced_pairs_merge_into_one_character() {
    assert_eq!(SEMI_VOICEABLE_ROW.len(), SEMI_VOICED_ROW.len());
    for i in 0..SEMI_VOICEABLE_ROW.len() {
        let input = format!("{}{}", SEMI_VOICEABLE_ROW[i], 'ﾟ');
        let expected = SEMI_VOICED_ROW[i].to_string();
        for mode in vec![KanaOnly, KanaAndAscii] {
            let out = to_double_byte(&input, mode);
            assert_eq!(out, expected);
            assert_eq!(out.chars().count(), 1);
        }
        assert_eq!(to_double_byte(&input, AsciiOnly), input);
    }
}

#[test]
fn voiced_forms_by_name() {
    assert_eq!(to_double_byte("ｶﾞ", KanaOnly), "ガ");
    assert_eq!(to_double_byte("ｿﾞ", KanaOnly), "ゾ");
    assert_eq!(to_double_byte("ﾂﾞ", KanaOnly), "ヅ");
    assert_eq!(to_double_byte("ﾎﾞ", KanaOnly), "ボ");
    assert_eq!(to_double_byte("ﾊﾟ", KanaOnly), "パ");
    assert_eq!(to_double_byte("ﾎﾟ", KanaOnly), "ポ");
}

#[test]
fn single_ascii_is_shifted_by_the_offset() {
    for v in 0x21u32..=0x7E {
        let c = char::from_u32(v).unwrap();
        let expected = char::from_u32(v + 0xFEE0).unwrap().to_string();
        assert_eq!(to_double_byte(&c.to_string(), AsciiOnly), expected);
        assert_eq!(to_double_byte(&c.to_string(), KanaAndAscii), expected);
        assert_eq!(to_double_byte(&c.to_string(), KanaOnly), c.to_string());
    }
    assert_eq!(to_double_byte(" ", AsciiOnly), "\u{3000}");
}

#[test]
fn converting_twice_changes_nothing() {
    for text in samples() {
        for mode in modes() {
            let once = to_double_byte(text, mode);
            let twice = to_double_byte(&once, mode);
            assert_eq!(twice, once);
        }
    }
}

#[test]
fn after_both_classes_no_mode_changes_anything() {
    for text in samples() {
        let once = to_double_byte(text, KanaAndAscii);
        for mode in modes() {
            assert_eq!(to_double_byte(&once, mode), once);
        }
    }
}

#[test]
fn output_holds_nothing_that_the_mode_covers() {
    for text in samples() {
        for c in to_double_byte(text, KanaOnly).chars() {
            assert!(!is_half_width_kana(c) && !is_voiced_mark(c));
        }
        for c in to_double_byte(text, AsciiOnly).chars() {
            assert!(!is_printable_ascii(c));
        }
        for c in to_double_byte(text, KanaAndAscii).chars() {
            assert!(!is_half_width_kana(c) && !is_voiced_mark(c) && !is_printable_ascii(c));
        }
    }
}

#[test]
fn output_is_shorter_by_the_marks_only() {
    for text in samples() {
        let len = text.chars().count();
        let marks = text.chars().filter(|c| is_voiced_mark(*c)).count();
        assert_eq!(to_double_byte(text, KanaOnly).chars().count(), len - marks);
        assert_eq!(to_double_byte(text, KanaAndAscii).chars().count(), len - marks);
        assert_eq!(to_double_byte(text, AsciiOnly).chars().count(), len);
    }
    assert_eq!(to_double_byte("ｶﾞｷﾞｸﾞ", KanaOnly).chars().count(), 3);
    assert_eq!(to_double_byte("ｶﾞｷﾞｸﾞ", AsciiOnly).chars().count(), 6);
}

#[test]
fn pieces_convert_apart_unless_cut_before_a_mark() {
    for first in samples() {
        for second in samples() {
            if second.chars().next().map_or(false, is_voiced_mark) {
                continue;
            }
            let whole = format!("{}{}", first, second);
            for mode in modes() {
                let apart = format!("{}{}", to_double_byte(first, mode), to_double_byte(second, mode));
                assert_eq!(to_double_byte(&whole, mode), apart);
            }
        }
    }
}

#[test]
fn cut_before_a_mark_loses_the_voicing() {
    assert_eq!(to_double_byte("ｶﾞ", KanaOnly), "ガ");
    assert_eq!(
        format!("{}{}", to_double_byte("ｶ", KanaOnly), to_double_byte("ﾞ", KanaOnly)),
        "カ"
    );
}
