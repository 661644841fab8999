use kanji_master::romaji_kana::{get_kana, get_katakana_foreign, hiragana_to_katakana, is_vowel, to_kana};

#[test]
fn basic_vowels_and_rows() {
    assert_eq!(to_kana("aiueo", false, false), "あいうえお");
    assert_eq!(to_kana("kakikukeko", false, false), "かきくけこ");
}

#[test]
fn longest_match_wins_over_shorter_prefixes() {
    assert_eq!(to_kana("sha", false, false), "しゃ");
    assert_eq!(to_kana("xtsu", false, false), "っ");
}

#[test]
fn sokuon_doubles_consonant_into_small_tsu() {
    assert_eq!(to_kana("kitte", false, false), "きって");
    assert_eq!(to_kana("gakkou", false, false), "がっこう");
    assert_eq!(to_kana("aa", false, false), "ああ");
}

#[test]
fn n_apostrophe_forces_syllabic_n_before_a_vowel() {
    assert_eq!(to_kana("kon'ya", false, false), "こんや");
    assert_eq!(to_kana("konya", false, false), "こにゃ");
}

#[test]
fn n_before_consonant_or_end_of_word_becomes_syllabic_n() {
    assert_eq!(to_kana("kanji", false, false), "かんじ");
    assert_eq!(to_kana("hon", false, false), "ほん");
    assert_eq!(to_kana("na", false, false), "な");
}

#[test]
fn trailing_n_stays_literal_while_live_typing() {
    assert_eq!(to_kana("ka n", false, true), "か n");
    assert_eq!(to_kana("kani", false, true), "かに");
}

#[test]
fn long_vowel_and_punctuation_marks() {
    assert_eq!(to_kana("ka-", false, false), "かー");
    assert_eq!(to_kana("ohayou.", false, false), "おはよう。");
    assert_eq!(to_kana("hai,", false, false), "はい、");
}

#[test]
fn katakana_mode_converts_and_supports_foreign_syllables() {
    assert_eq!(to_kana("kohi", true, false), "コヒ");
    assert_eq!(to_kana("fa", true, false), "ファ");
    assert_eq!(to_kana("va", true, false), "ヴァ");
}

#[test]
fn unrecognized_characters_pass_through_unchanged() {
    assert_eq!(to_kana("漢字ka", false, false), "漢字か");
}

#[test]
fn uppercase_romaji_is_case_insensitive() {
    assert_eq!(to_kana("KA", false, false), "か");
    assert_eq!(to_kana("SHA", true, false), "シャ");
}

#[test]
fn live_input_changes_nothing_when_the_input_does_not_end_in_n() {
    for s in ["kanji", "kon'ya", "gakkou", "ka n ", "hon."] {
        assert_eq!(to_kana(s, false, true), to_kana(s, false, false));
        assert_eq!(to_kana(s, true, true), to_kana(s, true, false));
    }
    assert_eq!(to_kana("hon", false, true), "ほn");
    assert_eq!(to_kana("hon", false, false), "ほん");
}

#[test]
fn foreign_syllables_exist_only_in_katakana_mode() {
    assert_eq!(to_kana("fa", false, false), "fあ");
    assert_eq!(get_katakana_foreign("TSA"), Some("ツァ"));
    assert_eq!(get_katakana_foreign("ka"), None);
    assert_eq!(to_kana("thi", true, false), "ティ");
}

#[test]
fn single_keys_and_katakana_pairs() {
    assert_eq!(get_kana("Kya", false), Some("きゃ"));
    assert_eq!(get_kana("kya", true), Some("キャ"));
    assert_eq!(get_kana("xtsu", false), Some("っ"));
    assert_eq!(get_kana("q", false), None);
    assert_eq!(get_kana("kakaka", false), None);
    assert_eq!(hiragana_to_katakana("ぢょ"), "ヂョ");
    assert_eq!(hiragana_to_katakana("漢"), "漢");
    assert_eq!(hiragana_to_katakana("ん"), "ン");
}

#[test]
fn vowels_in_either_case() {
    assert!(is_vowel('a'));
    assert!(is_vowel('O'));
    assert!(!is_vowel('y'));
    assert!(!is_vowel('あ'));
}

#[test]
fn capital_n_is_not_the_syllabic_n_rule() {
    // Only a lowercase `n` takes the n rules; `N` goes through the key table alone.
    assert_eq!(to_kana("KANJI", false, false), "かNじ");
    assert_eq!(to_kana("nn", false, false), "ん");
    assert_eq!(to_kana("wo", true, false), "ヲ");
}
