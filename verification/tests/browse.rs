use kanji_master::browse::{
    extract_trailing_kana, filter_kanji_list, level_matches, search_home, CardsSetupState, KanjiList,
    KanjiListState, RomajiKanaState, TranslateTabState,
};
use kanji_master::dictionary::Kanji;
use kanji_master::translation::{KanjiTranslation, TranslationEntries};

fn kanji(id: i32, ch: &str, jlpt: &str, on: &str, on_r: &str) -> Kanji {
    Kanji {
        id,
        kanji: ch.to_string(),
        strokes: 4,
        jlpt: jlpt.to_string(),
        grade: String::new(),
        frequency: String::new(),
        unicode: String::new(),
        onyomi: on.to_string(),
        onyomi_romaji: on_r.to_string(),
        kunyomi: String::new(),
        kunyomi_romaji: String::new(),
        example: Vec::new(),
    }
}

fn dictionary() -> Vec<Kanji> {
    vec![
        kanji(1, "水", "N5", "スイ", "sui"),
        kanji(2, "語", "N5", "ゴ", "go"),
        kanji(3, "森", "N4", "シン", "shin"),
    ]
}

fn meanings() -> TranslationEntries {
    let mut t = TranslationEntries::new();
    t.insert(
        "森".to_string(),
        KanjiTranslation { meaning: "Forest".to_string(), translate_examples: Vec::new() },
    );
    t
}

#[test]
fn levels() {
    assert!(level_matches(KanjiList::All, "anything"));
    assert!(level_matches(KanjiList::Jlpt5, "N5"));
    assert!(!level_matches(KanjiList::Jlpt5, "N4"));
    assert!(level_matches(KanjiList::Jlpt1, "N1"));
}

#[test]
fn kanji_list_filters_by_level_and_search() {
    let d = dictionary();
    let m = meanings();
    assert_eq!(filter_kanji_list(&d, KanjiList::All, "", &m), vec![0, 1, 2]);
    assert_eq!(filter_kanji_list(&d, KanjiList::Jlpt5, "  ", &m), vec![0, 1]);
    assert_eq!(filter_kanji_list(&d, KanjiList::All, " SUI ", &m), vec![0]);
    assert_eq!(filter_kanji_list(&d, KanjiList::All, "forest", &m), vec![2]);
    assert_eq!(filter_kanji_list(&d, KanjiList::Jlpt5, "forest", &m), Vec::<usize>::new());
    assert_eq!(filter_kanji_list(&d, KanjiList::All, "語", &m), vec![1]);
}

#[test]
fn home_search_matches_readings_as_typed_and_meanings_lowercased() {
    let d = dictionary();
    let m = meanings();
    assert!(search_home(&d, "", &m).is_empty());
    assert!(search_home(&d, "   ", &m).is_empty());
    assert_eq!(search_home(&d, "sui", &m), vec![0]);
    // Readings are matched as typed, so capitals miss them…
    assert!(search_home(&d, "SUI", &m).is_empty());
    // …while meanings are matched case-insensitively.
    assert_eq!(search_home(&d, "FOREST", &m), vec![2]);
}

#[test]
fn trailing_kana_after_the_last_break() {
    assert_eq!(extract_trailing_kana(""), None);
    assert_eq!(extract_trailing_kana("かな"), Some((0, "かな")));
    assert_eq!(extract_trailing_kana("漢字かな"), Some((6, "かな")));
    assert_eq!(extract_trailing_kana("a b"), Some((2, "b")));
    assert_eq!(extract_trailing_kana("かな。"), None);
    assert_eq!(extract_trailing_kana("ka n"), Some((3, "n")));
}

#[test]
fn tab_state_defaults() {
    let l = KanjiListState::default();
    assert!(l.search_query.is_empty());
    assert_eq!(l.selected_list, KanjiList::All);
    assert!(TranslateTabState::default().jump_search_buffer.is_empty());
    assert_eq!(CardsSetupState::default().card_limit, 10);
    let r = RomajiKanaState::default();
    assert!(r.input.is_empty() && !r.is_katakana);
}
