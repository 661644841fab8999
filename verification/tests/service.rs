use std::sync::Arc;

use kanji_master::dictionary::Kanji;
use kanji_master::service::{dtos_for_ids, kanji_by_char, kanji_list_dtos, meanings_of};
use kanji_master::translation::{KanjiTranslation, TranslationFile};

fn kanji(id: i32, ch: &str) -> Arc<Kanji> {
    Arc::new(Kanji {
        id,
        kanji: ch.to_string(),
        strokes: 4,
        jlpt: "N5".to_string(),
        grade: String::new(),
        frequency: String::new(),
        unicode: String::new(),
        onyomi: String::new(),
        onyomi_romaji: String::new(),
        kunyomi: String::new(),
        kunyomi_romaji: String::new(),
        example: vec!["例".to_string()],
    })
}

fn file() -> TranslationFile {
    let mut f = TranslationFile::new();
    f.entries.insert(
        "水".to_string(),
        KanjiTranslation { meaning: "water".to_string(), translate_examples: vec!["x".to_string()] },
    );
    f.entries.insert(
        "火".to_string(),
        KanjiTranslation { meaning: "fire".to_string(), translate_examples: Vec::new() },
    );
    f
}

#[test]
fn meanings_are_taken_from_the_translation_file() {
    let m = meanings_of(&file());
    assert_eq!(m.get("水").map(|s| s.as_str()), Some("water"));
    assert_eq!(m.get("火").map(|s| s.as_str()), Some("fire"));
    assert!(m.get("木").is_none());
}

#[test]
fn the_kanji_list_carries_known_meanings() {
    let ks = vec![kanji(1, "水"), kanji(2, "木")];
    let dtos = kanji_list_dtos(&ks, &meanings_of(&file()));
    assert_eq!(dtos.len(), 2);
    assert_eq!(dtos[0].kanji, "水");
    assert_eq!(dtos[0].meaning.as_deref(), Some("water"));
    assert_eq!(dtos[0].examples, vec!["例".to_string()]);
    assert_eq!(dtos[1].meaning, None);
}

#[test]
fn a_kanji_is_found_by_its_character() {
    let ks = vec![kanji(1, "水"), kanji(2, "火"), kanji(3, "水")];
    let m = meanings_of(&file());
    assert_eq!(kanji_by_char(&ks, "水", &m).map(|d| d.id), Some(3));
    assert_eq!(kanji_by_char(&ks, "火", &m).and_then(|d| d.meaning), Some("fire".to_string()));
    assert!(kanji_by_char(&ks, "金", &m).is_none());
}

#[test]
fn recognized_ids_map_to_kanji_in_order_skipping_unknown_ones() {
    let ks = vec![kanji(1, "水"), kanji(2, "火")];
    let dtos = dtos_for_ids(&vec![2, 5, 1], &ks, &meanings_of(&file()));
    let ids: Vec<i32> = dtos.iter().map(|d| d.id).collect();
    assert_eq!(ids, vec![2, 1]);
    assert_eq!(dtos[0].meaning.as_deref(), Some("fire"));
}
