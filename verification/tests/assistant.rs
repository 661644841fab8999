use std::sync::Arc;

use kanji_master::assistant::{accept_suggestion, suggestions};
use kanji_master::dictionary::Kanji;

fn kanji(id: i32, ch: &str, jlpt: &str, on: &str, kun: &str) -> Arc<Kanji> {
    Arc::new(Kanji {
        id,
        kanji: ch.to_string(),
        strokes: 4,
        jlpt: jlpt.to_string(),
        grade: String::new(),
        frequency: String::new(),
        unicode: String::new(),
        onyomi: on.to_string(),
        onyomi_romaji: String::new(),
        kunyomi: kun.to_string(),
        kunyomi_romaji: String::new(),
        example: Vec::new(),
    })
}

fn dictionary() -> Vec<Arc<Kanji>> {
    vec![
        kanji(1, "湖", "N3", "コ", "みず.うみ"),
        kanji(2, "瑞", "N1", "ズイ", "みず"),
        kanji(3, "水", "N5", "スイ", "みず"),
        kanji(4, "火", "N5", "カ", "ひ、ほ-"),
        kanji(5, "垂", "N4", "スイ", "た.れる"),
    ]
}

#[test]
fn exact_readings_come_first_then_n5_to_n1() {
    let d = dictionary();
    // 水 (N5) and 瑞 (N1) read みず exactly; 湖 only holds it.
    assert_eq!(suggestions(&d, "みず"), vec![2, 1, 0]);
}

#[test]
fn typed_katakana_matches_kun_readings_and_hiragana_on_readings() {
    let d = dictionary();
    assert_eq!(suggestions(&d, "ミズ"), vec![2, 1, 0]);
    // すい as katakana is スイ: 水 (N5) before 垂 (N4).
    assert_eq!(suggestions(&d, " すい "), vec![2, 4]);
    // Marks inside readings are left out: ほ- reads ほ.
    assert_eq!(suggestions(&d, "ほ"), vec![3]);
    assert_eq!(suggestions(&d, "たれる"), vec![4]);
}

#[test]
fn nothing_typed_suggests_nothing() {
    let d = dictionary();
    assert!(suggestions(&d, "").is_empty());
    assert!(suggestions(&d, "  ").is_empty());
    assert!(suggestions(&d, "ぬ").is_empty());
}

#[test]
fn at_most_thirty_suggestions() {
    let many: Vec<Arc<Kanji>> = (0..40).map(|i| kanji(i, "木", "N5", "モク", "き")).collect();
    let s = suggestions(&many, "き");
    assert_eq!(s.len(), 30);
    assert_eq!(s[0], 0);
    assert_eq!(s[29], 29);
}

#[test]
fn choosing_a_kanji_replaces_the_kana_typed_last() {
    assert_eq!(accept_suggestion("わたしはみず", "水"), "水");
    assert_eq!(accept_suggestion("わたし みず", "水"), "わたし 水");
    assert_eq!(accept_suggestion("日本、みず", "水"), "日本、水");
    assert_eq!(accept_suggestion("", "水"), "水");
}
