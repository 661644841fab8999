use kanji_master::dictionary::{to_dto, Database, Kanji, KanjiRow};

fn sample_row() -> KanjiRow {
    KanjiRow {
        id: 7,
        kanji: "語".to_string(),
        strokes: 14,
        jlpt: "N5".to_string(),
        grade: "2".to_string(),
        frequency: "301".to_string(),
        unicode: "8A9E".to_string(),
        onyomi: Some("ゴ".to_string()),
        onyomi_romaji: Some("go".to_string()),
        kunyomi: Some(" かた.る  かた.らう ".to_string()),
        kunyomi_romaji: None,
    }
}

#[test]
fn readings_are_joined_with_japanese_comma() {
    let db = Database::new("db/core.db");
    assert_eq!(db.path(), "db/core.db");
    assert_eq!(db.split_on_or_kun("ニチ ジツ"), "ニチ、ジツ");
    assert_eq!(db.split_on_or_kun("  ひ\tか\n"), "ひ、か");
    assert_eq!(db.split_on_or_kun("   "), "");
    assert_eq!(db.split_on_or_kun(""), "");
    assert_eq!(db.split_on_or_kun("ひと"), "ひと");
}

#[test]
fn romaji_readings_are_joined_with_comma_and_space() {
    let db = Database::new("x");
    assert_eq!(db.split_romaji("nichi jitsu"), "nichi, jitsu");
    assert_eq!(db.split_romaji(" hi  ka "), "hi, ka");
    assert_eq!(db.split_romaji("\u{3000}"), "");
}

#[test]
fn formatting_kana_readings_twice_changes_nothing() {
    let db = Database::new("x");
    for s in ["ニチ ジツ", "  ひ\tか\n", "", "a b  c"] {
        let once = db.split_on_or_kun(s);
        assert_eq!(db.split_on_or_kun(&once), once);
    }
}

#[test]
fn a_row_becomes_a_kanji_without_examples() {
    let db = Database::new("x");
    let k: Kanji = db.row_to_kanji(sample_row());
    assert_eq!(k.id, 7);
    assert_eq!(k.kanji, "語");
    assert_eq!(k.onyomi, "ゴ");
    assert_eq!(k.onyomi_romaji, "go");
    assert_eq!(k.kunyomi, "かた.る、かた.らう");
    assert_eq!(k.kunyomi_romaji, "");
    assert!(k.example.is_empty());
}

#[test]
fn dto_copies_every_field_and_the_meaning() {
    let db = Database::new("x");
    let mut k = db.row_to_kanji(sample_row());
    k.example = vec!["言語".to_string(), "英語".to_string()];
    let dto = to_dto(&k, Some("word".to_string()));
    assert_eq!(dto.id, 7);
    assert_eq!(dto.kanji, "語");
    assert_eq!(dto.strokes, 14);
    assert_eq!(dto.unicode, "8A9E");
    assert_eq!(dto.kunyomi, "かた.る、かた.らう");
    assert_eq!(dto.examples, vec!["言語".to_string(), "英語".to_string()]);
    assert_eq!(dto.meaning.as_deref(), Some("word"));
    assert_eq!(to_dto(&k, None).meaning, None);
}

fn row(id: i32, ch: &str, on: Option<&str>) -> KanjiRow {
    KanjiRow {
        id,
        kanji: ch.to_string(),
        strokes: 1,
        jlpt: "N5".to_string(),
        grade: String::new(),
        frequency: String::new(),
        unicode: String::new(),
        onyomi: on.map(|s| s.to_string()),
        onyomi_romaji: None,
        kunyomi: None,
        kunyomi_romaji: None,
    }
}

#[test]
fn query_rows_become_one_sorted_record_per_kanji() {
    let db = Database::new("x");
    let rows = vec![
        row(2, "語", Some("ゴ")),
        row(1, "日", Some("ニチ ジツ")),
        row(2, "語", Some("ギョ")),
        row(3, "一", None),
    ];
    let examples = vec![
        (1, "日本 毎日".to_string()),
        (2, "英語".to_string()),
        (1, " 日曜日 ".to_string()),
        (9, "orphan".to_string()),
    ];
    let ks = db.assemble_kanji(rows, &examples);
    let chars: Vec<&str> = ks.iter().map(|k| k.kanji.as_str()).collect();
    assert_eq!(chars, vec!["一", "日", "語"]);
    assert_eq!(ks[0].onyomi, "");
    assert!(ks[0].example.is_empty());
    assert_eq!(ks[1].onyomi, "ニチ、ジツ");
    assert_eq!(ks[1].example, vec!["日本", "毎日", "日曜日"]);
    // The last row of an id wins.
    assert_eq!(ks[2].onyomi, "ギョ");
    assert_eq!(ks[2].example, vec!["英語"]);
}

#[test]
fn no_rows_give_no_kanji() {
    let db = Database::new("x");
    assert!(db.assemble_kanji(Vec::new(), &vec![(1, "a".to_string())]).is_empty());
}
