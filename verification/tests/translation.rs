use kanji_master::dictionary::Kanji;
use kanji_master::localization::TranslateToKanji;
use kanji_master::text_map::TextMap;
use kanji_master::translation::{
    example_translations, jump_matches, meaning_text, KanjiTranslation, MessageTranslationData, SaveOutcome, TranslateState,
    TranslationFile,
};
use std::sync::Arc;

fn kanji(id: i32, ch: &str, examples: &[&str]) -> Kanji {
    Kanji {
        id,
        kanji: ch.to_string(),
        strokes: 4,
        jlpt: "N5".to_string(),
        grade: String::new(),
        frequency: String::new(),
        unicode: String::new(),
        onyomi: String::new(),
        onyomi_romaji: String::new(),
        kunyomi: String::new(),
        kunyomi_romaji: String::new(),
        example: examples.iter().map(|s| s.to_string()).collect(),
    }
}

fn translation(meaning: &str, examples: &[&str]) -> KanjiTranslation {
    KanjiTranslation {
        meaning: meaning.to_string(),
        translate_examples: examples.iter().map(|s| s.to_string()).collect(),
    }
}

#[test]
fn default_messages_are_english() {
    let m = MessageTranslationData::default();
    assert_eq!(m.file_load_success, "File loaded successfully");
    assert_eq!(m.file_not_found_or_invalid, "File not found or invalid");
    assert_eq!(m.saved_at_id, "Saved at ID");
    assert_eq!(m.error_searialize_json, "Error serializing JSON");
    assert_eq!(m.error_create_file, "Error creating file");
    let s = TranslateState::default();
    assert_eq!(s.path(), "");
    assert_eq!(s.current_index, 0);
}

#[test]
fn text_map_insert_replaces_and_get_finds() {
    let mut m: TextMap<String> = TextMap::new();
    assert!(m.get("a").is_none());
    m.insert("a".to_string(), "1".to_string());
    m.insert("b".to_string(), "2".to_string());
    m.insert("a".to_string(), "3".to_string());
    assert_eq!(m.get("a").map(|s| s.as_str()), Some("3"));
    assert_eq!(m.get("b").map(|s| s.as_str()), Some("2"));
    assert_eq!(m.pairs().len(), 2);
}

#[test]
fn sync_fills_buffers_and_pads_examples() {
    let mut s = TranslateState::new("tr.json", MessageTranslationData::default());
    assert_eq!(s.path(), "tr.json");
    let mut file = TranslationFile::new();
    file.entries.insert("水".to_string(), translation("water", &["drinking water"]));
    assert!(s.finish_load("tr.json", Some(file)));
    assert_eq!(s.status_message, "File loaded successfully");
    s.sync_translation_buffers(&kanji(1, "水", &["飲み水", "水道", "水曜"]));
    assert_eq!(s.meaning_buffer, "water");
    assert_eq!(s.examples_buffer, vec!["drinking water".to_string(), String::new(), String::new()]);
    s.sync_translation_buffers(&kanji(2, "火", &["火山"]));
    assert_eq!(s.meaning_buffer, "");
    assert_eq!(s.examples_buffer, vec![String::new()]);
}

#[test]
fn a_failed_load_keeps_the_data() {
    let mut s = TranslateState::new("a.json", MessageTranslationData::default());
    assert!(!s.finish_load("b.json", None));
    assert_eq!(s.path(), "b.json");
    assert_eq!(s.status_message, "File not found or invalid");
    assert_eq!(s.data.last_id, 0);
}

#[test]
fn a_saved_translation_is_shown_again() {
    let list = vec![kanji(10, "木", &["木曜"]), kanji(11, "森", &[])];
    let mut s = TranslateState::new("t.json", MessageTranslationData::default());
    s.current_index = 0;
    s.meaning_buffer = "tree".to_string();
    s.examples_buffer = vec!["Thursday".to_string()];
    s.record_current(&list);
    assert_eq!(s.data.last_id, 10);
    s.meaning_buffer.clear();
    s.examples_buffer.clear();
    s.sync_translation_buffers(&list[0]);
    assert_eq!(s.meaning_buffer, "tree");
    assert_eq!(s.examples_buffer, vec!["Thursday".to_string()]);
}

#[test]
fn recording_past_the_end_changes_nothing() {
    let list = vec![kanji(10, "木", &[])];
    let mut s = TranslateState::new("t.json", MessageTranslationData::default());
    s.current_index = 5;
    s.meaning_buffer = "x".to_string();
    s.record_current(&list);
    assert_eq!(s.data.last_id, 0);
    assert!(s.data.entries.get("木").is_none());
}

#[test]
fn save_outcomes_set_the_status() {
    let mut s = TranslateState::new("t.json", MessageTranslationData::default());
    s.data.last_id = 42;
    s.finish_save(SaveOutcome::Saved);
    assert_eq!(s.status_message, "Saved at ID: 42");
    s.finish_save(SaveOutcome::SerializeFailed);
    assert_eq!(s.status_message, "Error serializing JSON");
    s.finish_save(SaveOutcome::CreateFailed("denied".to_string()));
    assert_eq!(s.status_message, "Error creating file: denied");
}

#[test]
fn messages_come_from_the_locale() {
    let mut locale = TranslateToKanji::default();
    locale.saved_at_id = "Gespeichert bei".to_string();
    locale.error_create_file = "Fehler".to_string();
    let m = locale.message_data();
    assert_eq!(m.saved_at_id, "Gespeichert bei");
    assert_eq!(m.error_create_file, "Fehler");
    let copy = translation("m", &["e"]).copy();
    assert_eq!(copy.meaning, "m");
    assert_eq!(copy.translate_examples, vec!["e".to_string()]);
    assert!(KanjiTranslation::new().meaning.is_empty());
}

#[test]
fn previous_and_next_keep_the_buffers_and_show_the_neighbour() {
    let ks = vec![
        Arc::new(kanji(1, "一", &["一つ"])),
        Arc::new(kanji(2, "二", &["二つ", "二月"])),
    ];
    let mut s = TranslateState::new("t.json", MessageTranslationData::default());
    s.meaning_buffer = "one".to_string();
    s.examples_buffer = vec!["one thing".to_string()];
    s.status_message = "old".to_string();
    s.go_previous(&ks);
    assert_eq!(s.current_index, 0);
    assert_eq!(s.status_message, "old");
    s.go_next(&ks);
    assert_eq!(s.current_index, 1);
    assert_eq!(s.data.last_id, 1);
    assert_eq!(s.status_message, "");
    assert_eq!(s.meaning_buffer, "");
    assert_eq!(s.examples_buffer, vec![String::new(), String::new()]);
    s.meaning_buffer = "two".to_string();
    s.go_previous(&ks);
    assert_eq!(s.current_index, 0);
    assert_eq!(s.data.last_id, 1);
    assert_eq!(s.meaning_buffer, "one");
    assert_eq!(s.examples_buffer, vec!["one thing".to_string()]);
    assert_eq!(s.data.entries.get("二").map(|t| t.meaning.as_str()), Some("two"));
    s.go_next(&ks);
    s.go_next(&ks);
    assert_eq!(s.current_index, 2);
    assert_eq!(s.data.last_id, 2);
}

#[test]
fn jump_search_finds_by_kanji_reading_or_id() {
    let mut a = kanji(12, "水", &[]);
    a.onyomi_romaji = "Sui".to_string();
    a.kunyomi = "みず".to_string();
    let b = kanji(3, "火", &[]);
    let ks = vec![Arc::new(a), Arc::new(b)];
    assert!(jump_matches(&ks, "").is_empty());
    assert_eq!(jump_matches(&ks, " SUI "), vec![0]);
    assert_eq!(jump_matches(&ks, "みず"), vec![0]);
    assert_eq!(jump_matches(&ks, "3"), vec![1]);
    assert_eq!(jump_matches(&ks, "火"), vec![1]);
    assert_eq!(jump_matches(&ks, "  "), vec![0, 1]);
    let many: Vec<Arc<Kanji>> = (0..20).map(|i| Arc::new(kanji(i, "木", &[]))).collect();
    assert_eq!(jump_matches(&many, "木").len(), 15);
    let mut s = TranslateState::default();
    s.jump_to(1, &ks, "Found");
    assert_eq!(s.current_index, 1);
    assert_eq!(s.status_message, "Found");
}

#[test]
fn a_kanji_page_pairs_each_example_with_its_translation() {
    let mut f = TranslationFile::new();
    f.entries.insert("語".to_string(), translation("language", &["Japanese"]));
    let k = kanji(7, "語", &["日本語", "英語"]);
    assert_eq!(example_translations(&k, &f.entries), vec!["Japanese".to_string(), String::new()]);
    assert_eq!(meaning_text("語", &f.entries), "language");
    assert_eq!(meaning_text("火", &f.entries), "");
    let other = kanji(8, "火", &["火曜日"]);
    assert_eq!(example_translations(&other, &f.entries), vec![String::new()]);
}
