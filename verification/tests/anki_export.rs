use std::collections::HashMap;
use std::sync::Arc;

use kanji_master::anki_export::{
    clean_field, export_text, header_line, kanji_line, AnkiExportState, ExportFieldNames,
    ExportOptions, ExportStep,
};
use kanji_master::browse::KanjiList;
use kanji_master::dictionary::Kanji;
use kanji_master::translation::{KanjiTranslation, TranslationEntries};

fn kanji(id: i32, ch: &str, jlpt: &str, on_r: &str, examples: &[&str]) -> Kanji {
    Kanji {
        id,
        kanji: ch.to_string(),
        strokes: 4,
        jlpt: jlpt.to_string(),
        grade: String::new(),
        frequency: String::new(),
        unicode: String::new(),
        onyomi: "スイ".to_string(),
        onyomi_romaji: on_r.to_string(),
        kunyomi: "みず".to_string(),
        kunyomi_romaji: "mizu".to_string(),
        example: examples.iter().map(|e| e.to_string()).collect(),
    }
}

fn names() -> ExportFieldNames {
    ExportFieldNames {
        field_kanji: "Kanji".to_string(),
        field_meaning: "Meaning".to_string(),
        field_onyomi: "Onyomi".to_string(),
        field_kunyomi: "Kunyomi".to_string(),
        field_jlpt: "JLPT".to_string(),
        field_examples: "Examples".to_string(),
    }
}

fn all_fields() -> ExportOptions {
    ExportOptions { kanji: true, meaning: true, onyomi: true, kunyomi: true, jlpt: true, examples: true }
}

fn translations() -> TranslationEntries {
    let mut t = TranslationEntries::new();
    t.insert(
        "水".to_string(),
        KanjiTranslation {
            meaning: "Water\tdrink".to_string(),
            translate_examples: vec!["water".to_string(), String::new()],
        },
    );
    t
}

#[test]
fn header_names_only_the_chosen_fields() {
    assert_eq!(header_line(&all_fields(), &names()), "Kanji\tMeaning\tOnyomi\tKunyomi\tJLPT\tExamples");
    let some = ExportOptions { kanji: true, meaning: false, onyomi: false, kunyomi: false, jlpt: true, examples: false };
    assert_eq!(header_line(&some, &names()), "Kanji\tJLPT");
    let none = ExportOptions { kanji: false, meaning: false, onyomi: false, kunyomi: false, jlpt: false, examples: false };
    assert_eq!(header_line(&none, &names()), "");
}

#[test]
fn fields_lose_their_tabs_and_line_breaks() {
    assert_eq!(clean_field("a\tb\nc"), "a b c");
    assert_eq!(clean_field("plain"), "plain");
}

#[test]
fn kanji_line_joins_examples_with_br_and_cleans_fields() {
    let k = kanji(1, "水", "N5", "sui", &["水曜日", "水道", "お水"]);
    let line = kanji_line(&all_fields(), &k, &translations());
    assert_eq!(line, "水\tWater drink\tスイ\tみず\tN5\t水曜日 — water<br>水道<br>お水");
}

#[test]
fn kanji_without_translation_exports_empty_meaning() {
    let k = kanji(2, "火", "N5", "ka", &["火曜日"]);
    let only = ExportOptions { kanji: true, meaning: true, onyomi: false, kunyomi: false, jlpt: false, examples: true };
    assert_eq!(kanji_line(&only, &k, &translations()), "火\t\t火曜日");
}

#[test]
fn export_skips_unknown_ids_and_keeps_the_given_order() {
    let mut by_id: HashMap<i32, Arc<Kanji>> = HashMap::new();
    by_id.insert(1, Arc::new(kanji(1, "水", "N5", "sui", &[])));
    by_id.insert(2, Arc::new(kanji(2, "火", "N5", "ka", &[])));
    let opts = ExportOptions { kanji: true, meaning: false, onyomi: false, kunyomi: false, jlpt: true, examples: false };
    let text = export_text(&opts, &names(), &vec![2, 99, 1], &by_id, &translations());
    assert_eq!(text, "Kanji\tJLPT\n火\tN5\n水\tN5");
}

#[test]
fn selection_results_follow_search_and_level_and_are_kept() {
    let kanji_db = vec![
        Arc::new(kanji(1, "水", "N5", "sui", &[])),
        Arc::new(kanji(2, "森", "N4", "shin", &[])),
    ];
    let t = translations();
    let mut s = AnkiExportState::new(all_fields());
    s.refresh_results(&kanji_db, &t);
    assert_eq!(s.cached_results, vec![0, 1]);
    s.search_query = "  WATER ".to_string();
    s.refresh_results(&kanji_db, &t);
    assert_eq!(s.cached_results, vec![0]);
    assert_eq!(s.last_search_query.as_deref(), Some("water"));
    s.selected_list = KanjiList::Jlpt4;
    s.refresh_results(&kanji_db, &t);
    assert_eq!(s.cached_results, Vec::<usize>::new());
    s.search_query = "shin".to_string();
    s.refresh_results(&kanji_db, &t);
    assert_eq!(s.cached_results, vec![1]);
}

#[test]
fn clicking_a_kanji_twice_deselects_it() {
    let mut s = AnkiExportState::new(all_fields());
    s.toggle_selected(5);
    s.toggle_selected(7);
    assert!(s.is_selected(5));
    assert_eq!(s.selected_kanji_ids, vec![5, 7]);
    s.toggle_selected(5);
    assert!(!s.is_selected(5));
    assert_eq!(s.selected_kanji_ids, vec![7]);
    s.toggle_selected(5);
    assert_eq!(s.selected_kanji_ids, vec![7, 5]);
}

#[test]
fn steps_need_a_selection_and_emptying_the_review_goes_back() {
    let mut s = AnkiExportState::new(all_fields());
    s.next_step();
    assert_eq!(s.step, ExportStep::Selection);
    s.toggle_selected(3);
    s.next_step();
    assert_eq!(s.step, ExportStep::Review);
    s.next_step();
    assert_eq!(s.step, ExportStep::Options);
    s.previous_step();
    assert_eq!(s.step, ExportStep::Review);
    s.remove_selected(3);
    assert_eq!(s.step, ExportStep::Selection);
    assert!(s.selected_kanji_ids.is_empty());
    s.toggle_selected(4);
    s.next_step();
    s.clear_selection();
    assert_eq!(s.step, ExportStep::Selection);
}
