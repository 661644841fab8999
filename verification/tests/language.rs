use kanji_master::language::{
    file_language, flatten, get_entry, language_names, language_texts, TomlValue,
};
use kanji_master::text_map::TextMap;

fn flat_local(toml_str: &str) -> TextMap<String> {
    language_texts(toml_str).unwrap()
}

fn get<'a>(m: &'a TextMap<String>, k: &str) -> Option<&'a str> {
    m.get(k).map(|s| s.as_str())
}

#[test]
fn flattens_nested_tables_into_dot_paths() {
    let toml_str = r#"
        [local.settings]
        title = "Settings"

        [local.settings.nested]
        deep = "value"
    "#;
    let out = flat_local(toml_str);
    assert_eq!(get(&out, "settings.title"), Some("Settings"));
    assert_eq!(get(&out, "settings.nested.deep"), Some("value"));
    assert_eq!(out.pairs().len(), 2);
}

#[test]
fn ignores_non_string_values_like_the_top_level_lang_code() {
    let toml_str = r#"
        [local]
        count = 5
        enabled = true
        list = ["a", "b"]
        text = "kept"
    "#;
    let out = flat_local(toml_str);
    assert_eq!(out.pairs().len(), 1);
    assert_eq!(get(&out, "text"), Some("kept"));
}

#[test]
fn flatten_by_hand_built_values() {
    let v = TomlValue::Table(vec![
        ("a".to_string(), TomlValue::Str("1".to_string())),
        ("b".to_string(), TomlValue::Table(vec![("c".to_string(), TomlValue::Str("2".to_string()))])),
        ("d".to_string(), TomlValue::Other),
    ]);
    let mut out = TextMap::new();
    flatten(&v, "root", &mut out);
    assert_eq!(get(&out, "root.a"), Some("1"));
    assert_eq!(get(&out, "root.b.c"), Some("2"));
    assert_eq!(out.pairs().len(), 2);
}

#[test]
fn language_file_texts() {
    let texts = language_texts("lang = \"en\"\n[local.home]\nkanji_not_found = \"Nothing\"\n").unwrap();
    assert_eq!(get(&texts, "home.kanji_not_found"), Some("Nothing"));
    assert!(get(&texts, "lang").is_none());
    assert!(language_texts("lang = \"en\"").unwrap().pairs().is_empty());
    assert!(language_texts("not = = toml").is_none());
}

#[test]
fn languages_are_the_sorted_stems_of_toml_files() {
    assert_eq!(file_language("English.toml").as_deref(), Some("English"));
    assert_eq!(file_language("a.b.toml").as_deref(), Some("a.b"));
    assert_eq!(file_language(".toml"), None);
    assert_eq!(file_language("notes.txt"), None);
    assert_eq!(file_language("toml"), None);
    let files = vec![
        "Русский.toml".to_string(),
        "English.toml".to_string(),
        "readme.md".to_string(),
        "Deutsch.toml".to_string(),
    ];
    assert_eq!(language_names(&files), vec!["Deutsch", "English", "Русский"]);
}

#[test]
fn get_entry_finds_the_first_entry_of_a_name() {
    let v = TomlValue::Table(vec![
        ("lang".to_string(), TomlValue::Str("en".to_string())),
        ("local".to_string(), TomlValue::Str("first".to_string())),
        ("local".to_string(), TomlValue::Str("second".to_string())),
    ]);
    assert!(matches!(get_entry(&v, "local"), Some(TomlValue::Str(s)) if s == "first"));
    assert!(get_entry(&v, "missing").is_none());
    assert!(get_entry(&TomlValue::Other, "local").is_none());
}
