use kanji_master::text::{contains_text, join_strings, replace_all, same_text, split_words, trim};

#[test]
fn trim_removes_unicode_white_space_at_both_ends() {
    assert_eq!(trim("  ka \n"), "ka");
    assert_eq!(trim("\u{3000}語\u{3000}"), "語");
    assert_eq!(trim(" a b "), "a b");
    assert_eq!(trim("   "), "");
    assert_eq!(trim(""), "");
}

#[test]
fn contains_finds_runs_of_chars() {
    assert!(contains_text("日本語", "本"));
    assert!(contains_text("abc", ""));
    assert!(contains_text("abc", "abc"));
    assert!(!contains_text("abc", "abcd"));
    assert!(!contains_text("abc", "ac"));
}

#[test]
fn replace_all_is_left_to_right_without_overlap() {
    assert_eq!(replace_all("kvg:element kvg:type", "kvg:", "kvg_"), "kvg_element kvg_type");
    assert_eq!(replace_all("aaa", "aa", "b"), "ba");
    assert_eq!(replace_all("none", "x", "y"), "none");
}

#[test]
fn split_and_join() {
    assert_eq!(split_words(" a  b\tc "), vec!["a", "b", "c"]);
    assert!(split_words(" \n ").is_empty());
    let parts = vec!["x".to_string(), "y".to_string()];
    assert_eq!(join_strings(&parts, "-"), "x-y");
    assert_eq!(join_strings(&Vec::new(), "-"), "");
}

#[test]
fn same_text_compares_every_char() {
    assert!(same_text("語", "語"));
    assert!(!same_text("語", "語 "));
}
