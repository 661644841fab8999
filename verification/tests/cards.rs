use std::sync::Arc;

use kanji_master::cards::{deck_kanji, level_kanji, CardsSession, DeckBuilderState};
use kanji_master::dictionary::Kanji;

fn kanji(id: i32, ch: &str) -> Kanji {
    Kanji {
        id,
        kanji: ch.to_string(),
        strokes: 1,
        jlpt: "N5".to_string(),
        grade: String::new(),
        frequency: String::new(),
        unicode: String::new(),
        onyomi: String::new(),
        onyomi_romaji: String::new(),
        kunyomi: String::new(),
        kunyomi_romaji: String::new(),
        example: Vec::new(),
    }
}

fn deck() -> Vec<Kanji> {
    vec![kanji(1, "一"), kanji(2, "二"), kanji(3, "三"), kanji(4, "四")]
}

#[test]
fn a_session_is_cut_to_the_limit() {
    let s = CardsSession::new(deck(), 2);
    assert_eq!(s.queue.len(), 2);
    assert_eq!(s.total_count, 2);
    assert_eq!(s.current_index, 0);
    assert!(!s.is_card_flipped && !s.finished);
    for k in &s.queue {
        assert!(deck().contains(k));
    }
    assert_ne!(s.queue[0], s.queue[1]);
}

#[test]
fn limit_zero_or_too_large_takes_every_kanji() {
    for limit in [0, 4, 9] {
        let s = CardsSession::new(deck(), limit);
        assert_eq!(s.queue.len(), 4);
        let mut ids: Vec<i32> = s.queue.iter().map(|k| k.id).collect();
        ids.sort();
        assert_eq!(ids, vec![1, 2, 3, 4]);
    }
}

#[test]
fn next_walks_the_queue_then_finishes() {
    let mut s = CardsSession::new(deck(), 3);
    s.is_card_flipped = true;
    s.next();
    assert_eq!(s.current_index, 1);
    assert!(!s.is_card_flipped);
    s.next();
    assert_eq!(s.current_index, 2);
    assert!(!s.finished);
    s.next();
    assert_eq!(s.current_index, 2);
    assert!(s.finished);
}

#[test]
fn empty_deck_builder() {
    let d = DeckBuilderState::default();
    assert!(d.deck_name_buffer.is_empty() && d.search_buffer.is_empty());
    assert!(d.selected_kanji_idx.is_empty());
    assert!(!d.is_editing);
}

fn dictionary() -> Vec<Arc<Kanji>> {
    let mut a = kanji(1, "一");
    a.onyomi_romaji = "ichi".to_string();
    let mut b = kanji(2, "二");
    b.jlpt = "N4".to_string();
    b.onyomi_romaji = "ni".to_string();
    let mut c = kanji(3, "三");
    c.kunyomi_romaji = "mitsu".to_string();
    vec![Arc::new(a), Arc::new(b), Arc::new(c)]
}

#[test]
fn level_and_deck_sessions_take_their_kanji_in_dictionary_order() {
    let d = dictionary();
    let n5: Vec<i32> = level_kanji(&d, "N5").iter().map(|k| k.id).collect();
    assert_eq!(n5, vec![1, 3]);
    assert!(level_kanji(&d, "N1").is_empty());
    let deck: Vec<i32> = deck_kanji(&d, &vec![3, 2, 9]).iter().map(|k| k.id).collect();
    assert_eq!(deck, vec![2, 3]);
    assert_eq!(level_kanji(&d, "N4")[0], *d[1]);
}

#[test]
fn cards_flip_and_show_the_current_kanji() {
    let mut s = CardsSession::new(deck(), 0);
    assert!(s.current_card().is_some());
    s.flip();
    assert!(s.is_card_flipped);
    s.flip();
    assert!(!s.is_card_flipped);
    s.current_index = 10;
    assert!(s.current_card().is_none());
}

#[test]
fn the_deck_builder_offers_adds_removes_and_saves() {
    let d = dictionary();
    let mut b = DeckBuilderState::default();
    assert!(b.candidates(&d).is_empty());
    b.search_buffer = "I".to_string();
    assert_eq!(b.candidates(&d), vec![0, 1, 2]);
    b.search_buffer = "ts".to_string();
    assert_eq!(b.candidates(&d), vec![2]);
    b.add_kanji(3);
    b.add_kanji(1);
    b.add_kanji(3);
    assert_eq!(b.selected_kanji_idx, vec![3, 1]);
    assert!(b.finish().is_none());
    b.deck_name_buffer = "mine".to_string();
    b.remove_at(0);
    assert_eq!(b.selected_kanji_idx, vec![1]);
    let saved = b.finish();
    assert_eq!(saved, Some(("mine".to_string(), vec![1])));
    assert!(b.deck_name_buffer.is_empty() && b.selected_kanji_idx.is_empty() && !b.is_editing);
    let e = DeckBuilderState::editing("old".to_string(), vec![4, 5]);
    assert!(e.is_editing);
    assert_eq!(e.selected_kanji_idx, vec![4, 5]);
}
