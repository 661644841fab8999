use kanji_master::srs::{
    due_cards, epoch_day_of, new_remaining_today, roll_day, today_epoch_day, DueCard, Rating,
    SrsSettings,
};

#[test]
fn ratings_from_their_numbers() {
    assert_eq!(Rating::from_u8(0), Some(Rating::Again));
    assert_eq!(Rating::from_u8(1), Some(Rating::Hard));
    assert_eq!(Rating::from_u8(2), Some(Rating::Good));
    assert_eq!(Rating::from_u8(3), Some(Rating::Easy));
    assert_eq!(Rating::from_u8(4), None);
    assert_eq!(Rating::from_u8(255), None);
}

#[test]
fn default_settings_and_day_numbers() {
    let s = SrsSettings::default();
    assert_eq!(s.levels, vec!["N5".to_string()]);
    assert_eq!(s.new_per_day, 10);
    assert_eq!(epoch_day_of(0), 0);
    assert_eq!(epoch_day_of(86_399), 0);
    assert_eq!(epoch_day_of(86_400), 1);
    assert_eq!(epoch_day_of(1_700_000_000), 19_675);
    assert!(today_epoch_day() > 19_000);
}

#[test]
fn daily_new_counter_rolls_over() {
    assert_eq!(roll_day(20_000, 2, 20_000), (20_000, 2));
    assert_eq!(roll_day(20_000, 2, 20_001), (20_001, 0));
    let s = SrsSettings { levels: vec![], new_per_day: 10 };
    assert_eq!(new_remaining_today(&s, 3), 7);
    assert_eq!(new_remaining_today(&s, 12), 0);
}

fn card(k: &str, learning: bool, due_day: i64) -> DueCard {
    DueCard { kanji: k.to_string(), learning, due_day }
}

#[test]
fn due_cards_put_learning_first_then_oldest_due() {
    let cards = vec![
        card("水", false, 19_996),
        card("火", true, 20_000),
        card("木", false, 20_001),
        card("金", false, 19_990),
        card("土", true, 19_999),
    ];
    assert_eq!(due_cards(cards, 20_000), vec!["土", "火", "金", "水"]);
    assert!(due_cards(vec![card("月", true, 5)], 4).is_empty());
}

#[test]
fn due_cards_orders_learning_first() {
    const DAY: i64 = 20_000;
    // 水 answered Good five days ago: a review card due DAY - 4.
    // 火 answered Again today: a learning card due today.
    let cards = vec![card("水", false, DAY - 4), card("火", true, DAY)];
    assert_eq!(due_cards(cards, DAY), vec!["火".to_string(), "水".to_string()]);
}
