use kanji_master::browse::TabOpenMode;
use kanji_master::tabs::{TabAction, TabManager};

#[test]
fn tabs_open_and_close_keeping_an_active_tab() {
    let mut m = TabManager::new("home");
    assert_eq!(m.tabs.len(), 1);
    assert!(m.tabs[0].id.parse::<u64>().is_ok());
    m.add_tab("list", false);
    assert_eq!(m.active_tab_index, 0);
    m.add_tab("kana", true);
    assert_eq!(m.active_tab_index, 2);
    assert_eq!(m.active_content(), Some(&"kana"));
    m.close_tab(1, "home");
    assert_eq!(m.active_tab_index, 1);
    assert_eq!(m.active_content(), Some(&"kana"));
    m.close_tab(7, "home");
    assert_eq!(m.tabs.len(), 2);
    m.close_tab(0, "home");
    m.close_tab(0, "new home");
    assert_eq!(m.tabs.len(), 1);
    assert_eq!(m.active_tab_index, 0);
    assert_eq!(m.tabs[0].content, "new home");
}

#[test]
fn dragging_swaps_tabs_and_the_active_tab_follows() {
    let mut m = TabManager::new("home");
    m.add_tab("list", false);
    m.add_tab("kana", false);
    m.swap_tabs(0, 2);
    let order: Vec<&str> = m.tabs.iter().map(|t| t.content).collect();
    assert_eq!(order, vec!["kana", "list", "home"]);
    assert_eq!(m.active_tab_index, 2);
    assert_eq!(m.active_content(), Some(&"home"));
    m.swap_tabs(1, 1);
    assert_eq!(m.active_tab_index, 2);
}

#[test]
fn actions_switch_close_and_close_others() {
    let mut m = TabManager::new("home");
    m.add_tab("list", false);
    m.add_tab("kana", false);
    m.apply(TabAction::Switch(1), "home");
    assert_eq!(m.active_content(), Some(&"list"));
    m.apply(TabAction::CloseOthers(2), "home");
    assert_eq!(m.tabs.len(), 1);
    assert_eq!(m.active_content(), Some(&"kana"));
    m.apply(TabAction::CloseOthers(5), "home");
    assert_eq!(m.tabs.len(), 1);
    m.apply(TabAction::Close(0), "fresh");
    assert_eq!(m.active_content(), Some(&"fresh"));
}

#[test]
fn views_open_tabs_in_front_behind_or_in_place() {
    let mut m = TabManager::new("home");
    m.open("list", TabOpenMode::NewTabBackground);
    assert_eq!(m.tabs.len(), 2);
    assert_eq!(m.active_tab_index, 0);
    m.open("kana", TabOpenMode::NewTabActive);
    assert_eq!(m.active_tab_index, 2);
    let id = m.tabs[2].id.clone();
    m.open("detail", TabOpenMode::ReplaceCurrent);
    assert_eq!(m.tabs.len(), 3);
    assert_eq!(m.tabs[2].content, "detail");
    assert_eq!(m.tabs[2].id, id);
}
