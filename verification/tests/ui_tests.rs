//! Tests for the terminal browser's state machine and the index filter.

use escli::ui_app::{
    filter_indices, index_matches_filter, InputMode, KeyInput, StatefulTable, UiApp,
};

#[test]
fn new_browser_has_placeholder_indices() {
    let app = UiApp::new();
    assert_eq!(app.selected_screen_idx, 0);
    assert_eq!(app.indices_filter, "");
    assert_eq!(app.input_mode, InputMode::Normal);
    assert_eq!(app.indices.selected, None);
    assert_eq!(app.indices.items.len(), 11);
    assert_eq!(app.indices.items[0], "Indice 0");
    assert_eq!(app.indices.items[10], "Indice 10");
}

#[test]
fn default_matches_new() {
    let app = UiApp::default();
    assert_eq!(app.indices.items.len(), 11);
    assert_eq!(app.input_mode, InputMode::Normal);
}

#[test]
fn q_quits_in_normal_mode() {
    let mut app = UiApp::new();
    assert!(app.handle_key(KeyInput::Char('q')));
}

#[test]
fn q_types_in_filter_mode() {
    let mut app = UiApp::new();
    assert!(!app.handle_key(KeyInput::Char('f')));
    assert_eq!(app.input_mode, InputMode::Filtering);
    assert!(!app.handle_key(KeyInput::Char('q')));
    assert_eq!(app.indices_filter, "q");
}

#[test]
fn filter_editing() {
    let mut app = UiApp::new();
    app.handle_key(KeyInput::Char('f'));
    app.handle_key(KeyInput::Char('a'));
    app.handle_key(KeyInput::Char('b'));
    app.handle_key(KeyInput::Char('c'));
    assert_eq!(app.indices_filter, "abc");
    app.handle_key(KeyInput::Backspace);
    assert_eq!(app.indices_filter, "ab");
    app.handle_key(KeyInput::Backspace);
    app.handle_key(KeyInput::Backspace);
    app.handle_key(KeyInput::Backspace);
    assert_eq!(app.indices_filter, "");
    assert!(!app.handle_key(KeyInput::Esc));
    assert_eq!(app.input_mode, InputMode::Normal);
}

#[test]
fn arrows_move_selection_with_wraparound() {
    let mut app = UiApp::new();
    app.handle_key(KeyInput::Down);
    assert_eq!(app.indices.selected, Some(0));
    app.handle_key(KeyInput::Down);
    assert_eq!(app.indices.selected, Some(1));
    app.handle_key(KeyInput::Up);
    assert_eq!(app.indices.selected, Some(0));
    app.handle_key(KeyInput::Up);
    assert_eq!(app.indices.selected, Some(10));
    app.handle_key(KeyInput::Down);
    assert_eq!(app.indices.selected, Some(0));
    app.handle_key(KeyInput::Left);
    assert_eq!(app.indices.selected, None);
}

#[test]
fn table_navigation_wraps_on_its_own() {
    let mut t = StatefulTable::with_items(vec![1, 2, 3]);
    t.next();
    assert_eq!(t.selected, Some(0));
    t.previous();
    assert_eq!(t.selected, Some(2));
    t.next();
    assert_eq!(t.selected, Some(0));
    t.unselect();
    assert_eq!(t.selected, None);
    t.previous();
    assert_eq!(t.selected, Some(0));
}

#[test]
fn filter_matches_case_folded_names() {
    assert!(index_matches_filter("Indice 3", "indice 3"));
    assert!(index_matches_filter("LOGS-2024", "logs"));
    assert!(!index_matches_filter("logs", "LOGS"));
    assert!(index_matches_filter("anything", ""));
    assert!(!index_matches_filter("short", "not in there"));
}

#[test]
fn filter_indices_keeps_matching_rows_in_order() {
    let items = vec![
        "Alpha".to_string(),
        "beta".to_string(),
        "ALBATROSS".to_string(),
        "gamma".to_string(),
    ];
    assert_eq!(
        filter_indices(&items, "al"),
        vec!["Alpha".to_string(), "ALBATROSS".to_string()]
    );
    assert_eq!(filter_indices(&items, ""), items);
    assert!(filter_indices(&items, "zzz").is_empty());
}
