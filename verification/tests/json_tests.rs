//! Tests for JSON text framing and the exact request bodies.

use escli::commands::aliases_remove::remove_alias_body;
use escli::commands::aliases_update::update_aliases_body;
use escli::commands::indices_create::create_index_body;
use escli::commands::reindex::reindex_body;
use escli::json_text::json_string;
use escli::text::usize_to_string;

#[test]
fn plain_string_is_quoted() {
    assert_eq!(json_string("logs-2024"), "\"logs-2024\"");
}

#[test]
fn empty_string_is_two_quotes() {
    assert_eq!(json_string(""), "\"\"");
}

#[test]
fn quotes_and_backslashes_are_escaped() {
    assert_eq!(json_string("a\"b\\c"), "\"a\\\"b\\\\c\"");
}

#[test]
fn named_control_characters_use_short_escapes() {
    assert_eq!(json_string("a\nb\rc\td\u{8}e\u{c}f"), "\"a\\nb\\rc\\td\\be\\ff\"");
}

#[test]
fn other_control_characters_use_four_digit_escapes() {
    assert_eq!(json_string("\u{1}\u{1f}"), "\"\\u0001\\u001f\"");
}

#[test]
fn unicode_passes_through() {
    assert_eq!(json_string("smörgåsbord"), "\"smörgåsbord\"");
}

#[test]
fn reindex_body_exact_text() {
    assert_eq!(
        reindex_body("old-index", "new-index"),
        "{\"source\":{\"index\":\"old-index\"},\"dest\":{\"index\":\"new-index\"}}"
    );
}

#[test]
fn reindex_body_escapes_names() {
    assert_eq!(
        reindex_body("a\"b", "c\\d"),
        "{\"source\":{\"index\":\"a\\\"b\"},\"dest\":{\"index\":\"c\\\\d\"}}"
    );
}

#[test]
fn remove_alias_body_exact_text() {
    assert_eq!(
        remove_alias_body("logs-2024", "logs"),
        "{\"actions\":[{\"remove\":{\"index\":\"logs-2024\",\"alias\":\"logs\"}}]}"
    );
}

#[test]
fn update_aliases_body_exact_text() {
    assert_eq!(
        update_aliases_body("logs-2024", "logs-new", "logs-old"),
        "{\"actions\":[{\"add\":{\"index\":\"logs-2024\",\"alias\":\"logs-new\"}},\
         {\"remove\":{\"index\":\"logs-2024\",\"alias\":\"logs-old\"}}]}"
    );
}

#[test]
fn create_index_body_empty() {
    assert_eq!(create_index_body(None, None), "{}");
}

#[test]
fn create_index_body_mapping_only() {
    let mapping = "{\"properties\":{}}".to_string();
    assert_eq!(create_index_body(Some(&mapping), None), "{\"mappings\":{\"properties\":{}}}");
}

#[test]
fn create_index_body_settings_only() {
    let settings = "{\"number_of_replicas\":1}".to_string();
    assert_eq!(
        create_index_body(None, Some(&settings)),
        "{\"settings\":{\"index\":{\"number_of_replicas\":1}}}"
    );
}

#[test]
fn create_index_body_both() {
    let mapping = "{\"properties\":{}}".to_string();
    let settings = "{\"number_of_replicas\":1}".to_string();
    assert_eq!(
        create_index_body(Some(&mapping), Some(&settings)),
        "{\"mappings\":{\"properties\":{}},\"settings\":{\"index\":{\"number_of_replicas\":1}}}"
    );
}

#[test]
fn decimal_rendering() {
    assert_eq!(usize_to_string(0), "0");
    assert_eq!(usize_to_string(7), "7");
    assert_eq!(usize_to_string(9200), "9200");
    assert_eq!(usize_to_string(1234567890), "1234567890");
}
