use common_feeder::gateway::upstream_id_field;
use common_feeder::text::{
    drop_prefix, same_text, starts_with, to_ascii_lower, to_decimal, trim_end,
};
use common_feeder::text_map::TextMap;

#[test]
fn numbers_are_written_in_decimal() {
    assert_eq!(to_decimal(0), "0");
    assert_eq!(to_decimal(9), "9");
    assert_eq!(to_decimal(10), "10");
    assert_eq!(to_decimal(52428800), "52428800");
    assert_eq!(to_decimal(u64::MAX), u64::MAX.to_string());
}

#[test]
fn prefixes_and_trailing_characters_are_taken_away() {
    assert_eq!(drop_prefix("File:File:a", "File:"), "File:a");
    assert_eq!(drop_prefix("file:a", "File:"), "file:a");
    assert!(starts_with("abc", ""));
    assert!(!starts_with("ab", "abc"));
    assert_eq!(trim_end("http://h//", '/'), "http://h");
    assert_eq!(trim_end("///", '/'), "");
    assert_eq!(trim_end("h/x", '/'), "h/x");
}

#[test]
fn only_ascii_letters_change_case() {
    assert_eq!(to_ascii_lower("ViDeO-\u{c9}9"), "video-\u{c9}9");
    assert!(same_text("a\u{e9}", "a\u{e9}"));
    assert!(!same_text("a", "ab"));
    assert!(!same_text("a", "b"));
}

#[test]
fn a_map_keeps_the_last_value_and_the_order_of_keys() {
    let mut map: TextMap<String> = TextMap::new();
    let mut model = std::collections::BTreeMap::new();
    for (k, v) in [
        ("b", "1"),
        ("a", "2"),
        ("", "3"),
        ("b", "4"),
        ("ab", "5"),
        ("\u{ffff}", "6"),
        ("\u{10000}", "7"),
        ("Z", "8"),
    ] {
        map.insert(k.to_string(), v.to_string());
        model.insert(k.to_string(), v.to_string());
    }
    assert_eq!(map.get("b").map(String::as_str), Some("4"));
    assert!(map.get("c").is_none());
    assert!(map.contains_key(""));
    assert!(!map.contains_key("aa"));
    assert_eq!(
        map.into_entries(),
        model.into_iter().collect::<Vec<(String, String)>>()
    );
}

#[test]
fn an_upstream_names_its_identifier() {
    assert_eq!(upstream_id_field("wikicommons"), "wikicommonsid");
    assert_eq!(upstream_id_field("giphy"), "giphyid");
}
