use blueos_recorder::text::{
    join_texts, contains_text, keep_ascii_alphanumeric, replace_char, same_text, split, split_once,
    starts_with,
};
use blueos_recorder::text_map::TextMap;

#[test]
fn splitting() {
    assert_eq!(
        split_once("a=b=c", '='),
        Some(("a".to_string(), "b=c".to_string()))
    );
    assert_eq!(split_once("abc", '='), None);
    assert_eq!(split("a;;b", ';'), vec!["a", "", "b"]);
    assert_eq!(split("", ';'), vec![""]);
}

#[test]
fn comparing() {
    assert!(same_text("\u{e9}", "\u{e9}"));
    assert!(!same_text("a", "ab"));
    assert!(starts_with("video/x", "video/"));
    assert!(starts_with("x", ""));
    assert!(!starts_with("vid", "video/"));
    assert!(contains_text("aab", "ab"));
    assert!(contains_text("", ""));
    assert!(!contains_text("a", "ab"));
}

#[test]
fn building() {
    assert_eq!(replace_char("a/b/", '/', '.'), "a.b.");
    assert_eq!(keep_ascii_alphanumeric("A \u{e9}z-0"), "Az0");
    assert_eq!(join_texts("a", "\u{e9}"), "a\u{e9}");
}

#[test]
fn maps() {
    let mut map: TextMap<u8> = TextMap::new();
    assert_eq!(map.get("a"), None);
    map.insert("a".to_string(), 1);
    map.insert("b".to_string(), 2);
    map.insert("a".to_string(), 3);
    assert_eq!(map.len(), 2);
    assert_eq!(map.get("a"), Some(&3));
    assert!(map.contains_key("b"));
    assert!(!map.contains_key(""));
}
