use openless_remote::text::{
    characters, contains_text, decimal_text, insert_ascending, is_blank, is_text,
    same_optional_text, same_text, trim,
};

#[test]
fn characters_are_kept_in_order() {
    assert_eq!(characters("a❌手"), vec!['a', '❌', '手']);
    assert!(characters("").is_empty());
}

#[test]
fn texts_are_compared_whole() {
    assert!(same_text("手机", "手机"));
    assert!(!same_text("手机", "手"));
    assert!(!same_text("ab", "ac"));
    assert!(same_text("", ""));
    assert!(is_text(&Some("up".to_string()), "up"));
    assert!(!is_text(&None, ""));
    assert!(same_optional_text(&None, &None));
    assert!(!same_optional_text(&Some("a".to_string()), &None));
    assert!(same_optional_text(&Some("a".to_string()), &Some("a".to_string())));
}

#[test]
fn numbers_are_written_in_decimal() {
    assert_eq!(decimal_text(0), "0");
    assert_eq!(decimal_text(9), "9");
    assert_eq!(decimal_text(10), "10");
    assert_eq!(decimal_text(45678), "45678");
    assert_eq!(decimal_text(u32::MAX), "4294967295");
}

#[test]
fn white_space_is_trimmed() {
    assert_eq!(trim(" \t up\n"), "up");
    assert_eq!(trim("up"), "up");
    assert_eq!(trim("  a b  "), "a b");
    assert_eq!(trim("\u{3000}手机\u{a0}"), "手机");
    assert_eq!(trim("\u{200b}x"), "\u{200b}x");
    assert_eq!(trim(" \n\u{2003} "), "");
}

#[test]
fn blank_texts_are_those_trimmed_to_nothing() {
    assert!(is_blank(""));
    assert!(is_blank(" \r\n\u{3000}"));
    assert!(!is_blank(" x "));
    assert!(!is_blank("\u{feff}"));
}

#[test]
fn parts_are_found() {
    assert!(contains_text("{\"type\":\"pong\"}", "\"pong\""));
    assert!(!contains_text("{\"type\":\"ping\"}", "\"pong\""));
    assert!(!contains_text("po", "pong"));
    assert!(contains_text("anything", ""));
    assert!(contains_text("aab", "ab"));
}

#[test]
fn lists_stay_ascending_without_doubles() {
    let mut list: Vec<String> = Vec::new();
    for text in ["192.168.2", "10.0.0", "192.168.10", "10.0.0", "172.16.4", "192.168.1"] {
        insert_ascending(&mut list, text.to_string());
    }
    assert_eq!(list, vec!["10.0.0", "172.16.4", "192.168.1", "192.168.10", "192.168.2"]);
}

#[test]
fn every_white_character_is_blank_and_no_other() {
    let white = |c: char| {
        matches!(
            c,
            '\u{9}'..='\u{d}'
                | ' '
                | '\u{85}'
                | '\u{a0}'
                | '\u{1680}'
                | '\u{2000}'..='\u{200a}'
                | '\u{2028}'
                | '\u{2029}'
                | '\u{202f}'
                | '\u{205f}'
                | '\u{3000}'
        )
    };
    for c in '\0'..=char::MAX {
        assert_eq!(is_blank(&c.to_string()), white(c), "{:?}", c);
    }
}
