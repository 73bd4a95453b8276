use szechat::text::{first_two_lines, is_blank_text, is_white_space_char, trim_text};

#[test]
fn trim_removes_outer_whitespace() {
    assert_eq!(trim_text("  hello world \n\t"), "hello world");
    assert_eq!(trim_text("hello"), "hello");
    assert_eq!(trim_text(""), "");
    assert_eq!(trim_text(" \t\r\n "), "");
}

#[test]
fn trim_handles_unicode_whitespace() {
    assert_eq!(trim_text("\u{3000}\u{a0}szia\u{2003}\u{85}"), "szia");
    assert_eq!(trim_text("\u{200b}x"), "\u{200b}x");
}

#[test]
fn trim_matches_std() {
    for s in ["  a b  ", "\u{2028}é\u{2029}", "\u{feff} z", "x\u{1680}", "\u{205f}\u{202f}"] {
        assert_eq!(trim_text(s), s.trim());
    }
}

#[test]
fn whitespace_classification() {
    for c in ['\t', '\n', '\u{b}', '\u{c}', '\r', ' ', '\u{85}', '\u{a0}', '\u{1680}', '\u{2000}', '\u{200a}', '\u{2028}', '\u{2029}', '\u{202f}', '\u{205f}', '\u{3000}'] {
        assert!(is_white_space_char(c));
        assert!(c.is_whitespace());
    }
    for c in ['a', '\u{200b}', '\u{feff}', '\u{0}', '😐'] {
        assert!(!is_white_space_char(c));
        assert!(!c.is_whitespace());
    }
}

#[test]
fn blank_text() {
    assert!(is_blank_text(""));
    assert!(is_blank_text(" \n "));
    assert!(!is_blank_text(" a "));
}

#[test]
fn splits_first_two_lines() {
    assert_eq!(first_two_lines("msg\n3"), ("msg".to_string(), Some("3".to_string())));
    assert_eq!(first_two_lines("msg"), ("msg".to_string(), None));
    assert_eq!(first_two_lines("a\nb\nc"), ("a".to_string(), Some("b".to_string())));
    assert_eq!(first_two_lines("a\n"), ("a".to_string(), Some(String::new())));
    assert_eq!(first_two_lines("\n"), (String::new(), Some(String::new())));
    assert_eq!(first_two_lines("é😐\nü"), ("é😐".to_string(), Some("ü".to_string())));
}
