use nr::text::{
    contains_char, list_contains, split_newlines_exec, starts_with, str_eq, strip_prefix,
    to_decimal, trim, trim_matches_char, push_padded,
};

#[test]
fn equality_and_search() {
    assert!(str_eq("mp4", "mp4"));
    assert!(!str_eq("mp4", "mp3"));
    assert!(!str_eq("mp4", "mp4 "));
    assert!(str_eq("", ""));
    assert!(contains_char("video.mov", '.'));
    assert!(!contains_char("video", '.'));
    assert!(starts_with("file:///x", "file://"));
    assert!(!starts_with("fil", "file://"));
    assert_eq!(strip_prefix("file:///x", "file://"), Some("/x"));
    assert_eq!(strip_prefix("/x", "file://"), None);
    assert!(list_contains(&["a", "bc"], "bc"));
    assert!(!list_contains(&["a", "bc"], "b"));
}

#[test]
fn trimming_follows_unicode_white_space() {
    let ws = [
        '\u{9}', '\u{a}', '\u{b}', '\u{c}', '\u{d}', ' ', '\u{85}', '\u{a0}', '\u{1680}',
        '\u{2000}', '\u{2005}', '\u{200a}', '\u{2028}', '\u{2029}', '\u{202f}', '\u{205f}',
        '\u{3000}',
    ];
    for c in ws {
        let s = format!("{}x{}", c, c);
        assert_eq!(trim(&s), "x", "{:?}", c);
        assert_eq!(trim(&s), s.trim());
    }
    for c in ['\u{200b}', '\u{180e}', '\u{feff}', 'a', '\u{1c}'] {
        let s = format!("{}x{}", c, c);
        assert_eq!(trim(&s), s.as_str(), "{:?}", c);
        assert_eq!(trim(&s), s.trim());
    }
    assert_eq!(trim("   "), "");
    assert_eq!(trim_matches_char("\"\"a\"b\"", '"'), "a\"b");
}

#[test]
fn splitting() {
    assert_eq!(split_newlines_exec("a\nb\n"), vec!["a", "b", ""]);
    assert_eq!(split_newlines_exec(""), vec![""]);
    assert_eq!(split_newlines_exec("é\r\nü"), vec!["é\r", "ü"]);
}

#[test]
fn numbers_and_padding() {
    assert_eq!(to_decimal(0), "0");
    assert_eq!(to_decimal(7), "7");
    assert_eq!(to_decimal(1024), "1024");
    assert_eq!(to_decimal(usize::MAX), usize::MAX.to_string());
    let mut s = String::from(">");
    push_padded(&mut s, "ab", 4);
    assert_eq!(s, ">ab  ");
    let mut s = String::new();
    push_padded(&mut s, "abcdef", 4);
    assert_eq!(s, "abcdef");
    assert_eq!(format!("{:<4}", "é"), { let mut t = String::new(); push_padded(&mut t, "é", 4); t });
}
