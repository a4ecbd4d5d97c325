use tosa_core::text::{
    byte_len, chars_of, contains, decimal_string, is_space, latin1_string, same_text, trim,
};

#[test]
fn length_is_in_bytes() {
    assert_eq!(byte_len(""), 0);
    assert_eq!(byte_len("abc"), 3);
    assert_eq!(byte_len("é"), 2);
    assert_eq!(byte_len("中"), 3);
    assert_eq!(byte_len("😀"), 4);
}

#[test]
fn texts_are_compared_character_by_character() {
    assert!(same_text("", ""));
    assert!(same_text("auto", "auto"));
    assert!(same_text("截图翻译", "截图翻译"));
    assert!(!same_text("auto", "Auto"));
    assert!(!same_text("auto", "aut"));
    assert!(!same_text("aut", "auto"));
    assert!(!same_text("auto", "autp"));
    assert!(!same_text("", " "));
    assert!(!same_text("e\u{301}", "\u{e9}"));
}

#[test]
fn characters_come_one_by_one() {
    assert_eq!(chars_of(""), Vec::<char>::new());
    assert_eq!(chars_of("aé中😀"), vec!['a', 'é', '中', '😀']);
}

#[test]
fn bytes_are_read_as_code_points() {
    assert_eq!(latin1_string(&Vec::new()), "");
    assert_eq!(latin1_string(&b"plain".to_vec()), "plain");
    let all: Vec<u8> = (0..=255u8).collect();
    let expected: String = (0..=255u32).map(|c| char::from_u32(c).unwrap()).collect();
    assert_eq!(latin1_string(&all), expected);
}

#[test]
fn white_space_is_what_unicode_says() {
    let mut c = 0u32;
    while c <= 0x10ffff {
        if let Some(ch) = char::from_u32(c) {
            assert_eq!(is_space(ch), ch.is_whitespace(), "U+{:04X}", c);
        }
        c += 1;
    }
}

#[test]
fn trimming_takes_white_space_from_both_ends() {
    assert_eq!(trim(""), "");
    assert_eq!(trim("a"), "a");
    assert_eq!(trim(" "), "");
    assert_eq!(trim(" \t\r\n\u{b}\u{c}\u{85}\u{a0}\u{1680}\u{2003}\u{2028}\u{2029}\u{202f}\u{205f}\u{3000}"), "");
    assert_eq!(trim("  a b  "), "a b");
    assert_eq!(trim("a b  "), "a b");
    assert_eq!(trim("  a b"), "a b");
    assert_eq!(trim("\u{3000}中 文\u{3000}"), "中 文");
    assert_eq!(trim("\u{200b}a\u{feff}"), "\u{200b}a\u{feff}");
    assert_eq!(trim("\u{1c}a\u{1f}"), "\u{1c}a\u{1f}");
}

#[test]
fn trimming_agrees_with_the_standard_library() {
    let samples = [
        "",
        " ",
        "\n",
        " x",
        "x ",
        " x ",
        "\u{a0}é\u{a0}",
        "  multiple  words \t inside \r\n",
        "\u{2000}\u{2001}😀\u{200a}\u{200b}",
        "no-space",
        "\u{180e}mongolian\u{180e}",
        "\u{0}nul\u{0}",
    ];
    for s in samples {
        assert_eq!(trim(s), s.trim(), "{:?}", s);
    }
    let mut c = 0u32;
    while c < 0x3100 {
        if let Some(ch) = char::from_u32(c) {
            let s = format!("{}x{}y{}", ch, ch, ch);
            assert_eq!(trim(&s), s.trim(), "U+{:04X}", c);
        }
        c += 1;
    }
}

#[test]
fn part_is_found_anywhere() {
    assert!(contains("", ""));
    assert!(contains("abc", ""));
    assert!(contains("abc", "a"));
    assert!(contains("abc", "c"));
    assert!(contains("abc", "bc"));
    assert!(contains("abc", "abc"));
    assert!(contains("aab", "ab"));
    assert!(contains("中文翻译", "文翻"));
    assert!(!contains("", "a"));
    assert!(!contains("abc", "abcd"));
    assert!(!contains("abc", "ac"));
    assert!(!contains("abc", "B"));
    assert!(!contains("中文翻译", "翻文"));
    assert!(!contains("ab", "ba"));
}

#[test]
fn search_agrees_with_the_standard_library() {
    let texts = ["", "a", "ab", "aba", "abab", "bbab", "中a中", "aaa"];
    for text in texts {
        for part in texts {
            assert_eq!(contains(text, part), text.contains(part), "{:?} in {:?}", part, text);
        }
    }
}

#[test]
fn numbers_are_written_in_decimal() {
    assert_eq!(decimal_string(0), "0");
    assert_eq!(decimal_string(7), "7");
    assert_eq!(decimal_string(9), "9");
    assert_eq!(decimal_string(10), "10");
    assert_eq!(decimal_string(11), "11");
    assert_eq!(decimal_string(99), "99");
    assert_eq!(decimal_string(100), "100");
    assert_eq!(decimal_string(1234567890), "1234567890");
    assert_eq!(decimal_string(usize::MAX), usize::MAX.to_string());
}
