use flashquiz::text::{
    contains, contains_char, is_blank, is_whitespace, remove_char, strip_line_ending, trim,
};

#[test]
fn whitespace_agrees_with_the_standard_library_on_every_character() {
    let mut seen = 0u32;
    for code in 0..=0x10FFFFu32 {
        if let Some(c) = char::from_u32(code) {
            assert_eq!(is_whitespace(c), c.is_whitespace(), "U+{:04X}", code);
            seen += 1;
        }
    }
    assert_eq!(seen, 0x110000 - 0x800);
}

#[test]
fn whitespace_on_named_characters() {
    for c in [' ', '\t', '\n', '\r', '\u{0B}', '\u{0C}', '\u{85}', '\u{A0}', '\u{3000}'] {
        assert!(is_whitespace(c), "{:?}", c);
    }
    for c in ['a', '@', '0', '\u{200B}', '\u{180E}', '\u{FEFF}', '\0'] {
        assert!(!is_whitespace(c), "{:?}", c);
    }
}

#[test]
fn blank_texts() {
    assert!(is_blank(""));
    assert!(is_blank(" "));
    assert!(is_blank(" \t\r\n"));
    assert!(is_blank("\u{2003}\u{A0}"));
    assert!(!is_blank("a"));
    assert!(!is_blank("  a  "));
    assert!(!is_blank("\n@\n"));
}

#[test]
fn blank_agrees_with_trimming_to_nothing() {
    for s in ["", " ", "\n", "x", " x", "x ", " \t x \t ", "\u{3000}", "\u{3000}y"] {
        assert_eq!(is_blank(s), s.trim().is_empty(), "{:?}", s);
        assert_eq!(is_blank(s), trim(s).is_empty(), "{:?}", s);
    }
}

#[test]
fn trim_takes_whitespace_off_both_ends() {
    assert_eq!(trim("  hello  "), "hello");
    assert_eq!(trim("hello"), "hello");
    assert_eq!(trim("\n\tfn main() {}\r\n"), "fn main() {}");
    assert_eq!(trim(""), "");
    assert_eq!(trim(" \n "), "");
}

#[test]
fn trim_keeps_inner_whitespace() {
    assert_eq!(trim("  a  b \n c  "), "a  b \n c");
    assert_eq!(trim("x\n    y\n"), "x\n    y");
}

#[test]
fn trim_agrees_with_the_standard_library() {
    let samples = [
        "",
        " ",
        "a",
        " a",
        "a ",
        "  a b  ",
        "\u{A0}caf\u{E9}\u{2003}",
        "\u{3000}\u{65E5}\u{672C}\u{8A9E}\u{3000}",
        "\t\tlet x = 1;\n\tlet y = 2;\n\n",
        "\u{200B} zero width is kept \u{200B}",
    ];
    for s in samples {
        assert_eq!(trim(s), s.trim(), "{:?}", s);
    }
}

#[test]
fn trim_twice_is_trim_once() {
    for s in ["", "  a  ", "\n\nx y\n", "z"] {
        let once = trim(s);
        assert_eq!(trim(&once), once);
    }
}

#[test]
fn contains_finds_a_run_of_characters() {
    assert!(contains("it is true", "true"));
    assert!(contains("true", "true"));
    assert!(contains("untrue!", "true"));
    assert!(!contains("ture", "true"));
    assert!(!contains("tru", "true"));
    assert!(!contains("t r u e", "true"));
    assert!(!contains("", "true"));
}

#[test]
fn contains_with_an_empty_pattern() {
    assert!(contains("abc", ""));
    assert!(contains("", ""));
}

#[test]
fn contains_at_the_edges() {
    assert!(contains("abcdef", "abc"));
    assert!(contains("abcdef", "def"));
    assert!(contains("abcdef", "abcdef"));
    assert!(!contains("abcdef", "abcdefg"));
    assert!(contains("aaab", "aab"));
    assert!(!contains("aaab", "aba"));
}

#[test]
fn contains_agrees_with_the_standard_library() {
    let texts = ["", "a", "ab", "abab", "ababc", "\u{E9}t\u{E9}", "true or false"];
    let patterns = ["", "a", "b", "ab", "abc", "bab", "\u{E9}", "t\u{E9}", "true", "false"];
    for s in texts {
        for p in patterns {
            assert_eq!(contains(s, p), s.contains(p), "{:?} in {:?}", p, s);
        }
    }
}

#[test]
fn contains_char_finds_a_character() {
    assert!(contains_char("a@b", '@'));
    assert!(contains_char("@", '@'));
    assert!(contains_char("line\n@\n", '@'));
    assert!(!contains_char("", '@'));
    assert!(!contains_char("no marker here", '@'));
}

#[test]
fn remove_char_drops_every_occurrence() {
    assert_eq!(remove_char("a@b", '@'), "ab");
    assert_eq!(remove_char("@@a@@b@@", '@'), "ab");
    assert_eq!(remove_char("@", '@'), "");
    assert_eq!(remove_char("", '@'), "");
    assert_eq!(remove_char("plain", '@'), "plain");
}

#[test]
fn remove_char_agrees_with_replacing_by_nothing() {
    for s in ["", "@", "x@y@z", "caf\u{E9}@", "@\n", "let a = b @ c;\n@\n"] {
        assert_eq!(remove_char(s, '@'), s.replace("@", ""), "{:?}", s);
    }
}

#[test]
fn strip_line_ending_takes_off_a_line_feed() {
    assert_eq!(strip_line_ending("hello\n"), "hello");
}

#[test]
fn strip_line_ending_takes_off_carriage_return_and_line_feed() {
    assert_eq!(strip_line_ending("hello\r\n"), "hello");
}

#[test]
fn strip_line_ending_takes_off_a_lone_carriage_return() {
    assert_eq!(strip_line_ending("hello\r"), "hello");
}

#[test]
fn strip_line_ending_takes_off_one_ending_only() {
    assert_eq!(strip_line_ending("hello\n\n"), "hello\n");
    assert_eq!(strip_line_ending("hello\r\r\n"), "hello\r");
    assert_eq!(strip_line_ending("hello\n\r"), "hello\n");
    assert_eq!(strip_line_ending("hello\r\n\r\n"), "hello\r\n");
}

#[test]
fn strip_line_ending_leaves_the_rest_alone() {
    assert_eq!(strip_line_ending("hello"), "hello");
    assert_eq!(strip_line_ending(""), "");
    assert_eq!(strip_line_ending("\n"), "");
    assert_eq!(strip_line_ending("\r\n"), "");
    assert_eq!(strip_line_ending("a\nb"), "a\nb");
    assert_eq!(strip_line_ending("  spaced  \n"), "  spaced  ");
}
