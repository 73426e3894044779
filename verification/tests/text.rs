use menu_cli::text::{chars_of, ends_with, ensure_slash, is_space, join, to_decimal, trim};

#[test]
fn white_space_is_what_std_calls_white_space() {
    for code in 0u32..=0x10ffff {
        if let Some(c) = char::from_u32(code) {
            assert_eq!(is_space(c), c.is_whitespace(), "U+{:04X}", code);
        }
    }
}

#[test]
fn some_characters_are_no_white_space() {
    for c in ['\u{1b}', '\u{1c}', '\u{1f}', '\u{180e}', '\u{200b}', '\u{feff}', 'a', '0', '_'] {
        assert!(!is_space(c));
    }
    for c in [' ', '\t', '\n', '\u{b}', '\u{c}', '\r', '\u{85}', '\u{a0}', '\u{2028}', '\u{3000}'] {
        assert!(is_space(c));
    }
}

#[test]
fn trim_takes_white_space_off_both_ends() {
    assert_eq!(trim("  a b \n"), "a b");
    assert_eq!(trim("a"), "a");
    assert_eq!(trim(""), "");
    assert_eq!(trim(" \t\r\n"), "");
    assert_eq!(trim("\u{a0}é \u{3000}ü\u{2003}"), "é \u{3000}ü");
    assert_eq!(trim("\u{200b} x \u{200b}"), "\u{200b} x \u{200b}");
}

#[test]
fn trim_agrees_with_std() {
    let samples = [
        "https://menu.example.com\n",
        "\r\n\tPasta [15.01.24] \n\n",
        "\u{1680}\u{2000}\u{200a}x\u{202f}\u{205f}",
        "\u{1b}[0m \u{1b}[0m",
        "   ",
        "no space",
        " 🍝 ",
    ];
    for sample in samples {
        assert_eq!(trim(sample), sample.trim());
    }
}

#[test]
fn chars_of_gives_each_character() {
    assert_eq!(chars_of("aé🍝"), vec!['a', 'é', '🍝']);
    assert_eq!(chars_of(""), Vec::<char>::new());
}

#[test]
fn ends_with_looks_at_the_last_character() {
    assert!(ends_with("https://x/", '/'));
    assert!(!ends_with("https://x", '/'));
    assert!(!ends_with("", '/'));
    assert!(ends_with("é", 'é'));
    assert!(!ends_with("/a", '/'));
}

#[test]
fn ensure_slash_adds_one_slash_at_most() {
    assert_eq!(ensure_slash("https://x".to_string()), "https://x/");
    assert_eq!(ensure_slash("https://x/".to_string()), "https://x/");
    assert_eq!(ensure_slash("https://x//".to_string()), "https://x//");
    assert_eq!(ensure_slash(String::new()), "/");
}

#[test]
fn join_puts_the_separator_between_parts() {
    let parts = vec!["a".to_string(), "b".to_string(), "c".to_string()];
    assert_eq!(join(&parts, ", "), "a, b, c");
    assert_eq!(join(&parts, ""), "abc");
    assert_eq!(join(&vec!["a".to_string()], ", "), "a");
    assert_eq!(join(&vec![], ", "), "");
    assert_eq!(join(&vec![String::new(), String::new()], "-"), "-");
}

#[test]
fn to_decimal_writes_numbers_as_std_does() {
    let numbers = [
        0i128,
        1,
        9,
        10,
        11,
        99,
        100,
        1_705_276_800_000,
        -1,
        -10,
        -86_400_000,
        i128::MAX,
        i128::MIN,
    ];
    for number in numbers {
        assert_eq!(to_decimal(number), number.to_string());
    }
    assert_eq!(to_decimal(1_705_276_800_000), "1705276800000");
    assert_eq!(to_decimal(-42), "-42");
}
