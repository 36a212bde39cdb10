use archicomm::names::reject_name;
use archicomm::text::{char_count, char_is_whitespace, is_blank_str, join2, join3, push_decimal, to_chars, trim};

#[test]
fn whitespace_is_what_the_standard_library_calls_whitespace() {
    let mut c = 0u32;
    while c <= 0x10FFFF {
        if let Some(ch) = char::from_u32(c) {
            assert_eq!(char_is_whitespace(ch), ch.is_whitespace(), "U+{:04X}", c);
        }
        c += 1;
    }
}

#[test]
fn trim_agrees_with_the_standard_library() {
    let samples = [
        "",
        " ",
        "a",
        "  a  ",
        "\t\n a b \r\n",
        "\u{a0}name\u{3000}",
        "\u{2003}\u{2003}",
        "no-trim",
        " inner  space kept ",
        "\u{200b}zero width is no whitespace\u{200b}",
        "é \u{85}",
    ];
    for s in samples {
        assert_eq!(trim(s), s.trim(), "{:?}", s);
        assert_eq!(is_blank_str(s), s.trim().is_empty(), "{:?}", s);
    }
    assert_eq!(trim("  My Project \n"), "My Project");
}

#[test]
fn characters_are_counted_not_bytes() {
    assert_eq!(char_count(""), 0);
    assert_eq!(char_count("abc"), 3);
    assert_eq!(char_count("héé"), 3);
    assert_eq!(to_chars("hé"), vec!['h', 'é']);
}

#[test]
fn decimal_numerals() {
    for (n, expected) in [(0usize, "0"), (7, "7"), (10, "10"), (255, "255"), (256, "256"), (1000, "1000"), (90210, "90210")] {
        let mut out = String::from("n=");
        push_decimal(&mut out, n);
        assert_eq!(out, format!("n={}", expected));
    }
    let mut out = String::new();
    push_decimal(&mut out, usize::MAX);
    assert_eq!(out, usize::MAX.to_string());
}

#[test]
fn joins() {
    assert_eq!(join2("ab", "cd"), "abcd");
    assert_eq!(join3("a", "", "c"), "ac");
}

#[test]
fn names_are_checked_before_use() {
    assert_eq!(reject_name("Project", "Atlas"), None);
    assert_eq!(reject_name("Project", &"n".repeat(255)), None);
    assert_eq!(reject_name("Project", ""), Some("Project name cannot be empty".to_string()));
    assert_eq!(reject_name("Component", " \t "), Some("Component name cannot be empty".to_string()));
    assert_eq!(
        reject_name("Project", &"n".repeat(256)),
        Some("Project name too long: 256 characters (max 255)".to_string())
    );
    assert_eq!(
        reject_name("Component", &"ü".repeat(300)),
        Some("Component name too long: 300 characters (max 255)".to_string())
    );
    // The length is that of the name as given, not of the trimmed name.
    let padded = format!("{}{}", "n".repeat(200), " ".repeat(56));
    assert!(reject_name("Project", &padded).is_some());
}
