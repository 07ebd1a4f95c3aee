use operator_host::text::{
    chars_of, clone_texts, contains, eq_ignore_ascii_case, find_from, is_blank, is_whitespace,
    join2, matches_at, same_text, to_ascii_lower,
};

fn chars(s: &str) -> Vec<char> {
    s.chars().collect()
}

#[test]
fn chars_of_gives_the_characters_in_order() {
    assert_eq!(chars_of("héllo"), vec!['h', 'é', 'l', 'l', 'o']);
    assert!(chars_of("").is_empty());
}

#[test]
fn contains_agrees_with_std() {
    let cases = [
        ("", ""),
        ("abc", ""),
        ("", "a"),
        ("abc", "abc"),
        ("abc", "abcd"),
        ("aab", "ab"),
        ("status 404 not found", "404"),
        ("status 40 4", "404"),
        ("at line 1: EOF while parsing a value", "EOF while parsing a value"),
        ("ééé", "éé"),
        ("aaaa", "aaab"),
    ];
    for (hay, needle) in cases {
        assert_eq!(contains(hay, needle), hay.contains(needle), "{:?} in {:?}", needle, hay);
    }
}

#[test]
fn find_from_gives_the_first_position_at_or_after_the_start() {
    let hay = chars("abcabcabc");
    let needle = chars("bc");
    assert_eq!(find_from(&hay, &needle, 0), Some(1));
    assert_eq!(find_from(&hay, &needle, 1), Some(1));
    assert_eq!(find_from(&hay, &needle, 2), Some(4));
    assert_eq!(find_from(&hay, &needle, 8), None);
    assert_eq!(find_from(&hay, &needle, 9), None);
    assert_eq!(find_from(&hay, &chars(""), 9), Some(9));
    assert_eq!(find_from(&hay, &chars("abcabcabcd"), 0), None);
    assert!(matches_at(&hay, &needle, 7));
    assert!(!matches_at(&hay, &needle, 0));
}

#[test]
fn ascii_case_is_folded_and_nothing_else() {
    assert_eq!(to_ascii_lower('A'), 'a');
    assert_eq!(to_ascii_lower('Z'), 'z');
    assert_eq!(to_ascii_lower('a'), 'a');
    assert_eq!(to_ascii_lower('@'), '@');
    assert_eq!(to_ascii_lower('['), '[');
    assert_eq!(to_ascii_lower('É'), 'É');
    for c in ['\0', 'A', 'M', 'Z', 'a', 'z', '0', '~', 'É', 'ß', '\u{10FFFF}'] {
        assert_eq!(to_ascii_lower(c), c.to_ascii_lowercase());
    }
    let cases = [("Ring", "rING"), ("", ""), ("a", "ab"), ("É", "é"), ("É", "É"), ("k8s", "K8S")];
    for (a, b) in cases {
        assert_eq!(eq_ignore_ascii_case(a, b), a.eq_ignore_ascii_case(b), "{:?} {:?}", a, b);
    }
}

#[test]
fn whitespace_is_the_unicode_white_space() {
    let probes = [
        0x08u32, 0x09, 0x0A, 0x0B, 0x0C, 0x0D, 0x0E, 0x1F, 0x20, 0x21, 0x84, 0x85, 0x86, 0x9F,
        0xA0, 0xA1, 0x167F, 0x1680, 0x1681, 0x180E, 0x1FFF, 0x2000, 0x2005, 0x200A, 0x200B,
        0x2027, 0x2028, 0x2029, 0x202A, 0x202E, 0x202F, 0x2030, 0x205E, 0x205F, 0x2060, 0x2FFF,
        0x3000, 0x3001, 0xFEFF, 0x10FFFF,
    ];
    for n in probes {
        let c = char::from_u32(n).unwrap();
        assert_eq!(is_whitespace(c), c.is_whitespace(), "U+{:04X}", n);
    }
    for text in ["", " ", " \t\r\n", " a ", "\u{3000}", "\u{200B}", "x"] {
        assert_eq!(is_blank(text), text.trim().is_empty(), "{:?}", text);
    }
}

#[test]
fn same_text_compares_characters() {
    assert!(same_text("--debug", "--debug"));
    assert!(!same_text("--debug", "--Debug"));
    assert!(!same_text("--debug", "--debu"));
    assert!(same_text("", ""));
}

#[test]
fn joins_concatenate() {
    assert_eq!(join2("a", "b"), "ab");
    assert_eq!(join2("", ""), "");
    assert_eq!(join2("a", "é"), "aé");
    assert_eq!(
        clone_texts(&vec!["x".to_string(), "".to_string(), "z".to_string()]),
        vec!["x".to_string(), "".to_string(), "z".to_string()]
    );
}
