use ago_recipe_manager::text::{
    char_is_ascii_alphanumeric, char_is_whitespace, concat2, concat3, contains_chars, digit,
    ends_with, index_of, join_texts, matches_at, push_decimal, push_hex_tail, replace_chars,
    same_text, split_lines, starts_with, subvec, take_chars, take_text, text_or_default, to_chars,
    trim_chars, trimmed, CharClass,
};

fn chars(s: &str) -> Vec<char> {
    s.chars().collect()
}

fn to_text(v: &Vec<char>) -> String {
    v.iter().collect()
}

fn lines_of(s: &str) -> Vec<String> {
    split_lines(&chars(s)).iter().map(to_text).collect()
}

#[test]
fn whitespace_agrees_with_the_standard_library() {
    for code in 0u32..=0x3100 {
        if let Some(c) = char::from_u32(code) {
            assert_eq!(char_is_whitespace(c), c.is_whitespace(), "U+{:04X}", code);
        }
    }
    assert!(!char_is_whitespace('\u{FEFF}'));
    assert!(!char_is_whitespace('\u{10FFFF}'));
}

#[test]
fn alphanumeric_agrees_with_the_standard_library() {
    for code in 0u32..=0x250 {
        if let Some(c) = char::from_u32(code) {
            assert_eq!(char_is_ascii_alphanumeric(c), c.is_ascii_alphanumeric());
        }
    }
}

#[test]
fn chars_and_text_round_trip() {
    let s = "a\u{e9}\u{1F600} z";
    assert_eq!(to_chars(s), chars(s));
    assert_eq!(to_chars(""), Vec::<char>::new());
    assert_eq!(concat2(s, ""), s);
}

#[test]
fn trimmed_agrees_with_the_standard_library() {
    for s in ["", " ", "  a b \t\n", "\u{a0}x\u{3000}", "x", "\r\n", " \u{2003}y z\u{85}"] {
        assert_eq!(trimmed(s), s.trim(), "{:?}", s);
    }
}

#[test]
fn trim_chars_strips_one_character_from_both_ends() {
    let t = |s: &str, c: char| to_text(&trim_chars(&chars(s), CharClass::Exactly(c)));
    assert_eq!(t("__a_b__", '_'), "a_b");
    assert_eq!(t("____", '_'), "");
    assert_eq!(t("\"Home\"", '"'), "Home");
    assert_eq!(t("a", '_'), "a");
    assert_eq!(t("", '_'), "");
}

#[test]
fn subvec_and_take() {
    assert_eq!(to_text(&subvec(&chars("hello"), 1, 3)), "el");
    assert_eq!(to_text(&subvec(&chars("hello"), 2, 2)), "");
    assert_eq!(to_text(&take_chars(&chars("hello"), 2)), "he");
    assert_eq!(to_text(&take_chars(&chars("hello"), 9)), "hello");
    assert_eq!(take_text("h\u{e9}llo", 2), "h\u{e9}");
    assert_eq!(take_text("abc", 0), "");
}

#[test]
fn matching_and_searching() {
    let hay = chars("abcabd");
    assert!(matches_at(&hay, &chars("abd"), 3));
    assert!(!matches_at(&hay, &chars("abd"), 0));
    assert!(!matches_at(&hay, &chars("abd"), 4));
    assert!(!matches_at(&hay, &chars("abd"), usize::MAX));
    assert!(matches_at(&hay, &chars(""), 6));
    assert!(!matches_at(&hay, &chars(""), 7));
    assert!(starts_with(&hay, &chars("abc")));
    assert!(starts_with(&hay, &chars("")));
    assert!(!starts_with(&hay, &chars("bc")));
    assert!(!starts_with(&chars("ab"), &chars("abc")));
    assert!(ends_with(&hay, &chars("abd")));
    assert!(!ends_with(&hay, &chars("abc")));
    assert!(!ends_with(&chars("bd"), &chars("abd")));
    assert!(contains_chars(&hay, &chars("cab")));
    assert!(contains_chars(&hay, &chars("")));
    assert!(contains_chars(&chars(""), &chars("")));
    assert!(contains_chars(&hay, &chars("abcabd")));
    assert!(!contains_chars(&hay, &chars("abcabdx")));
    assert!(!contains_chars(&hay, &chars("ca b")));
}

#[test]
fn index_of_finds_the_first() {
    assert_eq!(index_of(&chars("a:b:c"), ':'), Some(1));
    assert_eq!(index_of(&chars(":"), ':'), Some(0));
    assert_eq!(index_of(&chars("abc"), ':'), None);
    assert_eq!(index_of(&chars(""), ':'), None);
}

#[test]
fn replace_chars_replaces_every_one() {
    assert_eq!(to_text(&replace_chars(&chars("a_b__c"), '_', ' ')), "a b  c");
    assert_eq!(to_text(&replace_chars(&chars(""), '_', ' ')), "");
}

#[test]
fn lines_agree_with_the_standard_library() {
    for s in [
        "",
        "a",
        "a\n",
        "a\nb",
        "a\r\nb\r\n",
        "\n",
        "\n\n",
        "a\n\nb",
        "a\r",
        "a\r\n",
        "\r\n",
        "a\rb\nc",
        "a\r\r\nb",
        "x\n\r",
    ] {
        let expected: Vec<String> = s.lines().map(|l| l.to_string()).collect();
        assert_eq!(lines_of(s), expected, "{:?}", s);
    }
}

#[test]
fn digits() {
    assert_eq!(digit(0), '0');
    assert_eq!(digit(9), '9');
    assert_eq!(digit(10), 'a');
    assert_eq!(digit(15), 'f');
}

#[test]
fn decimal_agrees_with_display() {
    for n in [0u64, 7, 10, 99, 100, 1700000000, u64::MAX] {
        let mut out = chars("n=");
        push_decimal(&mut out, n);
        assert_eq!(to_text(&out), format!("n={}", n));
    }
}

#[test]
fn hex_tail_takes_the_low_digits() {
    let hex = |n: u128, width: u8| {
        let mut out = Vec::new();
        push_hex_tail(&mut out, n, width);
        to_text(&out)
    };
    assert_eq!(hex(0, 8), "00000000");
    assert_eq!(hex(0xABC, 8), "00000abc");
    assert_eq!(hex(0x1234_5678_9ABC_DEF0, 8), "9abcdef0");
    assert_eq!(hex(u128::MAX, 8), "ffffffff");
    assert_eq!(hex(0x1F, 0), "");
    assert_eq!(hex(0x1F, 1), "f");
}

#[test]
fn joining_and_concatenating() {
    let parts = |v: &[&str]| v.iter().map(|s| s.to_string()).collect::<Vec<String>>();
    assert_eq!(join_texts(&parts(&[]), "; "), "");
    assert_eq!(join_texts(&parts(&["a"]), "; "), "a");
    assert_eq!(join_texts(&parts(&["a", "b", "c"]), "; "), "a; b; c");
    assert_eq!(join_texts(&parts(&["", ""]), "-"), "-");
    assert_eq!(concat2("ab", "cd"), "abcd");
    assert_eq!(concat3("a", "", "c"), "ac");
}

#[test]
fn same_text_and_defaults() {
    assert!(same_text("Off", "Off"));
    assert!(!same_text("Off", "off"));
    assert!(!same_text("Off", "Of"));
    assert!(same_text("", ""));
    assert_eq!(text_or_default(String::new(), "BW"), "BW");
    assert_eq!(text_or_default("C41".to_string(), "BW"), "C41");
    assert_eq!(text_or_default(" ".to_string(), "BW"), " ");
}

#[test]
fn class_membership() {
    assert!(CharClass::Whitespace.contains(' '));
    assert!(!CharClass::Whitespace.contains('_'));
    assert!(CharClass::Exactly('_').contains('_'));
    assert!(!CharClass::Exactly('_').contains(' '));
}
