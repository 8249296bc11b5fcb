use rps::text::{
    char_is_space, chars_of, contains, contains_chars, joined, matches_at, push_decimal,
    trim_bounds,
};

fn trimmed(s: &str) -> String {
    let cs = chars_of(s);
    let (from, to) = trim_bounds(&cs);
    cs[from..to].iter().collect()
}

fn decimal(n: u32) -> String {
    let mut out = String::new();
    push_decimal(&mut out, n);
    out
}

#[test]
fn chars_of_keeps_every_character_in_order() {
    assert_eq!(chars_of(""), Vec::<char>::new());
    assert_eq!(chars_of("a/b"), vec!['a', '/', 'b']);
    assert_eq!(chars_of("日本 é"), vec!['日', '本', ' ', 'é']);
}

#[test]
fn joined_appends_the_tail() {
    assert_eq!(joined("/", "usr/bin"), "/usr/bin");
    assert_eq!(joined("", ""), "");
    assert_eq!(joined("a", ""), "a");
}

#[test]
fn white_space_is_what_std_calls_white_space() {
    for code in 0u32..0x3100 {
        if let Some(c) = char::from_u32(code) {
            assert_eq!(char_is_space(c), c.is_whitespace(), "U+{:04X}", code);
        }
    }
    assert!(!char_is_space('\u{FEFF}'));
    assert!(!char_is_space('\u{10FFFF}'));
}

#[test]
fn trimming_agrees_with_std() {
    for s in ["", " ", "y", " y ", "\ty\r\n", "  a b  ", "\u{3000}y\u{A0}", "no", " \n "] {
        assert_eq!(trimmed(s), s.trim(), "{:?}", s);
    }
}

#[test]
fn trim_bounds_of_blank_text_are_empty() {
    let cs = chars_of("   ");
    let (from, to) = trim_bounds(&cs);
    assert_eq!(from, to);
    assert!(to <= cs.len());
}

#[test]
fn matches_at_compares_at_the_given_index_only() {
    let hay = chars_of("abcabc");
    let needle = chars_of("bc");
    assert!(!matches_at(&hay, &needle, 0));
    assert!(matches_at(&hay, &needle, 1));
    assert!(!matches_at(&hay, &needle, 2));
    assert!(matches_at(&hay, &needle, 4));
    assert!(!matches_at(&hay, &needle, 5));
    assert!(!matches_at(&hay, &needle, 6));
    assert!(!matches_at(&hay, &needle, 7));
    assert!(matches_at(&hay, &chars_of(""), 6));
    assert!(!matches_at(&hay, &chars_of(""), 7));
}

#[test]
fn contains_finds_substrings_anywhere() {
    assert!(contains("/home/u/.cargo/bin/rps", ".cargo/bin"));
    assert!(contains(".cargo/bin", ".cargo/bin"));
    assert!(contains("x.cargo/bin", ".cargo/bin"));
    assert!(!contains("/home/u/.cargo/bi", ".cargo/bin"));
    assert!(!contains("", "a"));
    assert!(contains("", ""));
    assert!(contains("abc", ""));
    assert!(!contains("ab", "abc"));
}

#[test]
fn contains_agrees_with_std() {
    let hays = ["", "a", "aa", "aab", "abab", "com.x\ncom.y\n", "ééé"];
    let needles = ["", "a", "ab", "b", "ba", "com.y", "é", "éé", "x\n"];
    for h in hays {
        for n in needles {
            assert_eq!(contains(h, n), h.contains(n), "{:?} in {:?}", n, h);
            assert_eq!(contains_chars(&chars_of(h), &chars_of(n)), h.contains(n));
        }
    }
}

#[test]
fn decimal_of_small_and_large_numbers() {
    assert_eq!(decimal(0), "0");
    assert_eq!(decimal(7), "7");
    assert_eq!(decimal(10), "10");
    assert_eq!(decimal(1234), "1234");
    assert_eq!(decimal(1_000_000), "1000000");
    assert_eq!(decimal(u32::MAX), "4294967295");
}

#[test]
fn decimal_agrees_with_std_formatting() {
    let mut n: u32 = 1;
    for _ in 0..40 {
        assert_eq!(decimal(n), format!("{}", n));
        assert_eq!(decimal(n - 1), format!("{}", n - 1));
        n = n.wrapping_mul(7).wrapping_add(13);
        if n == 0 {
            n = 1;
        }
    }
}

#[test]
fn push_decimal_appends_to_what_is_there() {
    let mut out = String::from("pid ");
    push_decimal(&mut out, 42);
    assert_eq!(out, "pid 42");
}
