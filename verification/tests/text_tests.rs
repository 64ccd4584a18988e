use c2s_setup::text::{
    chars_of, contains_chars, find_char, find_chars, join_chars, parse_u8_chars, rfind_char,
    split_chars, str_contains, string_of, trim_str, with_decimal,
};

fn chars(s: &str) -> Vec<char> {
    s.chars().collect()
}

#[test]
fn trim_removes_unicode_whitespace_on_both_sides() {
    assert_eq!(trim_str("  \t abc def \r\n"), "abc def");
    assert_eq!(trim_str("\u{3000}x\u{A0}"), "x");
    assert_eq!(trim_str("   "), "");
    assert_eq!(trim_str(""), "");
}

#[test]
fn chars_round_trip() {
    let v = chars_of("héllo ✔");
    assert_eq!(string_of(&v), "héllo ✔");
}

#[test]
fn find_and_rfind_char() {
    assert_eq!(find_char(&chars("a=b=c"), '='), Some(1));
    assert_eq!(rfind_char(&chars("a.b.c"), '.'), Some(3));
    assert_eq!(find_char(&chars("abc"), '='), None);
    assert_eq!(rfind_char(&chars("abc"), '.'), None);
}

#[test]
fn substring_search() {
    assert!(str_contains("hello world", "o w"));
    assert!(!str_contains("hello", "world"));
    assert!(str_contains("abc", ""));
    assert!(contains_chars(&chars("xx : yy"), &chars(" : ")));
    assert_eq!(find_chars(&chars("pkg : summary : more"), &chars(" : ")), 3);
    assert_eq!(find_chars(&chars("nothing here"), &chars(" : ")), 12);
}

#[test]
fn split_keeps_empty_pieces() {
    let parts = split_chars(&chars("a,,b,"), ',');
    let parts: Vec<String> = parts.iter().map(|p| p.iter().collect()).collect();
    assert_eq!(parts, vec!["a", "", "b", ""]);
    assert_eq!(split_chars(&chars(""), ',').len(), 1);
}

#[test]
fn join_first_pieces() {
    let parts = split_chars(&chars("qt5-qtsvg-5.15.2-4"), '-');
    let joined: String = join_chars(&parts, 2, '-').iter().collect();
    assert_eq!(joined, "qt5-qtsvg");
    let none: String = join_chars(&parts, 0, '-').iter().collect();
    assert_eq!(none, "");
}

#[test]
fn decimal_numbers() {
    assert_eq!(with_decimal("n", 0), "n0");
    assert_eq!(with_decimal("sysadmin309", 7), "sysadmin3097");
    assert_eq!(with_decimal("", 18446744073709551615), "18446744073709551615");
}

#[test]
fn parse_u8_like_std() {
    for s in ["0", "7", "007", "+12", "255", "256", "", "+", "-1", "1a", " 1", "99999999999"] {
        assert_eq!(parse_u8_chars(&chars(s)), s.parse::<u8>().ok(), "input {:?}", s);
    }
}

#[test]
fn decimal_then_parse_gives_the_number_back() {
    for n in 0..=255u8 {
        let text = with_decimal("", n as u64);
        assert_eq!(parse_u8_chars(&chars(&text)), Some(n));
    }
}
