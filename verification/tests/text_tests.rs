use monsgeek_profile_switcher::text::{
    chars_of, decimal_string, find_chars, parse_unsigned_chars, trim_chars,
};

fn text(v: &[char]) -> String {
    v.iter().collect()
}

#[test]
fn numbers_render_in_decimal() {
    assert_eq!(decimal_string(0), "0");
    assert_eq!(decimal_string(38415), "38415");
    assert_eq!(decimal_string(u64::MAX), u64::MAX.to_string());
}

#[test]
fn unsigned_parsing_follows_str_parse() {
    let p = |s: &str, max: u64| parse_unsigned_chars(&chars_of(s), max);
    assert_eq!(p("42", 255), Some(42));
    assert_eq!(p("+42", 255), Some(42));
    assert_eq!(p("0042", 255), Some(42));
    assert_eq!(p("256", 255), None);
    assert_eq!(p("", 255), None);
    assert_eq!(p("+", 255), None);
    assert_eq!(p("-1", 255), None);
    assert_eq!(p(" 1", 255), None);
    for s in ["7", "+7", "65535", "65536", "1x", "++1"] {
        assert_eq!(p(s, 65535), s.parse::<u16>().ok().map(u64::from));
    }
}

#[test]
fn trimming_follows_str_trim() {
    for s in ["  a b \t\n", "", "   ", "x", "\u{3000}y\u{a0}"] {
        assert_eq!(text(&trim_chars(&chars_of(s))), s.trim());
    }
}

#[test]
fn finding_follows_str_find() {
    let hay = chars_of("abcabc");
    assert_eq!(find_chars(&hay, &['c', 'a']), Some(2));
    assert_eq!(find_chars(&hay, &[]), Some(0));
    assert_eq!(find_chars(&hay, &['x']), None);
}
