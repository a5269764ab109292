use pulse::text::{
    chars_equal, chars_of, parse_u32_range, push_decimal, push_str, scan_u32_range, split_lines,
    str_equal, string_from_chars,
};

fn lines(s: &str) -> Vec<String> {
    split_lines(&chars_of(s)).iter().map(|l| string_from_chars(l)).collect()
}

#[test]
fn lines_follow_str_lines() {
    for s in ["", "a", "a\n", "a\nb", "a\r\nb\r\n", "\n\n", "a\rb\n", "x\r", "\r\n", "a\n\nb"] {
        let expected: Vec<String> = s.lines().map(|l| l.to_string()).collect();
        assert_eq!(lines(s), expected, "{:?}", s);
    }
}

#[test]
fn decimal_text() {
    let mut s = String::from("n=");
    push_decimal(&mut s, 0);
    assert_eq!(s, "n=0");
    let mut s = String::new();
    push_decimal(&mut s, 4294967295);
    assert_eq!(s, "4294967295");
    let mut s = String::new();
    push_decimal(&mut s, 1020);
    assert_eq!(s, "1020");
}

#[test]
fn push_str_appends() {
    let mut s = String::from("ab");
    push_str(&mut s, "cé");
    assert_eq!(s, "abcé");
}

#[test]
fn u32_parsing_follows_std() {
    for s in ["0", "12", "+7", "007", "4294967295", "4294967296", "", "+", "-1", "1 ", " 1", "1a", "٣", "00000000000001"] {
        let c = chars_of(s);
        assert_eq!(parse_u32_range(&c, 0, c.len()), s.parse::<u32>().ok(), "{:?}", s);
    }
}

#[test]
fn scan_fields_allow_ten_digits() {
    let c = chars_of("0000000001");
    assert_eq!(scan_u32_range(&c, 0, c.len()), Some(1));
    let c = chars_of("+0000000001");
    assert_eq!(scan_u32_range(&c, 0, c.len()), Some(1));
    let c = chars_of("00000000001");
    assert_eq!(scan_u32_range(&c, 0, c.len()), None);
}

#[test]
fn equality() {
    assert!(str_equal("abc", "abc"));
    assert!(!str_equal("abc", "abd"));
    assert!(!str_equal("abc", "ab"));
    assert!(chars_equal(&chars_of("é"), &vec!['é']));
}
