use wallout::text::{decimal_string, split_text, str_eq, text_eq};

#[test]
fn decimal_rendering() {
    assert_eq!(decimal_string(0), "0");
    assert_eq!(decimal_string(7), "7");
    assert_eq!(decimal_string(10), "10");
    assert_eq!(decimal_string(8999), "8999");
    assert_eq!(decimal_string(65535), "65535");
    assert_eq!(decimal_string(u64::MAX), u64::MAX.to_string());
}

#[test]
fn splitting_like_str_split() {
    for (s, sep) in [("Basic abc", ' '), ("a,b,,c", ','), ("", ','), ("a ", ' '), (" a  b", ' '), ("x", ',')] {
        let expected: Vec<String> = s.split(sep).map(|p| p.to_string()).collect();
        assert_eq!(split_text(s, sep), expected);
    }
    assert_eq!(split_text("h\u{e9}llo,w\u{f6}rld", ','), vec!["h\u{e9}llo".to_string(), "w\u{f6}rld".to_string()]);
}

#[test]
fn text_equality() {
    assert!(text_eq(&"ip".to_string(), "ip"));
    assert!(!text_eq(&"ip".to_string(), "IP"));
    assert!(str_eq("/", "/"));
    assert!(!str_eq("/a", "/"));
}
