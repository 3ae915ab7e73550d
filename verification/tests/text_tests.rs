use scry::text::{
    chars_of, decimal_string, eq_str, is_whitespace, join, pad_right, repeat_str, sort_strings,
    split_on, str_le, trim,
};

fn strs(v: &[String]) -> Vec<&str> {
    v.iter().map(|s| s.as_str()).collect()
}

#[test]
fn decimal_renders_like_display() {
    assert_eq!(decimal_string(0), "0");
    assert_eq!(decimal_string(7), "7");
    assert_eq!(decimal_string(42), "42");
    assert_eq!(decimal_string(1000), "1000");
    assert_eq!(decimal_string(u64::MAX), u64::MAX.to_string());
}

#[test]
fn join_puts_separator_between() {
    let parts = vec!["ops".to_string(), "guest".to_string(), "iot".to_string()];
    assert_eq!(join(&parts, "/"), "ops/guest/iot");
    assert_eq!(join(&vec!["one".to_string()], "/"), "one");
    assert_eq!(join(&Vec::new(), "/"), "");
}

#[test]
fn pad_right_pads_to_width() {
    assert_eq!(pad_right("[network]", 10), "[network] ");
    assert_eq!(pad_right("[monitor]", 10), "[monitor] ");
    assert_eq!(pad_right("[services]", 10), "[services]");
    assert_eq!(pad_right("[x]", 10), format!("{:10}", "[x]"));
    assert_eq!(pad_right("é", 3), format!("{:3}", "é"));
}

#[test]
fn repeat_repeats() {
    assert_eq!(repeat_str("─", 3), "───");
    assert_eq!(repeat_str("|", 0), "");
}

#[test]
fn trim_matches_std() {
    for s in ["  a b \t", "", "   ", "x", "\u{3000}wide\u{2003}", "\n\rz\u{85}"] {
        assert_eq!(trim(s), s.trim());
    }
    for c in ['\t', ' ', '\u{a0}', '\u{2028}', 'a', '\u{200b}'] {
        assert_eq!(is_whitespace(c), c.is_whitespace());
    }
}

#[test]
fn split_matches_std() {
    for s in ["a,,b", "", ",", "ops,guest,iot", "x,"] {
        let expected: Vec<&str> = s.split(',').collect();
        assert_eq!(strs(&split_on(s, ',')), expected);
    }
}

#[test]
fn ordering_and_sorting() {
    assert!(str_le(&chars_of("abc"), &chars_of("abd")));
    assert!(str_le(&chars_of("ab"), &chars_of("abc")));
    assert!(!str_le(&chars_of("b"), &chars_of("a")));
    let names = vec!["client-12".to_string(), "client-04".to_string(), "client-07".to_string(), "Zeta".to_string()];
    let mut expected = names.clone();
    expected.sort();
    assert_eq!(sort_strings(names), expected);
}

#[test]
fn eq_str_compares_text() {
    assert!(eq_str(&"online".to_string(), "online"));
    assert!(!eq_str(&"offline".to_string(), "online"));
}
