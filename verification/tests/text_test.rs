use uer::text::{ascii_lowercase, decimal_string, join, str_eq, str_less, trim};

#[test]
fn decimal_renders_like_display() {
    assert_eq!(decimal_string(0), "0");
    assert_eq!(decimal_string(7), "7");
    assert_eq!(decimal_string(10), "10");
    assert_eq!(decimal_string(1234), "1234");
    assert_eq!(decimal_string(usize::MAX), usize::MAX.to_string());
}

#[test]
fn ascii_lowercase_lowers_capitals_only() {
    assert_eq!(ascii_lowercase("F64CPtr"), "f64cptr");
    assert_eq!(ascii_lowercase("USize"), "usize");
    assert_eq!(ascii_lowercase("Debug"), "debug");
    assert_eq!(ascii_lowercase("already-lower_9"), "already-lower_9");
}

#[test]
fn trim_matches_std() {
    for s in ["  a b  ", "\t\n x \r", "", "   ", "\u{2028}y\u{205f}", "z"] {
        assert_eq!(trim(s), s.trim());
    }
}

#[test]
fn join_puts_separator_between() {
    let v = vec!["a".to_string(), "b".to_string(), "c".to_string()];
    assert_eq!(join(&v, ", "), "a, b, c");
    assert_eq!(join(&vec!["x".to_string()], ", "), "x");
    assert_eq!(join(&Vec::new(), ", "), "");
}

#[test]
fn order_of_names_matches_string_order() {
    let names = ["uerust_log", "add", "Add", "a", "", "ab", "b", "é", "z"];
    for a in names {
        for b in names {
            assert_eq!(str_less(a, b), a < b, "{a} {b}");
            assert_eq!(str_eq(a, b), a == b);
        }
    }
}
