use zoomosc_lite::pid::{parse_i32, parse_pid};
use zoomosc_lite::walk::readable_children;

fn chars(s: &str) -> Vec<char> {
    s.chars().collect()
}

#[test]
fn reads_first_pid_line() {
    assert_eq!(parse_pid(b"1234\n5678\n"), Some(1234));
    assert_eq!(parse_pid(b"  42 \r\n"), Some(42));
    assert_eq!(parse_pid(b"7"), Some(7));
}

#[test]
fn no_output_means_no_zoom() {
    assert_eq!(parse_pid(b""), None);
    assert_eq!(parse_pid(b"\n1234\n"), None);
    assert_eq!(parse_pid(b"zoom\n"), None);
}

#[test]
fn invalid_utf8_is_replaced_and_rejected() {
    assert_eq!(parse_pid(b"12\xff\n"), None);
}

#[test]
fn i32_parsing_follows_std() {
    for text in ["0", "+5", "-5", "2147483647", "-2147483648", "2147483648", "-2147483649", "", "+", "-", "1a", "00012", "99999999999999999999", " 1"] {
        assert_eq!(parse_i32(&chars(text)), text.parse::<i32>().ok(), "{}", text);
    }
}

#[test]
fn child_count_is_capped() {
    assert_eq!(readable_children(-3), 0);
    assert_eq!(readable_children(0), 0);
    assert_eq!(readable_children(7), 7);
    assert_eq!(readable_children(500), 500);
    assert_eq!(readable_children(501), 500);
}
