//! Quantities, numbers and texts.

use slo_stages::quantity::{bytes, millis, times};
use slo_stages::text::{cat3, decimal, decimal_int, first_chars, join, lines, parse_signed, parse_up_to, sort, split, split_once, strip_prefix, strip_suffix, trim, trim_slash, words};

#[test]
fn a_quantity_is_compared_as_a_number() {
    assert_eq!(millis("4"), millis("4000m"));
    assert_eq!(bytes("8Gi"), bytes("8589934592"));
    assert_ne!(bytes("8Gi"), bytes("8G"));
    assert_eq!(millis("nonsense"), None);
}

#[test]
fn a_quantity_is_exact() {
    assert_eq!(millis("4"), Some(4_000));
    assert_eq!(millis("0.5"), Some(500));
    assert_eq!(millis("250m"), Some(250));
    assert_eq!(bytes("1Ki"), Some(1_024));
    assert_eq!(bytes("1.5Gi"), Some(1_610_612_736));
    assert_eq!(bytes("2M"), Some(2_000_000));
    assert_eq!(bytes(""), None);
    for word in ["NaN", "nan", "inf", "-inf", "Infinity"] {
        assert_eq!(millis(word), None, "{word}");
        assert_eq!(bytes(word), None, "{word}");
    }
    assert_eq!(times("1e3", 2), Some(2_000));
}

#[test]
fn numbers_are_read_as_they_are_written() {
    for n in [0u64, 7, 10, 4_096, u64::MAX] {
        assert_eq!(parse_up_to(&decimal(n), u64::MAX), Some(n));
    }
    assert_eq!(parse_up_to("65536", 65_535), None);
    assert_eq!(parse_up_to("+7", 10), Some(7));
    assert_eq!(parse_up_to("", 10), None);
    assert_eq!(parse_signed("-9223372036854775808"), Some(i64::MIN));
    assert_eq!(parse_signed("9223372036854775808"), None);
    assert_eq!(decimal_int(-42), "-42");
}

#[test]
fn texts_are_cut_as_std_cuts_them() {
    assert_eq!(cat3("a", "b", "c"), "abc");
    assert_eq!(trim(" \t x y\n"), "x y");
    assert_eq!(trim_slash("http://h//"), "http://h");
    assert_eq!(first_chars("héllo", 2), "hé");
    assert_eq!(split("a-b--c", '-'), ["a", "b", "", "c"]);
    assert_eq!(split_once("a:b:c", ':'), Some(("a".to_string(), "b:c".to_string())));
    assert_eq!(lines("a\r\nb\n\nc"), ["a", "b", "", "c"]);
    assert_eq!(words("  a  b\tc "), ["a", "b", "c"]);
    assert_eq!(strip_prefix("run-x", "run-"), Some("x".to_string()));
    assert_eq!(strip_suffix("a.tgz", ".enc"), None);
    assert_eq!(join(&vec!["a".to_string(), "b".to_string()], ", "), "a, b");
    let v: Vec<String> = ["b", "a", "ab"].iter().map(|s| s.to_string()).collect();
    assert_eq!(sort(&v), ["a", "ab", "b"]);
}
