use celeriant_integration_tests::sorting::{sort, sort_names};
use celeriant_integration_tests::text::{
    contains, join, not_after, parse_u64, push_decimal, push_padded, rest_after_last, split, str_eq,
    strip_prefix, strip_suffix, trim,
};

#[test]
fn texts_are_told_apart() {
    assert!(str_eq("", ""));
    assert!(str_eq("äb", "äb"));
    assert!(!str_eq("ab", "abc"));
    assert!(not_after("a", "b"));
    assert!(not_after("a", "ab"));
    assert!(not_after("ab", "ab"));
    assert!(!not_after("b", "ab"));
}

#[test]
fn parts_of_texts_are_found() {
    assert!(contains("a panic: Election", "panic"));
    assert!(contains("x", ""));
    assert!(!contains("pani", "panic"));
    assert_eq!(strip_prefix("log_7.wal", "log_"), Some("7.wal"));
    assert_eq!(strip_prefix("lo", "log_"), None);
    assert_eq!(strip_suffix("7.wal", ".wal"), Some("7"));
    assert_eq!(strip_suffix("wal", ".wal"), None);
    assert_eq!(rest_after_last("127.0.0.1:4100", ':'), "4100");
    assert_eq!(rest_after_last("4100", ':'), "4100");
    assert_eq!(rest_after_last("4100:", ':'), "");
}

#[test]
fn texts_are_cut_and_put_together() {
    assert_eq!(split("a,,b", ','), vec!["a", "", "b"]);
    assert_eq!(split("", ','), vec![""]);
    assert_eq!(join(&vec!["a", "", "b"], ", "), "a, , b");
    assert_eq!(join(&vec![], ", "), "");
    assert_eq!(trim(" \t a b\n"), "a b");
    assert_eq!(trim("\u{2003}x\u{a0}"), "x");
    assert_eq!(trim("  "), "");
}

#[test]
fn numbers_are_read_as_the_standard_library_reads_them() {
    for s in ["0", "+7", "007", "18446744073709551615", "", "+", "-1", "1a", " 1", "18446744073709551616"] {
        assert_eq!(parse_u64(s), s.parse::<u64>().ok(), "{s:?}");
    }
}

#[test]
fn numbers_are_spelled() {
    let mut out = "n=".to_string();
    push_decimal(&mut out, 0);
    push_decimal(&mut out, u128::MAX);
    assert_eq!(out, format!("n=0{}", u128::MAX));
    let mut out = String::new();
    push_padded(&mut out, 7, 3);
    push_padded(&mut out, 1234, 3);
    assert_eq!(out, "0071234");
}

#[test]
fn sorting_keeps_everything() {
    let v = vec![3, 1, 2, 3, 0, u64::MAX, 1];
    let mut want = v.clone();
    want.sort_unstable();
    assert_eq!(sort(&v), want);
    assert_eq!(sort(&vec![]), Vec::<u64>::new());
    let names: Vec<String> = ["log_2", "log_10", "log_1"].iter().map(|s| s.to_string()).collect();
    assert_eq!(sort_names(names), vec!["log_1", "log_10", "log_2"]);
}
