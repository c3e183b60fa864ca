use darktide_local_server::query::{find_first, find_last, read_pid};
use darktide_local_server::text::{parse_u32, same_text, starts_with, text_after_first};

fn pairs(items: &[(&str, &str)]) -> Vec<(String, String)> {
    items.iter().map(|(k, v)| (k.to_string(), v.to_string())).collect()
}

#[test]
fn find_first_takes_the_first_of_equal_names() {
    let list = pairs(&[("a", "1"), ("pid", "2"), ("pid", "3")]);
    assert_eq!(find_first(&list, "pid"), Some(&"2".to_string()));
    assert_eq!(find_first(&list, "a"), Some(&"1".to_string()));
    assert_eq!(find_first(&list, "b"), None);
    assert_eq!(find_first(&pairs(&[]), "pid"), None);
}

#[test]
fn find_last_takes_the_last_of_equal_names() {
    let list = pairs(&[("pid", "2"), ("a", "1"), ("pid", "3"), ("z", "")]);
    assert_eq!(find_last(&list, "pid"), Some(&"3".to_string()));
    assert_eq!(find_last(&list, "z"), Some(&"".to_string()));
    assert_eq!(find_last(&list, "b"), None);
    assert_eq!(find_last(&pairs(&[]), "pid"), None);
}

#[test]
fn names_are_matched_exactly() {
    let list = pairs(&[("PID", "1"), ("pid ", "2"), ("pi", "3")]);
    assert_eq!(find_first(&list, "pid"), None);
    assert_eq!(find_last(&list, "pid"), None);
}

#[test]
fn parse_u32_reads_decimal_numbers() {
    assert_eq!(parse_u32("0"), Some(0));
    assert_eq!(parse_u32("42"), Some(42));
    assert_eq!(parse_u32("007"), Some(7));
    assert_eq!(parse_u32("+15"), Some(15));
    assert_eq!(parse_u32("4294967295"), Some(u32::MAX));
    assert_eq!(parse_u32("00000000004294967295"), Some(u32::MAX));
}

#[test]
fn parse_u32_refuses_everything_else() {
    for text in [
        "", "+", "-", "-1", "-0", "++1", "1+", " 1", "1 ", "1_000", "0x10", "1.0", "abc", "12a",
        "4294967296", "99999999999999999999999", "\u{661}\u{662}",
    ] {
        assert_eq!(parse_u32(text), None, "{:?}", text);
        assert_eq!(text.parse::<u32>().ok(), None, "{:?}", text);
    }
}

#[test]
fn parse_u32_agrees_with_the_standard_library() {
    for text in ["0", "1", "+1", "0001", "99999999", "4294967295", "4294967296", "+", "", "1e3"] {
        assert_eq!(parse_u32(text), text.parse::<u32>().ok(), "{:?}", text);
    }
}

#[test]
fn read_pid_falls_back_to_zero() {
    assert_eq!(read_pid(Some(&"812".to_string())), 812);
    assert_eq!(read_pid(Some(&"x812".to_string())), 0);
    assert_eq!(read_pid(Some(&"".to_string())), 0);
    assert_eq!(read_pid(Some(&"99999999999".to_string())), 0);
    assert_eq!(read_pid(None), 0);
}

#[test]
fn text_after_first_cuts_behind_the_mark() {
    assert_eq!(text_after_first("/a?b=c", '?'), "b=c");
    assert_eq!(text_after_first("/a?b?c", '?'), "b?c");
    assert_eq!(text_after_first("/a?", '?'), "");
    assert_eq!(text_after_first("/a", '?'), "");
    assert_eq!(text_after_first("", '?'), "");
    assert_eq!(text_after_first("?x", '?'), "x");
}

#[test]
fn starts_with_compares_the_prefix() {
    assert!(starts_with("/run", "/run"));
    assert!(starts_with("/running", "/run"));
    assert!(starts_with("abc", ""));
    assert!(!starts_with("/ru", "/run"));
    assert!(!starts_with("/Run", "/run"));
    assert!(!starts_with("", "a"));
}

#[test]
fn same_text_compares_all_characters() {
    assert!(same_text("", ""));
    assert!(same_text("GET", "GET"));
    assert!(!same_text("GET", "get"));
    assert!(!same_text("GET", "GET "));
    assert!(!same_text("a", ""));
}
