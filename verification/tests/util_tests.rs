use gor::cmd::util::truncate;
use gor::util::urlencode_label_name;

#[test]
fn urlencode_normal() {
    assert_eq!(urlencode_label_name("bug"), "bug");
}

#[test]
fn urlencode_with_hash() {
    assert_eq!(urlencode_label_name("bug#1"), "bug%231");
}

#[test]
fn urlencode_with_space() {
    assert_eq!(urlencode_label_name("in progress"), "in%20progress");
}

#[test]
fn urlencode_with_question_mark() {
    assert_eq!(urlencode_label_name("where?"), "where%3F");
}

#[test]
fn urlencode_with_ampersand() {
    assert_eq!(urlencode_label_name("R&D"), "R%26D");
}

#[test]
fn urlencode_combined() {
    assert_eq!(urlencode_label_name("bug #1?fix&go"), "bug%20%231%3Ffix%26go");
}

#[test]
fn urlencode_label_keeps_other_characters() {
    assert_eq!(urlencode_label_name("é/%"), "é/%");
}

#[test]
fn truncate_short_string() {
    assert_eq!(truncate("hi", 10), "hi");
}

#[test]
fn truncate_exact_length() {
    assert_eq!(truncate("hello", 5), "hello");
}

#[test]
fn truncate_long_string() {
    assert_eq!(truncate("hello world", 5), "hello…");
}

#[test]
fn truncate_empty() {
    assert_eq!(truncate("", 5), "");
}

#[test]
fn truncate_counts_characters() {
    // Four characters (eight bytes): within five characters, kept whole.
    assert_eq!(truncate("éééé", 5), "éééé");
    assert_eq!(truncate("héllo", 5), "héllo");
    assert_eq!(truncate("héllo!", 5), "héllo…");
    assert_eq!(truncate("abc", 0), "…");
}
