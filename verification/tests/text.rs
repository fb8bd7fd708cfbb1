use cuda_oxide::host::path::join_path;
use cuda_oxide::ir::identifier::to_identifier;
use cuda_oxide::text::{
    concat2, concat3, contains_text, join_texts, push_decimal, push_signed, same_text,
    starts_with, trim,
};

fn decimal(n: u64) -> String {
    let mut out = String::from("n=");
    push_decimal(&mut out, n);
    out
}

fn signed(n: i32) -> String {
    let mut out = String::new();
    push_signed(&mut out, n);
    out
}

#[test]
fn numerals_have_no_leading_zeros() {
    assert_eq!(decimal(0), "n=0");
    assert_eq!(decimal(10), "n=10");
    assert_eq!(decimal(9_007), "n=9007");
    assert_eq!(decimal(u64::MAX), "n=18446744073709551615");
    assert_eq!(signed(-1), "-1");
    assert_eq!(signed(i32::MIN), "-2147483648");
    assert_eq!(signed(0), "0");
    assert_eq!(signed(i32::MAX), "2147483647");
}

#[test]
fn texts_are_searched() {
    assert!(starts_with("sm_90", "sm_"));
    assert!(starts_with("sm_90", ""));
    assert!(!starts_with("sm", "sm_"));
    assert!(contains_text("aab", "ab"));
    assert!(contains_text("aab", ""));
    assert!(contains_text("", ""));
    assert!(!contains_text("ab", "aab"));
    assert!(same_text("h\u{e9}", "h\u{e9}"));
    assert!(!same_text("a", "b"));
}

#[test]
fn texts_are_put_together() {
    assert_eq!(concat2("a", "b"), "ab");
    assert_eq!(concat3("a", "", "c"), "ac");
    let parts = vec!["x".to_string(), String::new(), "z".to_string()];
    assert_eq!(join_texts(&parts, ", "), "x, , z");
    assert_eq!(join_texts(&vec!["x".to_string()], ", "), "x");
    assert_eq!(join_texts(&vec![], ", "), "");
}

#[test]
fn white_space_is_trimmed_at_both_ends() {
    assert_eq!(trim("  a b\t\n"), "a b");
    assert_eq!(trim("\u{3000}\u{a0}x\u{2028}"), "x");
    assert_eq!(trim("\u{200b}"), "\u{200b}");
    assert_eq!(trim(" \n"), "");
    assert_eq!(trim(""), "");
}

#[test]
fn paths_join_with_one_separator() {
    assert_eq!(join_path("/a", "b"), "/a/b");
    assert_eq!(join_path("/a/", "b"), "/a/b");
    assert_eq!(join_path("", "b"), "b");
    assert_eq!(join_path("/", "b/c"), "/b/c");
}

#[test]
fn identifiers_follow_their_grammar() {
    assert_eq!(to_identifier("llvm_nvvm_x1"), Some("llvm_nvvm_x1".to_string()));
    assert_eq!(to_identifier("_x"), Some("_x".to_string()));
    assert_eq!(to_identifier("1x"), None);
    assert_eq!(to_identifier("a.b"), None);
    assert_eq!(to_identifier(""), None);
}
