use anchor_lldb::scan::{first_segment, substitute, to_camel_case, trim_end};
use anchor_lldb::text::{byte_list, decimal, join};

#[test]
fn camel_case_of_snake_case() {
    assert_eq!(to_camel_case("initialize_counter"), "InitializeCounter");
    assert_eq!(to_camel_case("__a__b_"), "AB");
    assert_eq!(to_camel_case(""), "");
    assert_eq!(to_camel_case("already"), "Already");
}

#[test]
fn decimal_numerals() {
    assert_eq!(decimal(0), "0");
    assert_eq!(decimal(7), "7");
    assert_eq!(decimal(64), "64");
    assert_eq!(decimal(1205), "1205");
}

#[test]
fn byte_list_is_an_array_literal() {
    assert_eq!(byte_list(&vec![1, 2, 3]), "[1, 2, 3]");
    assert_eq!(byte_list(&vec![]), "[]");
    assert_eq!(byte_list(&vec![255]), "[255]");
}

#[test]
fn join_puts_the_separator_between() {
    let parts = vec!["a".to_string(), "b".to_string(), "c".to_string()];
    assert_eq!(join(&parts, ", "), "a, b, c");
    assert_eq!(join(&vec![], ", "), "");
    assert_eq!(join(&vec!["x".to_string()], ", "), "x");
}

#[test]
fn first_segment_stops_at_the_separator() {
    assert_eq!(first_segment("payer.key", '.'), "payer");
    assert_eq!(first_segment("payer", '.'), "payer");
    assert_eq!(first_segment(".key", '.'), "");
}

#[test]
fn substitute_replaces_every_marker() {
    assert_eq!(substitute("use {crate_name}::{crate_name};", "{crate_name}", "demo"), "use demo::demo;");
    assert_eq!(substitute("aaa", "aa", "b"), "ba");
    assert_eq!(substitute("abc", "", "x"), "abc");
}

#[test]
fn trim_end_removes_trailing_white_space() {
    assert_eq!(trim_end("a \n\t"), "a");
    assert_eq!(trim_end("  a b"), "  a b");
    assert_eq!(trim_end(" \n"), "");
}
