use minecli::sort::{sort_by_key, str_lt};
use minecli::text::{
    contains, decimal, ends_with, parse_u32, replace, split_char, split_once, split_whitespace,
    starts_with, trim,
};

#[test]
fn string_searches() {
    assert!(starts_with("fabric-loader-1", "fabric"));
    assert!(!starts_with("fab", "fabric"));
    assert!(ends_with("mod.jar", ".jar"));
    assert!(contains("hello world", "o w"));
    assert!(contains("abc", ""));
    assert!(!contains("abc", "abcd"));
    assert_eq!(minecli::text::concat("a", "b"), "ab");
}

#[test]
fn replacing() {
    assert_eq!(replace("a-b-c", "-", "+"), "a+b+c");
    assert_eq!(replace("aaa", "aa", "b"), "ba");
    assert_eq!(replace("abc", "", "x"), "abc");
}

#[test]
fn splitting_and_trimming() {
    assert_eq!(split_whitespace("  a b\t\nc  "), vec!["a".to_string(), "b".to_string(), "c".to_string()]);
    assert!(split_whitespace("   ").is_empty());
    assert_eq!(split_once("a-b-c", '-'), Some(("a".to_string(), "b-c".to_string())));
    assert_eq!(split_once("abc", '-'), None);
    assert_eq!(trim("  x y \n"), "x y");
    assert_eq!(trim(" \t "), "");
}

#[test]
fn numbers() {
    assert_eq!(parse_u32("17"), Some(17));
    assert_eq!(parse_u32("+8"), Some(8));
    assert_eq!(parse_u32("4294967295"), Some(4294967295));
    assert_eq!(parse_u32("4294967296"), None);
    assert_eq!(parse_u32("-1"), None);
    assert_eq!(parse_u32(""), None);
    assert_eq!(parse_u32("1a"), None);
    assert_eq!(decimal(0), "0");
    assert_eq!(decimal(1234), "1234");
}

#[test]
fn lowercase_and_order() {
    assert!(str_lt("Beta", "alpha"));
    assert!(str_lt("alpha", "alpha2"));
    assert!(!str_lt("b", "a"));
    assert!(!str_lt("a", "a"));
    let sorted = sort_by_key(vec!["c".to_string(), "a".to_string(), "b".to_string(), "a".to_string()]);
    assert_eq!(sorted, vec!["a", "a", "b", "c"]);
}

#[test]
fn splitting_on_a_character() {
    assert_eq!(split_char("a//b", '/'), vec!["a".to_string(), "".to_string(), "b".to_string()]);
    assert_eq!(split_char("", '/'), vec!["".to_string()]);
    assert_eq!(split_char("x/", '/'), vec!["x".to_string(), "".to_string()]);
}
