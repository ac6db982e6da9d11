use lianli_control::order::{less, sort_texts};
use lianli_control::path;
use lianli_control::properties::Properties;
use lianli_control::text;

fn texts(list: &[&str]) -> Vec<String> {
    list.iter().map(|one| one.to_string()).collect()
}

#[test]
fn lines_and_words_are_those_of_the_text() {
    assert_eq!(text::lines("a\nb\r\nc"), texts(&["a", "b", "c"]));
    assert_eq!(text::lines("a\n"), texts(&["a"]));
    assert_eq!(text::lines(""), texts(&[]));
    assert_eq!(text::split_whitespace("  a \t b\u{a0}c "), texts(&["a", "b", "c"]));
    assert_eq!(text::split("a,,b", ','), texts(&["a", "", "b"]));
    assert_eq!(
        text::split_once("name=value=rest", '='),
        Some(("name".to_string(), "value=rest".to_string()))
    );
    assert_eq!(text::split_once("none", '='), None);
    assert_eq!(text::trim(" \n a b\t"), "a b");
    assert_eq!(text::trim("   "), "");
}

#[test]
fn prefixes_parts_and_suffixes_are_found() {
    assert_eq!(text::strip_prefix("prefix-rest", "prefix-"), Some("rest".to_string()));
    assert_eq!(text::strip_prefix("pre", "prefix"), None);
    assert_eq!(text::strip_suffix("file.json", ".json"), Some("file".to_string()));
    assert!(text::contains("abcabd", "abd"));
    assert!(!text::contains("abc", "abd"));
    assert!(text::contains("abc", ""));
    assert_eq!(text::replace("a$b$", '$', "$$"), "a$$b$$");
    assert_eq!(text::replace_all("aXXbXX", "XX", "y"), "ayby");
    assert_eq!(text::replace_once("aXXbXX", "XX", "y"), "aybXX");
    assert_eq!(text::lower("AbC-1"), "abc-1");
    assert_eq!(text::take("abcdef", 3), "abc");
    assert_eq!(text::join(&texts(&["a", "b"]), ", "), "a, b");
}

#[test]
fn numbers_are_read_and_written() {
    assert_eq!(text::parse_u32("4294967295"), Some(u32::MAX));
    assert_eq!(text::parse_u32("4294967296"), None);
    assert_eq!(text::parse_u32("+7"), Some(7));
    assert_eq!(text::parse_u32("-1"), None);
    assert_eq!(text::parse_u32(""), None);
    assert_eq!(text::parse_u64("9007199254740993"), Some(9007199254740993));
    assert_eq!(text::parse("ff", 16, 1000), Some(255));
    assert_eq!(text::parse("ff", 16, 100), None);
    assert_eq!(text::format_u64(0), "0");
    assert_eq!(text::format_u64(u64::MAX), "18446744073709551615");
    assert_eq!(text::format_hex(&vec![0, 15, 255]), "000fff");
    assert!(text::is_hex_of_len("0aF", 3));
    assert!(!text::is_hex_of_len("0ag", 3));
}

#[test]
fn paths_are_compared_by_their_parts() {
    assert_eq!(path::components("/a//b/./c/"), path::components("/a/b/c"));
    assert!(path::same("/a//b", "/a/b/"));
    assert!(!path::same("a/b", "/a/b"));
    assert!(path::descending("/a/b"));
    assert!(!path::descending("/a/../b"));
    assert_eq!(path::file_name("/a/b.json"), Some("b.json".to_string()));
    assert_eq!(path::file_name("/"), None);
    assert_eq!(path::parent("/a/b"), Some("/a".to_string()));
    assert_eq!(path::parent("/"), None);
    assert_eq!(path::join("/a", "b"), "/a/b");
    assert_eq!(path::join("/a/", "b"), "/a/b");
    assert_eq!(path::join("/a", "/b"), "/b");
}

#[test]
fn texts_are_ordered_as_their_bytes_are() {
    assert!(less("a", "b"));
    assert!(less("a", "aa"));
    assert!(!less("b", "a"));
    assert!(!less("a", "a"));
    assert_eq!(
        sort_texts(&texts(&["b", "aa", "a", "\u{e9}", "Z"])),
        texts(&["Z", "a", "aa", "b", "\u{e9}"])
    );
}

#[test]
fn properties_keep_the_last_value_of_a_name() {
    let shown = Properties::parse("A=1\nB=two=2\nA=3\nno separator\n", '=');
    assert_eq!(shown.get("A"), Some(&"3".to_string()));
    assert!(shown.is("B", "two=2"));
    assert!(shown.get("C").is_none());
}
