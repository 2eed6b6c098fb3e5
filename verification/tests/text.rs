use federation_rs::text::{
    join_texts, nonempty_lines_of, replace_text, same_text, split_text, strip_cr_text,
    text_contains, text_less, text_starts_with, to_decimal, trim_text,
};

#[test]
fn decimals() {
    assert_eq!(to_decimal(0), "0");
    assert_eq!(to_decimal(1234567890), "1234567890");
    assert_eq!(to_decimal(u64::MAX), u64::MAX.to_string());
}

#[test]
fn searching_and_comparing() {
    assert!(same_text("abc", "abc"));
    assert!(!same_text("abc", "abd"));
    assert!(text_starts_with("harmonizer-2", "harmonizer"));
    assert!(text_contains("a-supergraph-b", "supergraph"));
    assert!(!text_contains("abc", "abcd"));
    assert!(text_less("apple", "banana"));
    assert!(text_less("app", "apple"));
    assert!(!text_less("b", "a"));
}

#[test]
fn rewriting() {
    assert_eq!(replace_text("aXbXc", "X", "--"), "a--b--c");
    assert_eq!(replace_text("abc", "", "-"), "abc".replace("", "-"));
    assert_eq!(join_texts(&vec!["a".to_string(), "b".to_string()], ", "), "a, b");
    assert_eq!(join_texts(&vec![], ", "), "");
    assert_eq!(split_text("a-b--c", '-'), vec!["a", "b", "", "c"]);
    assert_eq!(trim_text("\t hi there \u{3000}\n"), "hi there");
    assert_eq!(trim_text("   "), "");
    assert_eq!(strip_cr_text("line\r"), "line");
    assert_eq!(nonempty_lines_of("x\r\n\ny\n"), vec!["x", "y"]);
}
