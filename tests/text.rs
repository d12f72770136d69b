use gen_commit::text::{concat_text, contains_text, find_char, lowercase_text, same_text, split_text, trim_text};

#[test]
fn trims_white_space() {
    assert_eq!(trim_text("  hello  "), "hello");
    assert_eq!(trim_text("\u{3000}\tx y\r\n"), "x y");
    assert_eq!(trim_text("   "), "");
}

#[test]
fn finds_text() {
    assert!(contains_text("src/main.rs", ".rs"));
    assert!(!contains_text("src/main.go", ".rs"));
    assert_eq!(find_char("a:b:c", ':'), Some(1));
    assert_eq!(find_char("abc", ':'), None);
}

#[test]
fn compares_and_joins() {
    assert!(same_text("abc", "abc"));
    assert!(!same_text("abc", "abd"));
    assert!(!same_text("ab", "abc"));
    assert_eq!(concat_text("Bearer ", "k"), "Bearer k");
    assert_eq!(lowercase_text("YeS"), "yes");
}

#[test]
fn splits_on_separator() {
    assert_eq!(split_text("a,,b", ','), vec!["a", "", "b"]);
    assert_eq!(split_text("", ','), vec![""]);
    assert_eq!(split_text("a,", ','), vec!["a", ""]);
}
