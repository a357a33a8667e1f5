use storyboard::text::{
    all_distinct, contains, decimal, join_path, same_text, trim_trailing_slashes,
};

#[test]
fn decimal_renders_integers() {
    assert_eq!(decimal(0), "0");
    assert_eq!(decimal(7), "7");
    assert_eq!(decimal(10), "10");
    assert_eq!(decimal(1234567890), "1234567890");
    assert_eq!(decimal(-1), "-1");
    assert_eq!(decimal(-120), "-120");
    assert_eq!(decimal(i64::MAX), "9223372036854775807");
    assert_eq!(decimal(i64::MIN), "-9223372036854775808");
}

#[test]
fn decimal_agrees_with_display() {
    for n in [-1000i64, -99, -10, -9, 9, 99, 100, 101, 999_999, 1 << 40] {
        assert_eq!(decimal(n), n.to_string());
    }
}

#[test]
fn contains_finds_runs_of_bytes() {
    assert!(contains("hello world", "lo w"));
    assert!(contains("hello", "hello"));
    assert!(contains("hello", ""));
    assert!(contains("", ""));
    assert!(contains("hello", "o"));
    assert!(contains("hello", "h"));
    assert!(!contains("hello", "hello!"));
    assert!(!contains("", "a"));
    assert!(!contains("aab", "aba"));
    assert!(contains("aaab", "aab"));
    assert!(contains("分镜 mirror_id TEXT", "镜 m"));
}

#[test]
fn join_path_adds_one_separator() {
    assert_eq!(join_path("/home/u", ".storyboard"), "/home/u/.storyboard");
    assert_eq!(join_path("/home/u/", ".storyboard"), "/home/u/.storyboard");
    assert_eq!(join_path("", "x"), "x");
    assert_eq!(join_path("/", "x"), "/x");
    assert_eq!(join_path("项目", "一"), "项目/一");
}

#[test]
fn join_path_agrees_with_std_on_plain_segments() {
    for base in ["/a/b", "/a/b/", "rel", "/"] {
        let expected = std::path::Path::new(base).join("seg").to_string_lossy().into_owned();
        assert_eq!(join_path(base, "seg"), expected);
    }
}

#[test]
fn trailing_slashes_are_trimmed() {
    assert_eq!(trim_trailing_slashes("https://api.example.com/v1/"), "https://api.example.com/v1");
    assert_eq!(trim_trailing_slashes("https://api.example.com///"), "https://api.example.com");
    assert_eq!(trim_trailing_slashes("https://api.example.com"), "https://api.example.com");
    assert_eq!(trim_trailing_slashes("///"), "");
    assert_eq!(trim_trailing_slashes(""), "");
    assert_eq!(trim_trailing_slashes("/a/b"), "/a/b");
}

#[test]
fn distinct_texts_are_told_apart() {
    let a = "a".to_string();
    let b = "b".to_string();
    let a2 = "a".to_string();
    assert!(all_distinct(&vec![]));
    assert!(all_distinct(&vec![&a]));
    assert!(all_distinct(&vec![&a, &b]));
    assert!(!all_distinct(&vec![&a, &b, &a2]));
    assert!(!all_distinct(&vec![&a, &a2]));
    assert!(same_text("x", "x"));
    assert!(!same_text("x", "X"));
}
