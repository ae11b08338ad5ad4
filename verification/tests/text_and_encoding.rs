use pinepods_web::encoding::basic_auth_header;
use pinepods_web::text::{chars_of, contains_text, i32_decimal, join2, join3, trim_trailing_slashes};

#[test]
fn contains_text_finds_runs() {
    assert!(contains_text("ERROR: duplicate key value violates", "duplicate key value"));
    assert!(contains_text("abc", ""));
    assert!(contains_text("abc", "abc"));
    assert!(!contains_text("abc", "abcd"));
    assert!(!contains_text("duplicate key", "duplicate key value"));
    assert!(contains_text("héllo wörld", "ö"));
    assert!(!contains_text("", "a"));
}

#[test]
fn trim_trailing_slashes_drops_only_trailing() {
    assert_eq!(trim_trailing_slashes("https://pods.example.com///"), "https://pods.example.com");
    assert_eq!(trim_trailing_slashes("https://pods.example.com"), "https://pods.example.com");
    assert_eq!(trim_trailing_slashes("////"), "");
    assert_eq!(trim_trailing_slashes(""), "");
    assert_eq!(trim_trailing_slashes("/a/b/"), "/a/b");
}

#[test]
fn i32_decimal_matches_display() {
    for n in [0, 7, 10, 42, -1, -10, 1234567, i32::MAX, i32::MIN] {
        assert_eq!(i32_decimal(n), n.to_string());
    }
}

#[test]
fn joins_and_chars() {
    assert_eq!(join2("ab", "cd"), "abcd");
    assert_eq!(join3("a", ":", "b"), "a:b");
    assert_eq!(chars_of("añb"), vec!['a', 'ñ', 'b']);
}

#[test]
fn basic_auth_header_encodes_credentials() {
    assert_eq!(basic_auth_header("user", "pass"), "Basic dXNlcjpwYXNz");
    assert_eq!(basic_auth_header("admin", "hunter2"), "Basic YWRtaW46aHVudGVyMg==");
    assert_eq!(basic_auth_header("", ""), "Basic Og==");
}
