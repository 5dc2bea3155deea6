use volta::text::{
    chars_of, concat_text, decimal_string, is_white_space, join_path, parent_path, string_from_chars,
    tool_version, trim_chars,
};

fn trim(s: &str) -> String {
    string_from_chars(&trim_chars(&chars_of(s)))
}

#[test]
fn trim_removes_surrounding_white_space() {
    assert_eq!(trim("  cowsay-1.4.0.tgz\n"), "cowsay-1.4.0.tgz");
    assert_eq!(trim("\t\r\n"), "");
    assert_eq!(trim(""), "");
    assert_eq!(trim("a b"), "a b");
    assert_eq!(trim("\u{3000}x\u{a0}"), "x");
}

#[test]
fn trim_agrees_with_std() {
    for s in ["  x ", "\u{85}y\u{2028}", "no-space", " \u{200b}z "] {
        assert_eq!(trim(s), s.trim());
    }
}

#[test]
fn white_space_classification() {
    assert!(is_white_space(' '));
    assert!(is_white_space('\u{2009}'));
    assert!(!is_white_space('a'));
    assert!(!is_white_space('\u{200b}'));
}

#[test]
fn join_path_follows_path_join() {
    assert_eq!(join_path("/home/u/.volta", "cache"), "/home/u/.volta/cache");
    assert_eq!(join_path("/home/u/.volta/", "cache"), "/home/u/.volta/cache");
    assert_eq!(join_path("", "cache"), "cache");
    assert_eq!(join_path("/home", "/etc/passwd"), "/etc/passwd");
    for (a, b) in [("/a/b", "c"), ("a/", "b/c"), ("x", "")] {
        let expected = std::path::Path::new(a).join(b);
        assert_eq!(join_path(a, b), expected.to_str().unwrap());
    }
}

#[test]
fn tool_version_joins_with_at() {
    assert_eq!(tool_version("cowsay", "1.4.0"), "cowsay@1.4.0");
    assert_eq!(tool_version("@scope/pkg", "2.0.0"), "@scope/pkg@2.0.0");
}

#[test]
fn string_round_trip() {
    let s = "héllo wörld";
    assert_eq!(string_from_chars(&chars_of(s)), s);
}

#[test]
fn parent_path_follows_path_parent() {
    for p in [
        "/a/b/c.tgz", "a/b", "a/b/", "/a", "a", "/", "", "a//b", "./a", "/a/b//", "//a", "a/./b",
        "a/b/.", "/./a", ".", "./.", "a/..", "x/./././y",
    ] {
        let expected = std::path::Path::new(p).parent().map(|q| q.to_str().unwrap().to_string());
        assert_eq!(parent_path(p), expected, "parent of {:?}", p);
    }
}

#[test]
fn decimal_string_matches_to_string() {
    for n in [0u64, 7, 10, 99, 1234567890, u64::MAX] {
        assert_eq!(decimal_string(n), n.to_string());
    }
}

#[test]
fn concat_joins() {
    assert_eq!(concat_text("ab", "cd"), "abcd");
    assert_eq!(concat_text("", ""), "");
}
