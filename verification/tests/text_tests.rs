use cable::slug::title_to_slug;
use cable::text::{
    replace_all, str_contains, str_ends_with, str_eq, str_lt, str_starts_with, trim_matches_char,
};

#[test]
fn replace_all_matches_str_replace() {
    for (s, p, r) in [
        ("aaa", "aa", "b"),
        ("/posts/:slug/:slug", ":slug", "x"),
        ("no match", "zz", "y"),
        ("\r\n\r\n", "\r\n", "\n"),
        ("abc", "abc", ""),
    ] {
        assert_eq!(replace_all(s, p, r), s.replace(p, r), "{s:?} {p:?}");
    }
}

#[test]
fn string_predicates_match_std() {
    assert!(str_contains("a://b", "://"));
    assert!(!str_contains("a:/b", "://"));
    assert!(str_contains("abc", ""));
    assert!(str_starts_with("mailto:x", "mailto:"));
    assert!(str_ends_with("slug-", "-"));
    assert!(!str_ends_with("", "-"));
    assert!(str_eq("md", "md"));
    assert!(!str_eq("md", "mdx"));
}

#[test]
fn str_lt_matches_str_order() {
    let words = ["", "a", "B", "b", "ab", "static sites", "rust", "é", "z"];
    for a in words {
        for b in words {
            assert_eq!(str_lt(a, b), a < b, "{a:?} {b:?}");
        }
    }
}

#[test]
fn trim_matches_char_matches_std() {
    for s in ["//a//", "a", "", "///", "/a/b/"] {
        assert_eq!(trim_matches_char(s, '/'), s.trim_matches('/'));
    }
}

#[test]
fn title_slugs() {
    assert_eq!(title_to_slug("Hello World"), "hello-world");
    assert_eq!(title_to_slug("Rust 2026: What's New?"), "rust-2026-what-s-new");
    assert_eq!(title_to_slug("already-a-slug"), "already-a-slug");
    assert_eq!(title_to_slug(&title_to_slug("  Mixed  CASE  ")), title_to_slug("  Mixed  CASE  "));
    assert_eq!(title_to_slug("café"), "caf");
}
