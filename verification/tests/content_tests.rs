use cable::content::{
    is_markdown_extension, is_markdown_file, normalize_line_endings, parse_post_file,
    post_from_parsed_file, post_from_parts, Parsed, PostDate, PostFrontmatter, Status,
};
use cable::errors::BuildError;

fn valid_post() -> String {
    String::from(
        r#"---
title: "Hello World"
date: "2026-07-05"
slug: "hello-world"
tags:
  - intro
status: "published"
---

# Hello

Body text.
"#,
    )
}

fn frontmatter(date: &str) -> PostFrontmatter {
    PostFrontmatter {
        title: String::from("Hello World"),
        date: String::from(date),
        slug: String::from("hello-world"),
        tags: vec![String::from("intro")],
        status: Status::Published,
    }
}

#[test]
fn parse_post_file_splits_frontmatter_and_body() {
    let path = "hello.md";

    let parsed = parse_post_file(&valid_post(), path).unwrap();

    assert!(parsed.frontmatter.contains("title: \"Hello World\""));
    assert!(parsed.body.contains("# Hello"));
}

#[test]
fn invalid_frontmatter_date_returns_parse_date_error() {
    let parsed = Parsed {
        frontmatter: String::from(
            r#"title: "Bad Date"
date: "2026-13-05"
slug: "bad-date"
tags: []
status: "published"
"#,
        ),
        body: String::new(),
    };
    let fm = PostFrontmatter {
        title: String::from("Bad Date"),
        date: String::from("2026-13-05"),
        slug: String::from("bad-date"),
        tags: Vec::new(),
        status: Status::Published,
    };

    let error = post_from_parsed_file(fm, parsed, "bad-date.md").unwrap_err();

    assert!(matches!(error, BuildError::ParseDate { .. }));
}

#[test]
fn parse_post_file_splits_exactly_at_first_closing_delimiter() {
    let parsed = parse_post_file("---\na: 1\n---\nbody\n---\nmore", "p.md").unwrap();
    assert_eq!(parsed.frontmatter, "a: 1");
    assert_eq!(parsed.body, "body\n---\nmore");
}

#[test]
fn parse_post_file_drops_one_byte_order_mark() {
    let parsed = parse_post_file("\u{feff}---\ntitle: x\n---\nbody", "p.md").unwrap();
    assert_eq!(parsed.frontmatter, "title: x");
    assert_eq!(parsed.body, "body");
}

#[test]
fn parse_post_file_reports_missing_opening_delimiter() {
    let error = parse_post_file("title: x\n---\nbody", "content/posts/a.md").unwrap_err();
    match error {
        BuildError::MissingOpeningFrontmatter { path } => assert_eq!(path, "content/posts/a.md"),
        other => panic!("unexpected error {:?}", other),
    }
}

#[test]
fn parse_post_file_reports_missing_closing_delimiter() {
    let error = parse_post_file("---\ntitle: x\nbody", "content/posts/b.md").unwrap_err();
    match error {
        BuildError::MissingClosingFrontmatter { path } => assert_eq!(path, "content/posts/b.md"),
        other => panic!("unexpected error {:?}", other),
    }
}

#[test]
fn parse_post_file_round_trips_frontmatter_and_body() {
    let frontmatter = "title: \"Round\"\ndate: \"2026-01-02\"";
    let body = "\n# Round\n\nText.\n";
    let raw = format!("---\n{}\n---\n{}", frontmatter, body);
    let parsed = parse_post_file(&raw, "round.md").unwrap();
    assert_eq!(parsed.frontmatter, frontmatter);
    assert_eq!(parsed.body, body);
}

#[test]
fn normalize_line_endings_turns_crlf_into_lf() {
    assert_eq!(normalize_line_endings("a\r\nb\r\n"), "a\nb\n");
    assert_eq!(normalize_line_endings("a\rb\n"), "a\rb\n");
    assert_eq!(normalize_line_endings("\r\r\n"), "\r\n");
}

#[test]
fn post_from_parsed_file_fills_fields_from_frontmatter() {
    let parsed = Parsed {
        frontmatter: String::new(),
        body: String::from("Body text."),
    };
    let post = post_from_parsed_file(frontmatter("2026-07-05"), parsed, "content/posts/hello.md").unwrap();
    assert_eq!(post.title, "Hello World");
    assert_eq!(post.date.year(), 2026);
    assert_eq!(post.date.month(), 7);
    assert_eq!(post.date.day(), 5);
    assert_eq!(post.slug, "hello-world");
    assert_eq!(post.status, Status::Published);
    assert_eq!(post.body, "Body text.");
    assert_eq!(post.html, "");
    assert_eq!(post.source_path, "content/posts/hello.md");
    assert_eq!(post.output_path, "");
    assert_eq!(post.url, "/hello-world/");
}

#[test]
fn post_from_parts_reports_date_error_with_path_and_date() {
    let date = PostDate::parse("2026-02-30");
    assert!(date.is_err());
    let error = post_from_parts(frontmatter("2026-02-30"), String::new(), "x.md", date).unwrap_err();
    match error {
        BuildError::ParseDate { path, date, .. } => {
            assert_eq!(path, "x.md");
            assert_eq!(date, "2026-02-30");
        }
        other => panic!("unexpected error {:?}", other),
    }
}

#[test]
fn post_dates_parse_display_and_order() {
    let a = PostDate::parse("2026-07-05").unwrap();
    let b = PostDate::from_ymd(2026, 7, 21).unwrap();
    assert_eq!(a.to_text(), "2026-07-05");
    assert_eq!(b.to_text(), "2026-07-21");
    assert!(a.is_before(&b));
    assert!(!b.is_before(&a));
    assert!(!a.is_before(&a));
    assert!(PostDate::from_ymd(2026, 2, 29).is_none());
    assert!(PostDate::parse("not a date").is_err());
}

#[test]
fn markdown_files_are_found_by_extension() {
    assert!(is_markdown_file("content/posts/hello.md"));
    assert!(!is_markdown_file("content/posts/notes.txt"));
    assert!(!is_markdown_file("content/posts/md"));
    assert!(is_markdown_extension(Some("md")));
    assert!(!is_markdown_extension(Some("markdown")));
    assert!(!is_markdown_extension(None));
}
