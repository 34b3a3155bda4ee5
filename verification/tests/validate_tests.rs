use cable::content::{Post, PostDate, Status};
use cable::errors::BuildError;
use cable::markdown::LinkKind;
use cable::validate::{
    count_status, link_checks_from_events, markdown_link_checks, should_skip_link, strip_fragment,
    validate_duplicate_slugs, validate_result, validate_slug,
};

fn post(slug: &str, source_path: &str) -> Post {
    Post {
        title: slug.to_string(),
        date: PostDate::from_ymd(2026, 7, 5).unwrap(),
        slug: slug.to_string(),
        tags: Vec::new(),
        status: Status::Published,
        body: String::new(),
        html: String::new(),
        source_path: source_path.to_string(),
        output_path: String::new(),
        url: String::new(),
    }
}

#[test]
fn validate_duplicate_slugs_reports_both_paths() {
    let posts = vec![
        post("hello", "content/posts/one.md"),
        post("hello", "content/posts/two.md"),
    ];

    let error = validate_duplicate_slugs(&posts).unwrap_err();

    assert!(matches!(
        error,
        BuildError::DuplicateSlug {
            ref slug,
            ref first_path,
            ref second_path
        } if slug == "hello"
            && first_path == "content/posts/one.md"
            && second_path == "content/posts/two.md"
    ));
}

#[test]
fn validate_slug_rejects_invalid_slug() {
    let post = post("Hello World", "content/posts/hello.md");

    let error = validate_slug(&post).unwrap_err();

    assert!(matches!(error, BuildError::InvalidSlug { .. }));
}

#[test]
fn validate_slug_accepts_and_rejects_by_the_slug_rules() {
    for ok in ["hello", "hello-world", "a1-2b", "2026"] {
        assert!(validate_slug(&post(ok, "p.md")).is_ok(), "{ok}");
    }
    for bad in ["", "-hello", "hello-", "hello--world", "Hello", "héllo", "a_b"] {
        assert!(validate_slug(&post(bad, "p.md")).is_err(), "{bad}");
    }
}

#[test]
fn validate_duplicate_slugs_reports_first_repeat() {
    let posts = vec![
        post("a", "a.md"),
        post("b", "b.md"),
        post("b", "b2.md"),
        post("a", "a2.md"),
    ];
    match validate_duplicate_slugs(&posts).unwrap_err() {
        BuildError::DuplicateSlug { slug, first_path, second_path } => {
            assert_eq!(slug, "b");
            assert_eq!(first_path, "b.md");
            assert_eq!(second_path, "b2.md");
        }
        other => panic!("unexpected error {:?}", other),
    }
    assert!(validate_duplicate_slugs(&[post("a", "a.md"), post("b", "b.md")]).is_ok());
}

#[test]
fn links_that_are_skipped() {
    for link in ["", "#top", "/abs/path", "https://example.com", "mailto:me@example.com", "tel:123"] {
        assert!(should_skip_link(link), "{link}");
    }
    for link in ["other.md", "../img.png", "notes.md#part"] {
        assert!(!should_skip_link(link), "{link}");
    }
}

#[test]
fn strip_fragment_keeps_text_before_hash_or_query() {
    assert_eq!(strip_fragment("notes.md#part"), "notes.md");
    assert_eq!(strip_fragment("notes.md?x=1#y"), "notes.md");
    assert_eq!(strip_fragment("notes.md"), "notes.md");
    assert_eq!(strip_fragment("#only"), "");
}

#[test]
fn link_checks_keep_only_local_links_of_checked_kinds() {
    let events = vec![
        None,
        Some((LinkKind::Inline, String::from("other.md#x"))),
        Some((LinkKind::Autolink, String::from("local.md"))),
        Some((LinkKind::Shortcut, String::from("https://example.com"))),
        Some((LinkKind::Reference, String::from("img/a.png?v=2"))),
    ];
    let checks = link_checks_from_events(&events, "content/posts");
    assert_eq!(checks.len(), 2);
    assert_eq!(checks[0].link, "other.md#x");
    assert_eq!(checks[0].target, "content/posts/other.md");
    assert_eq!(checks[1].link, "img/a.png?v=2");
    assert_eq!(checks[1].target, "content/posts/img/a.png");
}

#[test]
fn markdown_link_checks_read_links_from_the_body() {
    let mut p = post("hello", "content/posts/hello.md");
    p.body = String::from("See [other](other.md), [site](https://x.org) and [top](#top).\n\n[ref]: ignored.md\n");
    let checks = markdown_link_checks(&p, "content/posts/hello.md");
    assert_eq!(checks.len(), 1);
    assert_eq!(checks[0].link, "other.md");
    assert_eq!(checks[0].target, "content/posts/other.md");
}

#[test]
fn counts_of_published_posts_and_drafts() {
    let mut draft = post("d", "d.md");
    draft.status = Status::Draft;
    let posts = vec![post("a", "a.md"), draft, post("b", "b.md")];
    assert_eq!(count_status(&posts, Status::Published), 2);
    assert_eq!(count_status(&posts, Status::Draft), 1);
    let result = validate_result(&posts);
    assert_eq!(result.posts, 2);
    assert_eq!(result.drafts, 1);
}
