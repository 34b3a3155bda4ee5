use cable::errors::BuildError;
use cable::paths::join_path;
use cable::routes::{post_output_path, post_url, post_url_for_source};

fn s(x: &str) -> String {
    String::from(x)
}

#[test]
fn post_url_replaces_every_slug_placeholder_and_adds_html() {
    assert_eq!(post_url(&s("/posts/:slug"), &s("hello")).unwrap(), "/posts/hello.html");
    assert_eq!(post_url(&s("/:slug/:slug"), &s("/a/")).unwrap(), "/a/a.html");
    assert_eq!(post_url(&s(":slug"), &s("//x//")).unwrap(), "x.html");
}

#[test]
fn post_url_requires_slug_placeholder() {
    match post_url(&s("/posts/"), &s("hello")).unwrap_err() {
        BuildError::MissingRouteSlug { route } => assert_eq!(route, "/posts/"),
        other => panic!("unexpected error {:?}", other),
    }
}

#[test]
fn post_output_path_joins_url_without_leading_slashes() {
    assert_eq!(post_output_path(&s("dist"), &s("/posts/a.html")), "dist/posts/a.html");
    assert_eq!(post_output_path(&s("dist/"), &s("//posts/a.html")), "dist/posts/a.html");
    assert_eq!(post_output_path(&s(""), &s("/a.html")), "a.html");
}

#[test]
fn join_path_follows_path_buf_push() {
    assert_eq!(join_path("a", "b"), "a/b");
    assert_eq!(join_path("a/", "b"), "a/b");
    assert_eq!(join_path("a", "/b"), "/b");
    assert_eq!(join_path("", "b"), "b");
    assert_eq!(join_path("a", ""), "a/");
    let std_join = std::path::Path::new("x/y").join("z.md");
    assert_eq!(join_path("x/y", "z.md"), std_join.to_string_lossy());
}

#[test]
fn post_url_for_source_nests_under_source_directories() {
    let url = post_url_for_source(
        &s("./posts/:slug"),
        &s("hello"),
        &s("root/content/posts"),
        &s("root/content/posts/nested/hello.md"),
    )
    .unwrap();
    assert_eq!(url, "/posts/nested/hello.html");
    let flat = post_url_for_source(
        &s("/posts/:slug"),
        &s("hello"),
        &s("root/content/posts/"),
        &s("root/content/posts/hello.md"),
    )
    .unwrap();
    assert_eq!(flat, "/posts/hello.html");
}

#[test]
fn post_url_for_source_reports_sources_outside_the_posts_directory() {
    match post_url_for_source(&s("/:slug"), &s("a"), &s("content/posts"), &s("content/other/a.md")).unwrap_err() {
        BuildError::SourceOutsidePostsDirectory { posts_dir, source_path } => {
            assert_eq!(posts_dir, "content/posts");
            assert_eq!(source_path, "content/other/a.md");
        }
        other => panic!("unexpected error {:?}", other),
    }
    assert!(matches!(
        post_url_for_source(&s("/posts/"), &s("a"), &s("content/posts"), &s("content/posts/a.md")),
        Err(BuildError::MissingRouteSlug { .. })
    ));
}
