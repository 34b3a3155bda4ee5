use cable::content::{Post, PostDate, Status};
use cable::tags::{generate_tags, tag_page_url, tag_to_slug, tag_url};

fn post(title: &str, slug: &str, tags: Vec<&str>) -> Post {
    Post {
        title: title.to_string(),
        date: PostDate::from_ymd(2026, 7, 21).unwrap(),
        slug: slug.to_string(),
        tags: tags.into_iter().map(String::from).collect(),
        status: Status::Published,
        body: String::new(),
        html: String::new(),
        source_path: format!("content/posts/{slug}.md"),
        output_path: format!("dist/posts/{slug}.html"),
        url: format!("/posts/{slug}.html"),
    }
}

#[test]
fn generate_tags_groups_posts_by_tag_name() {
    let posts = vec![
        post("One", "one", vec!["rust", "static sites"]),
        post("Two", "two", vec!["rust"]),
    ];

    let tags = generate_tags(&posts);

    let rust = tags.iter().find(|tag| tag.name == "rust").unwrap();
    let static_sites = tags.iter().find(|tag| tag.name == "static sites").unwrap();

    assert_eq!(rust.slug, "rust");
    assert_eq!(rust.posts.len(), 2);
    assert_eq!(rust.posts[0].slug, "one");
    assert_eq!(rust.posts[1].slug, "two");
    assert_eq!(static_sites.slug, "static-sites");
    assert_eq!(static_sites.posts.len(), 1);
    assert_eq!(static_sites.posts[0].slug, "one");
}

#[test]
fn tag_url_returns_slugged_html_filename() {
    assert_eq!(tag_url("Rust Tips"), "rust-tips.html");
}

#[test]
fn generate_tags_orders_names_and_keeps_repeats() {
    let posts = vec![
        post("A", "a", vec!["zeta", "alpha", "zeta"]),
        post("B", "b", vec!["Beta"]),
        post("C", "c", vec![]),
    ];
    let tags = generate_tags(&posts);
    let names: Vec<&str> = tags.iter().map(|t| t.name.as_str()).collect();
    assert_eq!(names, vec!["Beta", "alpha", "zeta"]);
    let zeta = &tags[2];
    assert_eq!(zeta.posts.len(), 2);
    assert_eq!(zeta.posts[0].slug, "a");
    assert_eq!(zeta.posts[1].slug, "a");
    assert_eq!(tags[0].slug, "beta");
}

#[test]
fn generate_tags_of_no_posts_is_empty() {
    let posts: Vec<Post> = Vec::new();
    assert!(generate_tags(&posts).is_empty());
}

#[test]
fn tag_slugs_and_page_addresses() {
    assert_eq!(tag_to_slug("  Hello,   World!! "), "hello-world");
    assert_eq!(tag_to_slug("C++ & Rust 2"), "c-rust-2");
    assert_eq!(tag_to_slug("---"), "");
    assert_eq!(tag_url("static sites"), "static-sites.html");
    assert_eq!(tag_page_url(&String::from("rust")), "/tags/rust.html");
}
