use cable::config::{BlogConfig, ContentConfig, OutputConfig, RouteConfig, SiteConfig};
use cable::content::{Post, PostDate, Status};
use cable::dev::{content_type_for_extension, get_content_type, requested_file, should_rebuild};
use cable::errors::BuildError;
use cable::markdown::to_html;
use cable::ordering::published_newest_first;
use cable::site::{build_pages, prepare_posts, sitemap_urls, validate_routes};
use cable::tags::generate_tags;

fn post(slug: &str, date: (i32, u32, u32), status: Status, tags: Vec<&str>) -> Post {
    Post {
        title: slug.to_uppercase(),
        date: PostDate::from_ymd(date.0, date.1, date.2).unwrap(),
        slug: slug.to_string(),
        tags: tags.into_iter().map(String::from).collect(),
        status,
        body: format!("# {slug}\n\nText."),
        html: String::new(),
        source_path: format!("root/content/posts/{slug}.md"),
        output_path: String::new(),
        url: String::new(),
    }
}

fn config() -> BlogConfig {
    BlogConfig {
        site: SiteConfig {
            title: String::from("Test Blog"),
            description: String::from("A test site"),
            url: String::from("https://example.com"),
        },
        content: ContentConfig { posts: String::from("content/posts") },
        output: OutputConfig { directory: String::from("dist") },
        routes: RouteConfig { post: String::from("./posts/:slug") },
    }
}

#[test]
fn published_posts_come_newest_first_and_ties_keep_order() {
    let posts = vec![
        post("old", (2025, 1, 1), Status::Published, vec![]),
        post("draft", (2027, 1, 1), Status::Draft, vec![]),
        post("new", (2026, 7, 5), Status::Published, vec![]),
        post("same-a", (2026, 3, 1), Status::Published, vec![]),
        post("same-b", (2026, 3, 1), Status::Published, vec![]),
    ];
    let ordered = published_newest_first(posts);
    let slugs: Vec<&str> = ordered.iter().map(|p| p.slug.as_str()).collect();
    assert_eq!(slugs, vec!["new", "same-a", "same-b", "old"]);
}

#[test]
fn prepare_posts_fills_html_url_and_output_path() {
    let posts = vec![post("hello", (2026, 7, 5), Status::Published, vec!["rust"])];
    let prepared = prepare_posts(posts, &String::from("./posts/:slug"), &String::from("root/content/posts"), &String::from("root/dist")).unwrap();
    assert_eq!(prepared[0].url, "/posts/hello.html");
    assert_eq!(prepared[0].output_path, "root/dist/posts/hello.html");
    assert_eq!(prepared[0].html, to_html("# hello\n\nText.").unwrap());
    assert!(prepared[0].html.contains("<h1>hello</h1>"));
}

#[test]
fn prepare_posts_and_validate_routes_report_the_first_error() {
    let mut outside = post("b", (2026, 1, 1), Status::Published, vec![]);
    outside.source_path = String::from("elsewhere/b.md");
    let posts = vec![post("a", (2026, 1, 1), Status::Published, vec![]), outside];
    assert!(matches!(
        validate_routes(&posts, &String::from("/:slug"), &String::from("root/content/posts")),
        Err(BuildError::SourceOutsidePostsDirectory { .. })
    ));
    assert!(matches!(
        prepare_posts(posts, &String::from("/posts"), &String::from("root/content/posts"), &String::from("dist")),
        Err(BuildError::MissingRouteSlug { .. })
    ));
}

#[test]
fn site_pages_are_index_posts_then_tags() {
    let config = config();
    let posts = vec![post("hello", (2026, 7, 5), Status::Published, vec!["rust"])];
    let posts = prepare_posts(posts, &config.routes.post, &String::from("root/content/posts"), &String::from("root/dist")).unwrap();
    let tags = generate_tags(&posts);
    let pages = build_pages(&config, &posts, &tags, &String::from("root/dist")).unwrap();
    assert_eq!(pages.len(), 3);
    assert_eq!(pages[0].url, "/");
    assert_eq!(pages[0].output_path, "root/dist/index.html");
    assert_eq!(pages[1].url, "/posts/hello.html");
    assert_eq!(pages[1].output_path, "root/dist/posts/hello.html");
    assert_eq!(pages[2].url, "/tags/rust.html");
    assert_eq!(pages[2].output_path, "root/dist/tags/rust.html");
    assert!(pages[2].contents.contains("<h1>rust</h1>"));
    let urls = sitemap_urls(&pages);
    assert_eq!(urls, vec!["/", "/posts/hello.html", "/tags/rust.html"]);
}

#[test]
fn content_types_by_extension() {
    assert_eq!(get_content_type("dist/index.html"), "text/html; charset=utf8");
    assert_eq!(get_content_type("dist/a.jpeg"), "image/jpeg");
    assert_eq!(get_content_type("dist/style.css"), "text/css; charset=utf8");
    assert_eq!(get_content_type("dist/README"), "text/plain");
    assert_eq!(get_content_type("dist/a.zip"), "text/plain; charset=utf8");
    assert_eq!(content_type_for_extension(Some("png")), "image/png");
    assert_eq!(content_type_for_extension(Some("pdf")), "application/pdf");
    assert_eq!(content_type_for_extension(None), "text/plain");
}

#[test]
fn requests_map_to_files_under_the_output_directory() {
    assert_eq!(requested_file("dist", "/"), "dist/index.html");
    assert_eq!(requested_file("dist", "/?x=1"), "dist/index.html");
    assert_eq!(requested_file("dist", "/posts/a.html?v=2"), "dist/posts/a.html");
    assert_eq!(requested_file("dist/", "//style.css"), "dist/style.css");
}

#[test]
fn rebuilds_wait_for_changes_and_cooldown() {
    assert!(should_rebuild(2, 1500, 1000));
    assert!(!should_rebuild(0, 1500, 1000));
    assert!(!should_rebuild(1, 999, 1000));
    assert!(should_rebuild(1, 1000, 1000));
}


#[test]
fn build_plan_keeps_drafts_out_of_pages_and_sitemap() {
    let config = config();
    let mut hello = post("hello", (2026, 7, 5), Status::Published, vec!["rust"]);
    hello.source_path = String::from("root/content/posts/nested/hello.md");
    let posts = vec![hello, post("draft", (2026, 7, 6), Status::Draft, vec!["drafts"])];
    let plan = cable::site::plan_site(&config, posts, &String::from("root/content/posts"), &String::from("root/dist")).unwrap();
    assert_eq!(plan.posts.len(), 1);
    assert_eq!(plan.tag_names, vec!["rust"]);
    let urls: Vec<&str> = plan.pages.iter().map(|p| p.url.as_str()).collect();
    assert_eq!(urls, vec!["/", "/posts/nested/hello.html", "/tags/rust.html"]);
    assert_eq!(plan.sitemap_urls, urls);
    assert!(plan.sitemap.contains("<loc>https://example.com/</loc>"));
    assert!(plan.sitemap.contains("<loc>https://example.com/posts/nested/hello.html</loc>"));
    assert!(plan.sitemap.contains("<loc>https://example.com/tags/rust.html</loc>"));
    assert!(!plan.sitemap.contains("draft"));
    assert!(plan.pages.iter().all(|p| !p.contents.contains("DRAFT")));
}
