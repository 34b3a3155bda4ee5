use cable::config::{BlogConfig, ContentConfig, OutputConfig, RouteConfig, SiteConfig};
use cable::content::{Post, PostDate, Status};
use cable::feed::generate_feed;
use cable::render::{absolute_url, default_css, render_index, render_post, render_sitemap, render_tag};
use cable::tags::generate_tags;

fn config() -> BlogConfig {
    BlogConfig {
        site: SiteConfig {
            title: String::from("Tom & Jerry's <Blog>"),
            description: String::from("Notes \"quoted\" & more"),
            url: String::from("https://example.com/"),
        },
        content: ContentConfig { posts: String::from("content/posts") },
        output: OutputConfig { directory: String::from("dist") },
        routes: RouteConfig { post: String::from("/posts/:slug") },
    }
}

fn post(title: &str, slug: &str, tags: Vec<&str>) -> Post {
    Post {
        title: title.to_string(),
        date: PostDate::from_ymd(2026, 7, 5).unwrap(),
        slug: slug.to_string(),
        tags: tags.into_iter().map(String::from).collect(),
        status: Status::Published,
        body: String::from("# Hi"),
        html: String::from("<h1>Hi</h1>\n"),
        source_path: format!("content/posts/{slug}.md"),
        output_path: format!("dist/posts/{slug}.html"),
        url: format!("/posts/{slug}.html"),
    }
}

// The page templates written out directly with `format!`: the expected output.

struct ExpectedPageMeta<'a> {
    title: &'a str,
    description: &'a str,
    canonical_url: Option<&'a str>,
    body_class: &'a str,
    og_type: &'a str,
}

fn expected_render_index(config: &BlogConfig, posts: &[Post]) -> Result<String, ()> {
    let site_title = html_escape::encode_text(&config.site.title);
    let site_description = html_escape::encode_text(&config.site.description);

    let header = expected_render_site_header(config);
    let post_list = expected_render_post_list(posts);

    let body = format!(
        r#"<main class="site">
    {header}

    <section class="hero">
        <p class="eyebrow">Latest posts</p>
        <h1>{site_title}</h1>
        <p>{site_description}</p>
    </section>

    <section class="post-list" aria-label="Posts">
        {post_list}
    </section>
</main>"#
    );

    expected_render_page(
        config,
        ExpectedPageMeta {
            title: &config.site.title,
            description: &config.site.description,
            canonical_url: None,
            body_class: "page page-index",
            og_type: "website",
        },
        &body,
    )
}

fn expected_render_post(config: &BlogConfig, post: &Post) -> Result<String, ()> {
    let page_title = format!("{} | {}", post.title, config.site.title);

    let post_title = html_escape::encode_text(&post.title);

    let date = &post.date.to_text();
    let post_date = html_escape::encode_text(date);
    let datetime = html_escape::encode_double_quoted_attribute(date);

    let header = expected_render_site_header(config);
    let tags = expected_render_tags(&post.tags);

    // post.html is already rendered Markdown HTML.
    let post_body = &post.html;

    let body = format!(
        r#"<main class="site">
    {header}

    <article class="post">
        <header class="post-header">
            <a class="back-link" href="/">&larr; All posts</a>

            <h1>{post_title}</h1>

            <div class="post-meta">
                <time datetime="{datetime}">{post_date}</time>
                {tags}
            </div>
        </header>

        <div class="post-content">
            {post_body}
        </div>
    </article>
</main>"#
    );

    let canonical_url = expected_absolute_url(&config.site.url, &post.url);

    expected_render_page(
        config,
        ExpectedPageMeta {
            title: &page_title,
            description: &config.site.description,
            canonical_url: Some(&canonical_url),
            body_class: "page page-post",
            og_type: "article",
        },
        &body,
    )
}

fn expected_render_page(
    config: &BlogConfig,
    meta: ExpectedPageMeta<'_>,
    body: &str,
) -> Result<String, ()> {
    let site_title = html_escape::encode_double_quoted_attribute(&config.site.title);
    let page_title_text = html_escape::encode_text(meta.title);
    let page_title_attr = html_escape::encode_double_quoted_attribute(meta.title);
    let description = html_escape::encode_double_quoted_attribute(meta.description);
    let body_class = html_escape::encode_double_quoted_attribute(meta.body_class);
    let og_type = html_escape::encode_double_quoted_attribute(meta.og_type);

    let canonical = match meta.canonical_url {
        Some(url) => {
            let url = html_escape::encode_double_quoted_attribute(url);
            format!(r#"<link rel="canonical" href="{url}">"#)
        }
        None => String::new(),
    };

    let html = format!(
        r#"<!doctype html>
<html lang="en">
<head>
    <meta charset="utf-8">
    <meta name="viewport" content="width=device-width, initial-scale=1">
    <title>{page_title_text}</title>
    <meta name="description" content="{description}">
    <meta name="generator" content="Cable">
    <meta property="og:title" content="{page_title_attr}">
    <meta property="og:description" content="{description}">
    <meta property="og:site_name" content="{site_title}">
    <meta property="og:type" content="{og_type}">
    {canonical}
    <link rel="stylesheet" href="/style.css">
</head>
<body class="{body_class}">
{body}
</body>
</html>"#
    );

    Ok(html)
}

fn expected_render_site_header(config: &BlogConfig) -> String {
    let title = html_escape::encode_text(&config.site.title);
    let description = html_escape::encode_text(&config.site.description);

    format!(
        r#"<header class="site-header">
    <div>
        <a class="site-title" href="/">{title}</a>
        <p class="site-description">{description}</p>
    </div>
</header>"#
    )
}

fn expected_render_post_list(posts: &[Post]) -> String {
    if posts.is_empty() {
        return r#"<p class="empty-state">No posts published yet.</p>"#.to_string();
    }

    posts
        .iter()
        .map(expected_render_post_card)
        .collect::<Vec<_>>()
        .join("\n")
}

fn expected_render_post_card(post: &Post) -> String {
    let title = html_escape::encode_text(&post.title);

    let date = &post.date.to_text();
    let date_text = html_escape::encode_text(date);
    let datetime = html_escape::encode_double_quoted_attribute(date);
    let url = html_escape::encode_double_quoted_attribute(&post.url);
    let tags = expected_render_tags(&post.tags);

    format!(
        r#"<article class="post-card">
    <div class="post-card-meta">
        <time datetime="{datetime}">{date_text}</time>
        {tags}
    </div>

    <h2 class="post-card-title">
        <a href="{url}">{title}</a>
    </h2>
</article>"#
    )
}

fn expected_render_tags(tags: &[String]) -> String {
    if tags.is_empty() {
        return String::new();
    }

    let tags = tags
        .iter()
        .map(|tag| {
            let label = html_escape::encode_text(tag);
            format!(r#"<span class="tag">{label}</span>"#)
        })
        .collect::<Vec<_>>()
        .join("");

    format!(r#"<div class="tags">{tags}</div>"#)
}

fn expected_absolute_url(site_url: &str, path: &str) -> String {
    let site_url = site_url.trim_end_matches('/');
    let path = if path.starts_with('/') {
        path.to_string()
    } else {
        format!("/{path}")
    };

    format!("{site_url}{path}")
}


fn expected_generate_feed(config: &BlogConfig, posts: &Vec<Post>) -> String {
    let site_title = &config.site.title;
    let site_url = &config.site.url;
    let site_description = &config.site.description;
    let post_xml_list = expected_render_post_xml_list(site_url, posts);

    format!(
        r#"<?xml version="1.0" encoding="UTF-8" ?>
<rss version="2.0">

<channel>
  <title>{site_title}</title>
  <link>{site_url}</link>
  <description>{site_description}</description>
  {post_xml_list}
</channel>

</rss>"#
    )
}

fn expected_render_post_xml_list(site_url: &str, posts: &[Post]) -> String {
    if posts.is_empty() {
        return r#""#.to_string();
    }

    posts
        .iter()
        .map(|post| expected_render_post_xml(site_url, post))
        .collect::<Vec<_>>()
        .join("\n")
}

fn expected_render_post_xml(site_url: &str, post: &Post) -> String {
    let title = html_escape::encode_text(&post.title);
    let expected_absolute_url = expected_absolute_url(site_url, &post.url);
    let url = html_escape::encode_double_quoted_attribute(&expected_absolute_url);

    format!(
        r#"
  <item>
    <title>{title}</title>
    <link>{url}</link>
    <description>New XML tutorial on W3Schools</description>
  </item>"#
    )
}


#[test]
fn index_page_is_rendered_from_the_templates() {
    let config = config();
    let posts = vec![post("A <b>", "a", vec!["x & y"]), post("B", "b", vec![])];
    assert_eq!(render_index(&config, &posts).unwrap(), expected_render_index(&config, &posts).unwrap());
    assert_eq!(render_index(&config, &[]).unwrap(), expected_render_index(&config, &[]).unwrap());
    assert!(render_index(&config, &[]).unwrap().contains("No posts published yet."));
}

#[test]
fn post_page_is_rendered_from_the_templates() {
    let config = config();
    let p = post("Hello \"World\"", "hello", vec!["rust", "a<b"]);
    let page = render_post(&config, &p).unwrap();
    assert_eq!(page, expected_render_post(&config, &p).unwrap());
    assert!(page.contains(r#"<link rel="canonical" href="https://example.com/posts/hello.html">"#));
    assert!(page.contains(r#"<time datetime="2026-07-05">2026-07-05</time>"#));
    assert!(page.contains("<title>Hello \"World\" | Tom &amp; Jerry's &lt;Blog&gt;</title>"));
    assert!(page.contains(r#"<span class="tag">a&lt;b</span>"#));
}

#[test]
fn feed_is_rendered_from_the_template() {
    let config = config();
    let posts = vec![post("One & Two", "one", vec![]), post("Three", "three", vec![])];
    let feed = generate_feed(&config, &posts);
    assert_eq!(feed, expected_generate_feed(&config, &posts));
    assert!(feed.contains("<title>One &amp; Two</title>"));
    assert!(feed.contains("<link>https://example.com/posts/one.html</link>"));
    let empty = generate_feed(&config, &Vec::new());
    assert!(empty.contains("<channel>"));
    assert!(!empty.contains("<item>"));
}

#[test]
fn absolute_urls() {
    assert_eq!(absolute_url("https://example.com/", "/posts/a.html"), "https://example.com/posts/a.html");
    assert_eq!(absolute_url("https://example.com", "posts/a.html"), "https://example.com/posts/a.html");
    assert_eq!(absolute_url("https://example.com//", ""), "https://example.com/");
}

#[test]
fn default_css_is_the_stylesheet() {
    let css = default_css();
    assert!(css.starts_with(":root {"));
    assert!(css.contains(".post-card"));
}

#[test]
fn tag_page_links_each_post() {
    let mut config = config();
    config.site.url = String::from("https://example.com");
    let mut hello = post("Hello", "hello", vec!["rust"]);
    hello.url = String::from("/posts/nested/hello.html");
    let posts = vec![hello];
    let tags = generate_tags(&posts);
    let page = render_tag(&config, &tags[0]).unwrap();
    assert!(page.contains("<h1>rust</h1>"));
    assert!(page.contains(r#"<a href="/posts/nested/hello.html">Hello</a>"#));
    assert!(!page.contains(r#"href="./posts/nested/hello.html""#));
    assert!(page.contains(r#"<link rel="canonical" href="https://example.com/tags/rust.html">"#));
}

#[test]
fn sitemap_lists_absolute_addresses() {
    let mut config = config();
    config.site.url = String::from("https://example.com");
    let urls = vec![String::from("/"), String::from("/posts/nested/hello.html"), String::from("/tags/rust.html")];
    let sitemap = render_sitemap(&config, &urls).unwrap();
    assert!(sitemap.contains("<loc>https://example.com/</loc>"));
    assert!(sitemap.contains("<loc>https://example.com/posts/nested/hello.html</loc>"));
    assert!(sitemap.contains("<loc>https://example.com/tags/rust.html</loc>"));
    assert!(sitemap.starts_with("<?xml"));
    assert!(sitemap.ends_with("</urlset>\n"));
}
