//! The HTML pages of a site: the index, one page per post, and the shared page frame.
use vstd::prelude::*;
use crate::config::BlogConfig;
use crate::content::Post;
use crate::errors::BuildError;
use crate::tags::{Tag, tag_page_url, tag_page_url_spec, tag_post_values};
use crate::html::{encode_attr, encode_text, escape_attr, escape_text};
use crate::text::{starts_with_seq, str_starts_with, trim_end_char, trim_end_matches_char};

verus! {

/// What a page says about itself in its head.
struct PageMeta<'a> {
    title: &'a str,
    description: &'a str,
    canonical_url: Option<&'a str>,
    body_class: &'a str,
    og_type: &'a str,
}

/// The site header shared by every page.
pub open spec fn site_header_spec(config: &BlogConfig) -> Seq<char> {
    "<header class=\"site-header\">\n    <div>\n        <a class=\"site-title\" href=\"/\">"@ + escape_text(config.site.title@) + "</a>\n        <p class=\"site-description\">"@ + escape_text(config.site.description@) + "</p>\n    </div>\n</header>"@
}

fn render_site_header(config: &BlogConfig) -> (r: String)
    ensures
        r@ == site_header_spec(config),
{
    let title = encode_text(config.site.title.as_str());
    let description = encode_text(config.site.description.as_str());
    let mut out = String::from_str("<header class=\"site-header\">\n    <div>\n        <a class=\"site-title\" href=\"/\">");
    out.append(title.as_str());
    out.append("</a>\n        <p class=\"site-description\">");
    out.append(description.as_str());
    out.append("</p>\n    </div>\n</header>");
    out
}

/// One tag label.
pub open spec fn tag_span_spec(tag: String) -> Seq<char> {
    "<span class=\"tag\">"@ + escape_text(tag@) + "</span>"@
}

/// The tag labels, one after another.
pub open spec fn tag_spans_spec(tags: Seq<String>) -> Seq<char>
    decreases tags.len(),
{
    if tags.len() == 0 {
        Seq::empty()
    } else {
        tag_spans_spec(tags.drop_last()) + tag_span_spec(tags.last())
    }
}

/// The tag list of a post: nothing when it has no tags.
pub open spec fn tags_spec(tags: Seq<String>) -> Seq<char> {
    if tags.len() == 0 {
        Seq::empty()
    } else {
        "<div class=\"tags\">"@ + tag_spans_spec(tags) + "</div>"@
    }
}

fn render_tags(tags: &[String]) -> (r: String)
    ensures
        r@ == tags_spec(tags@),
{
    if tags.len() == 0 {
        return String::new();
    }
    let mut spans = String::new();
    let mut i: usize = 0;
    assert(tags@.take(0) =~= Seq::<String>::empty());
    while i < tags.len()
        invariant
            i <= tags.len(),
            spans@ == tag_spans_spec(tags@.take(i as int)),
        decreases tags.len() - i,
    {
        let label = encode_text(tags[i].as_str());
        let mut out = String::from_str("<span class=\"tag\">");
        out.append(label.as_str());
        out.append("</span>");
        assert(tags@.take(i + 1).drop_last() =~= tags@.take(i as int));
        spans.append(out.as_str());
        i = i + 1;
    }
    assert(tags@.take(i as int) =~= tags@);
    let mut out = String::from_str("<div class=\"tags\">");
    out.append(spans.as_str());
    out.append("</div>");
    out
}

/// The card of one post in the post list.
pub open spec fn post_card_spec(post: Post) -> Seq<char> {
    "<article class=\"post-card\">\n    <div class=\"post-card-meta\">\n        <time datetime=\""@ + escape_attr(post.date.text_spec()) + "\">"@ + escape_text(post.date.text_spec()) + "</time>\n        "@ + tags_spec(post.tags@) + "\n    </div>\n\n    <h2 class=\"post-card-title\">\n        <a href=\""@ + escape_attr(post.url@) + "\">"@ + escape_text(post.title@) + "</a>\n    </h2>\n</article>"@
}

fn render_post_card(post: &Post) -> (r: String)
    ensures
        r@ == post_card_spec(*post),
{
    let title = encode_text(post.title.as_str());
    let date = post.date.to_text();
    let date_text = encode_text(date.as_str());
    let datetime = encode_attr(date.as_str());
    let url = encode_attr(post.url.as_str());
    let tags = render_tags(post.tags.as_slice());
    let mut out = String::from_str("<article class=\"post-card\">\n    <div class=\"post-card-meta\">\n        <time datetime=\"");
    out.append(datetime.as_str());
    out.append("\">");
    out.append(date_text.as_str());
    out.append("</time>\n        ");
    out.append(tags.as_str());
    out.append("\n    </div>\n\n    <h2 class=\"post-card-title\">\n        <a href=\"");
    out.append(url.as_str());
    out.append("\">");
    out.append(title.as_str());
    out.append("</a>\n    </h2>\n</article>");
    out
}

/// The cards of the posts, one per line.
pub open spec fn post_cards_spec(posts: Seq<Post>) -> Seq<char>
    decreases posts.len(),
{
    if posts.len() == 0 {
        Seq::empty()
    } else if posts.len() == 1 {
        post_card_spec(posts[0])
    } else {
        post_cards_spec(posts.drop_last()) + "\n"@ + post_card_spec(posts.last())
    }
}

/// The post list: the cards, or a note that nothing is published yet.
pub open spec fn post_list_spec(posts: Seq<Post>) -> Seq<char> {
    if posts.len() == 0 {
        "<p class=\"empty-state\">No posts published yet.</p>"@
    } else {
        post_cards_spec(posts)
    }
}

fn render_post_list(posts: &[Post]) -> (r: String)
    ensures
        r@ == post_list_spec(posts@),
{
    if posts.len() == 0 {
        return String::from_str("<p class=\"empty-state\">No posts published yet.</p>");
    }
    let mut out = render_post_card(&posts[0]);
    let mut i: usize = 1;
    assert(posts@.take(1) =~= seq![posts@[0]]);
    while i < posts.len()
        invariant
            1 <= i <= posts.len(),
            out@ == post_cards_spec(posts@.take(i as int)),
        decreases posts.len() - i,
    {
        let card = render_post_card(&posts[i]);
        assert(posts@.take(i + 1).drop_last() =~= posts@.take(i as int));
        out.append("\n");
        out.append(card.as_str());
        i = i + 1;
    }
    assert(posts@.take(i as int) =~= posts@);
    out
}

/// The canonical link of a page, where it has one.
pub open spec fn canonical_spec(canonical_url: Option<Seq<char>>) -> Seq<char> {
    match canonical_url {
        Some(u) => "<link rel=\"canonical\" href=\""@ + escape_attr(u) + "\">"@,
        None => Seq::empty(),
    }
}

/// A whole HTML document around `body`, with the head that the page's title, description,
/// canonical address, body class and Open Graph type give.
pub open spec fn page_spec(
    config: &BlogConfig,
    title: Seq<char>,
    description: Seq<char>,
    canonical_url: Option<Seq<char>>,
    body_class: Seq<char>,
    og_type: Seq<char>,
    body: Seq<char>,
) -> Seq<char> {
    "<!doctype html>\n<html lang=\"en\">\n<head>\n    <meta charset=\"utf-8\">\n    <meta name=\"viewport\" content=\"width=device-width, initial-scale=1\">\n    <title>"@ + escape_text(title) + "</title>\n    <meta name=\"description\" content=\""@ + escape_attr(description) + "\">\n    <meta name=\"generator\" content=\"Cable\">\n    <meta property=\"og:title\" content=\""@ + escape_attr(title) + "\">\n    <meta property=\"og:description\" content=\""@ + escape_attr(description) + "\">\n    <meta property=\"og:site_name\" content=\""@ + escape_attr(config.site.title@) + "\">\n    <meta property=\"og:type\" content=\""@ + escape_attr(og_type) + "\">\n    "@ + canonical_spec(canonical_url) + "\n    <link rel=\"stylesheet\" href=\"/style.css\">\n</head>\n<body class=\""@ + escape_attr(body_class) + "\">\n"@ + body + "\n</body>\n</html>"@
}

fn render_page(config: &BlogConfig, meta: PageMeta<'_>, body: &str) -> (r: Result<String, BuildError>)
    ensures
        r matches Ok(h) && h@ == page_spec(
            config,
            meta.title@,
            meta.description@,
            match meta.canonical_url {
                Some(u) => Some(u@),
                None => None,
            },
            meta.body_class@,
            meta.og_type@,
            body@,
        ),
{
    let site_title = encode_attr(config.site.title.as_str());
    let page_title_text = encode_text(meta.title);
    let page_title_attr = encode_attr(meta.title);
    let description = encode_attr(meta.description);
    let body_class = encode_attr(meta.body_class);
    let og_type = encode_attr(meta.og_type);
    let canonical = match meta.canonical_url {
        Some(u) => {
            let url = encode_attr(u);
            let mut out = String::from_str("<link rel=\"canonical\" href=\"");
            out.append(url.as_str());
            out.append("\">");
            out
        },
        None => String::new(),
    };
    let mut out = String::from_str("<!doctype html>\n<html lang=\"en\">\n<head>\n    <meta charset=\"utf-8\">\n    <meta name=\"viewport\" content=\"width=device-width, initial-scale=1\">\n    <title>");
    out.append(page_title_text.as_str());
    out.append("</title>\n    <meta name=\"description\" content=\"");
    out.append(description.as_str());
    out.append("\">\n    <meta name=\"generator\" content=\"Cable\">\n    <meta property=\"og:title\" content=\"");
    out.append(page_title_attr.as_str());
    out.append("\">\n    <meta property=\"og:description\" content=\"");
    out.append(description.as_str());
    out.append("\">\n    <meta property=\"og:site_name\" content=\"");
    out.append(site_title.as_str());
    out.append("\">\n    <meta property=\"og:type\" content=\"");
    out.append(og_type.as_str());
    out.append("\">\n    ");
    out.append(canonical.as_str());
    out.append("\n    <link rel=\"stylesheet\" href=\"/style.css\">\n</head>\n<body class=\"");
    out.append(body_class.as_str());
    out.append("\">\n");
    out.append(body);
    out.append("\n</body>\n</html>");
    Ok(out)
}

/// The body of the index page.
pub open spec fn index_body_spec(config: &BlogConfig, posts: Seq<Post>) -> Seq<char> {
    "<main class=\"site\">\n    "@ + site_header_spec(config) + "\n\n    <section class=\"hero\">\n        <p class=\"eyebrow\">Latest posts</p>\n        <h1>"@ + escape_text(config.site.title@) + "</h1>\n        <p>"@ + escape_text(config.site.description@) + "</p>\n    </section>\n\n    <section class=\"post-list\" aria-label=\"Posts\">\n        "@ + post_list_spec(posts) + "\n    </section>\n</main>"@
}

/// The index page: the site header, the site's title and description, and the post list.
pub fn render_index(config: &BlogConfig, posts: &[Post]) -> (r: Result<String, BuildError>)
    ensures
        r matches Ok(h) && h@ == index_page_spec(config, posts@),
{
    let site_title = encode_text(config.site.title.as_str());
    let site_description = encode_text(config.site.description.as_str());
    let header = render_site_header(config);
    let post_list = render_post_list(posts);
    let mut out = String::from_str("<main class=\"site\">\n    ");
    out.append(header.as_str());
    out.append("\n\n    <section class=\"hero\">\n        <p class=\"eyebrow\">Latest posts</p>\n        <h1>");
    out.append(site_title.as_str());
    out.append("</h1>\n        <p>");
    out.append(site_description.as_str());
    out.append("</p>\n    </section>\n\n    <section class=\"post-list\" aria-label=\"Posts\">\n        ");
    out.append(post_list.as_str());
    out.append("\n    </section>\n</main>");
    render_page(
        config,
        PageMeta {
            title: config.site.title.as_str(),
            description: config.site.description.as_str(),
            canonical_url: None,
            body_class: "page page-index",
            og_type: "website",
        },
        out.as_str(),
    )
}
/// `path` made absolute under `site_url`: the site address without its trailing `/`, then the
/// path, with a `/` put before it where it has none.
pub open spec fn absolute_url_spec(site_url: Seq<char>, path: Seq<char>) -> Seq<char> {
    trim_end_char(site_url, '/') + if path.len() > 0 && path[0] == '/' {
        path
    } else {
        "/"@ + path
    }
}

/// `path` made absolute under `site_url`.
pub fn absolute_url(site_url: &str, path: &str) -> (r: String)
    ensures
        r@ == absolute_url_spec(site_url@, path@),
{
    let mut out = trim_end_matches_char(site_url, '/');
    let starts = str_starts_with(path, "/");
    proof {
        reveal_strlit("/");
        assert("/"@ =~= seq!['/']);
        assert(starts == starts_with_seq(path@, "/"@));
        if path@.len() > 0 {
            assert(path@.subrange(0, 1) =~= seq![path@[0]]);
            assert(path@.subrange(0, 1)[0] == path@[0]);
            assert("/"@[0] == '/');
            assert(starts_with_seq(path@, "/"@) == (path@[0] == '/'));
        }
        assert(starts == (path@.len() > 0 && path@[0] == '/'));
    }
    if !starts {
        out.append("/");
    }
    out.append(path);
    out
}

/// The body of a post's page.
pub open spec fn post_body_spec(config: &BlogConfig, post: Post) -> Seq<char> {
    "<main class=\"site\">\n    "@ + site_header_spec(config) + "\n\n    <article class=\"post\">\n        <header class=\"post-header\">\n            <a class=\"back-link\" href=\"/\">&larr; All posts</a>\n\n            <h1>"@ + escape_text(post.title@) + "</h1>\n\n            <div class=\"post-meta\">\n                <time datetime=\""@ + escape_attr(post.date.text_spec()) + "\">"@ + escape_text(post.date.text_spec()) + "</time>\n                "@ + tags_spec(post.tags@) + "\n            </div>\n        </header>\n\n        <div class=\"post-content\">\n            "@ + post.html@ + "\n        </div>\n    </article>\n</main>"@
}

/// The title of a post's page: the post's title, then the site's.
pub open spec fn post_page_title(config: &BlogConfig, post: Post) -> Seq<char> {
    post.title@ + " | "@ + config.site.title@
}

/// A post's page: the site header, the post's title, date and tags, and its HTML; its
/// canonical address is the post's address under the site's.
pub fn render_post(config: &BlogConfig, post: &Post) -> (r: Result<String, BuildError>)
    ensures
        r matches Ok(h) && h@ == post_page_spec(config, *post),
{
    let mut page_title = post.title.clone();
    page_title.append(" | ");
    page_title.append(config.site.title.as_str());
    let post_title = encode_text(post.title.as_str());
    let date = post.date.to_text();
    let post_date = encode_text(date.as_str());
    let datetime = encode_attr(date.as_str());
    let header = render_site_header(config);
    let tags = render_tags(post.tags.as_slice());
    let mut out = String::from_str("<main class=\"site\">\n    ");
    out.append(header.as_str());
    out.append("\n\n    <article class=\"post\">\n        <header class=\"post-header\">\n            <a class=\"back-link\" href=\"/\">&larr; All posts</a>\n\n            <h1>");
    out.append(post_title.as_str());
    out.append("</h1>\n\n            <div class=\"post-meta\">\n                <time datetime=\"");
    out.append(datetime.as_str());
    out.append("\">");
    out.append(post_date.as_str());
    out.append("</time>\n                ");
    out.append(tags.as_str());
    out.append("\n            </div>\n        </header>\n\n        <div class=\"post-content\">\n            ");
    out.append(post.html.as_str());
    out.append("\n        </div>\n    </article>\n</main>");
    let canonical_url = absolute_url(config.site.url.as_str(), post.url.as_str());
    render_page(
        config,
        PageMeta {
            title: page_title.as_str(),
            description: config.site.description.as_str(),
            canonical_url: Some(canonical_url.as_str()),
            body_class: "page page-post",
            og_type: "article",
        },
        out.as_str(),
    )
}

/// The style sheet every site starts from.
pub const DEFAULT_CSS: &'static str = r#":root {
    color-scheme: light dark;

    --bg: #ffffff;
    --text: #171717;
    --muted: #666666;
    --border: #e5e5e5;
    --surface: #f7f7f7;
    --accent: #2563eb;
    --accent-soft: #dbeafe;

    font-family:
        Inter, ui-sans-serif, system-ui, -apple-system, BlinkMacSystemFont,
        "Segoe UI", sans-serif;
    line-height: 1.6;
}

@media (prefers-color-scheme: dark) {
    :root {
        --bg: #0a0a0a;
        --text: #f5f5f5;
        --muted: #a3a3a3;
        --border: #262626;
        --surface: #171717;
        --accent: #60a5fa;
        --accent-soft: #172554;
    }
}

* {
    box-sizing: border-box;
}

html {
    text-size-adjust: 100%;
}

body {
    margin: 0;
    background: var(--bg);
    color: var(--text);
}

a {
    color: inherit;
    text-decoration-color: color-mix(in srgb, currentColor 35%, transparent);
    text-decoration-thickness: 0.08em;
    text-underline-offset: 0.18em;
}

a:hover {
    color: var(--accent);
    text-decoration-color: currentColor;
}

:focus-visible {
    outline: 3px solid var(--accent);
    outline-offset: 3px;
}

.site {
    width: min(760px, calc(100% - 2rem));
    margin: 0 auto;
    padding: 3rem 0 5rem;
}

.site-header {
    display: flex;
    align-items: baseline;
    justify-content: space-between;
    gap: 1rem;
    margin-bottom: 4rem;
}

.site-title {
    font-weight: 700;
    text-decoration: none;
    letter-spacing: -0.03em;
}

.site-description {
    margin: 0.35rem 0 0;
    color: var(--muted);
    font-size: 0.95rem;
}

.hero {
    margin-bottom: 3rem;
    padding-bottom: 2.5rem;
    border-bottom: 1px solid var(--border);
}

.hero .eyebrow {
    margin: 0 0 0.75rem;
    color: var(--accent);
    font-size: 0.85rem;
    font-weight: 700;
    letter-spacing: 0.08em;
    text-transform: uppercase;
}

.hero h1 {
    margin: 0;
    font-size: clamp(2.5rem, 10vw, 5rem);
    line-height: 0.95;
    letter-spacing: -0.075em;
}

.hero p {
    max-width: 58ch;
    margin: 1rem 0 0;
    color: var(--muted);
    font-size: 1.1rem;
}

.post-list {
    display: grid;
    gap: 0;
}

.post-card {
    padding: 1.5rem 0;
    border-bottom: 1px solid var(--border);
}

.post-card:first-child {
    padding-top: 0;
}

.post-card-meta,
.post-meta {
    display: flex;
    align-items: center;
    flex-wrap: wrap;
    gap: 0.75rem;
    color: var(--muted);
    font-size: 0.9rem;
}

.post-card-title {
    margin: 0.5rem 0 0;
    font-size: clamp(1.35rem, 3vw, 1.8rem);
    line-height: 1.2;
    letter-spacing: -0.04em;
}

.post-card-title a {
    text-decoration: none;
}

.post-card-title a:hover {
    text-decoration: underline;
}

.tags {
    display: inline-flex;
    flex-wrap: wrap;
    gap: 0.4rem;
}

.tag {
    display: inline-flex;
    align-items: center;
    border-radius: 999px;
    padding: 0.15rem 0.55rem;
    background: var(--surface);
    color: var(--muted);
    font-size: 0.78rem;
    line-height: 1.4;
}

.back-link {
    display: inline-flex;
    margin-bottom: 2rem;
    color: var(--muted);
    font-size: 0.95rem;
    text-decoration: none;
}

.back-link:hover {
    color: var(--accent);
}

.post-header {
    margin-bottom: 3rem;
    padding-bottom: 2rem;
    border-bottom: 1px solid var(--border);
}

.post-header h1 {
    max-width: 11ch;
    margin: 0;
    font-size: clamp(2.5rem, 9vw, 5.5rem);
    line-height: 0.95;
    letter-spacing: -0.075em;
}

.post-header .post-meta {
    margin-top: 1.25rem;
}

.post-content {
    font-size: 1.075rem;
}

.post-content > * {
    margin-top: 0;
    margin-bottom: 1.25rem;
}

.post-content > * + h2,
.post-content > * + h3,
.post-content > * + h4 {
    margin-top: 2.5rem;
}

.post-content h1,
.post-content h2,
.post-content h3,
.post-content h4 {
    line-height: 1.2;
    letter-spacing: -0.035em;
}

.post-content h2 {
    font-size: 1.75rem;
}

.post-content h3 {
    font-size: 1.35rem;
}

.post-content p,
.post-content li {
    max-width: 68ch;
}

.post-content ul,
.post-content ol {
    padding-left: 1.5rem;
}

.post-content li + li {
    margin-top: 0.4rem;
}

.post-content blockquote {
    margin-left: 0;
    padding: 0.25rem 0 0.25rem 1.25rem;
    border-left: 3px solid var(--accent);
    color: var(--muted);
}

.post-content pre {
    max-width: 100%;
    overflow-x: auto;
    border: 1px solid var(--border);
    border-radius: 0.75rem;
    padding: 1rem;
    background: var(--surface);
}

.post-content code {
    font-family:
        ui-monospace, SFMono-Regular, Menlo, Monaco, Consolas,
        "Liberation Mono", monospace;
    font-size: 0.92em;
}

.post-content :not(pre) > code {
    border-radius: 0.35rem;
    padding: 0.15rem 0.35rem;
    background: var(--surface);
}

.post-content img {
    max-width: 100%;
    height: auto;
    border-radius: 0.75rem;
}

.post-content hr {
    margin: 2.5rem 0;
    border: 0;
    border-top: 1px solid var(--border);
}

.empty-state {
    padding: 2rem;
    border: 1px dashed var(--border);
    border-radius: 0.75rem;
    color: var(--muted);
    background: var(--surface);
}

@media (max-width: 640px) {
    .site {
        padding-top: 1.5rem;
    }

    .site-header {
        display: block;
        margin-bottom: 3rem;
    }

    .post-header h1 {
        max-width: none;
    }
}
"#;

/// The style sheet every site starts from.
pub fn default_css() -> (r: &'static str)
    ensures
        r@ == DEFAULT_CSS@,
{
    DEFAULT_CSS
}


/// One entry of a tag page's post list.
pub open spec fn tag_item_spec(post: Post) -> Seq<char> {
    "<li><a href=\""@ + escape_attr(post.url@) + "\">"@ + escape_text(post.title@) + "</a></li>"@
}

/// The entries of a tag page's post list, one per line.
pub open spec fn tag_items_spec(posts: Seq<Post>) -> Seq<char>
    decreases posts.len(),
{
    if posts.len() == 0 {
        Seq::empty()
    } else if posts.len() == 1 {
        tag_item_spec(posts[0])
    } else {
        tag_items_spec(posts.drop_last()) + "\n        "@ + tag_item_spec(posts.last())
    }
}

fn render_tag_item(post: &Post) -> (r: String)
    ensures
        r@ == tag_item_spec(*post),
{
    let url = encode_attr(post.url.as_str());
    let title = encode_text(post.title.as_str());
    let mut out = String::from_str("<li><a href=\"");
    out.append(url.as_str());
    out.append("\">");
    out.append(title.as_str());
    out.append("</a></li>");
    out
}

fn render_tag_items(posts: &Vec<&Post>) -> (r: String)
    ensures
        r@ == tag_items_spec(posts@.map_values(|p: &Post| *p)),
{
    let ghost ps = posts@.map_values(|p: &Post| *p);
    if posts.len() == 0 {
        assert(ps.len() == 0);
        return String::new();
    }
    let mut out = render_tag_item(posts[0]);
    let mut i: usize = 1;
    assert(ps.take(1) =~= seq![ps[0]]);
    while i < posts.len()
        invariant
            1 <= i <= posts.len(),
            ps == posts@.map_values(|p: &Post| *p),
            out@ == tag_items_spec(ps.take(i as int)),
        decreases posts.len() - i,
    {
        let item = render_tag_item(posts[i]);
        assert(ps.take(i + 1).drop_last() =~= ps.take(i as int));
        assert(ps.take(i + 1).last() == *posts@[i as int]);
        out.append("\n        ");
        out.append(item.as_str());
        i = i + 1;
    }
    assert(ps.take(i as int) =~= ps);
    out
}

/// The body of a tag's page.
pub open spec fn tag_body_spec(config: &BlogConfig, tag: &Tag) -> Seq<char> {
    tag_body_from(config, tag.name@, tag_post_values(*tag))
}

/// The body of the page of the tag `name` that lists `posts`.
pub open spec fn tag_body_from(config: &BlogConfig, name: Seq<char>, posts: Seq<Post>) -> Seq<char> {
    "<main class=\"site\">\n    "@ + site_header_spec(config) + "\n\n    <section class=\"hero\">\n        <p class=\"eyebrow\">Tag</p>\n        <h1>"@ + escape_text(name) + "</h1>\n    </section>\n\n    <ul class=\"tag-posts\">\n        "@ + tag_items_spec(posts) + "\n    </ul>\n</main>"@
}

/// The page of a tag: the site header, the tag's name and a link to each post that carries it;
/// its canonical address is the tag page's address under the site's.
pub fn render_tag(config: &BlogConfig, tag: &Tag) -> (r: Result<String, BuildError>)
    ensures
        r matches Ok(h) && h@ == tag_page_spec(config, *tag),
{
    let mut page_title = tag.name.clone();
    page_title.append(" | ");
    page_title.append(config.site.title.as_str());
    let header = render_site_header(config);
    let name = encode_text(tag.name.as_str());
    let items = render_tag_items(&tag.posts);
    let mut out = String::from_str("<main class=\"site\">\n    ");
    out.append(header.as_str());
    out.append("\n\n    <section class=\"hero\">\n        <p class=\"eyebrow\">Tag</p>\n        <h1>");
    out.append(name.as_str());
    out.append("</h1>\n    </section>\n\n    <ul class=\"tag-posts\">\n        ");
    out.append(items.as_str());
    out.append("\n    </ul>\n</main>");
    let page_url = tag_page_url(&tag.slug);
    let canonical_url = absolute_url(config.site.url.as_str(), page_url.as_str());
    render_page(
        config,
        PageMeta {
            title: page_title.as_str(),
            description: config.site.description.as_str(),
            canonical_url: Some(canonical_url.as_str()),
            body_class: "page page-tag",
            og_type: "website",
        },
        out.as_str(),
    )
}

/// One sitemap entry per page address, in order, each made absolute under the site's address.
pub open spec fn sitemap_entries_spec(site_url: Seq<char>, urls: Seq<String>) -> Seq<char>
    decreases urls.len(),
{
    if urls.len() == 0 {
        Seq::empty()
    } else {
        let url = urls.last();
        sitemap_entries_spec(site_url, urls.drop_last()) + "  <url>\n    <loc>"@ + escape_text(absolute_url_spec(site_url, url@)) + "</loc>\n  </url>\n"@
    }
}

/// The sitemap of the site's pages.
pub open spec fn sitemap_spec(config: &BlogConfig, urls: Seq<String>) -> Seq<char> {
    "<?xml version=\"1.0\" encoding=\"UTF-8\"?>\n<urlset xmlns=\"http://www.sitemaps.org/schemas/sitemap/0.9\">\n"@ + sitemap_entries_spec(config.site.url@, urls) + "</urlset>\n"@
}

/// The sitemap that lists each of the page addresses, made absolute under the site's address.
pub fn render_sitemap(config: &BlogConfig, urls: &[String]) -> (r: Result<String, BuildError>)
    ensures
        r matches Ok(s) && s@ == sitemap_spec(config, urls@),
{
    let mut entries = String::new();
    let mut i: usize = 0;
    assert(urls@.take(0) =~= Seq::<String>::empty());
    while i < urls.len()
        invariant
            i <= urls.len(),
            entries@ == sitemap_entries_spec(config.site.url@, urls@.take(i as int)),
        decreases urls.len() - i,
    {
        let absolute = absolute_url(config.site.url.as_str(), urls[i].as_str());
        let loc = encode_text(absolute.as_str());
        let mut out = String::from_str("  <url>\n    <loc>");
        out.append(loc.as_str());
        out.append("</loc>\n  </url>\n");
        assert(urls@.take(i + 1).drop_last() =~= urls@.take(i as int));
        entries.append(out.as_str());
        i = i + 1;
    }
    assert(urls@.take(i as int) =~= urls@);
    let mut out = String::from_str("<?xml version=\"1.0\" encoding=\"UTF-8\"?>\n<urlset xmlns=\"http://www.sitemaps.org/schemas/sitemap/0.9\">\n");
    out.append(entries.as_str());
    out.append("</urlset>\n");
    Ok(out)
}


/// The index page.
pub open spec fn index_page_spec(config: &BlogConfig, posts: Seq<Post>) -> Seq<char> {
    page_spec(
            config,
            config.site.title@,
            config.site.description@,
            None,
            "page page-index"@,
            "website"@,
            index_body_spec(config, posts),
        )
}

/// The page of a post.
pub open spec fn post_page_spec(config: &BlogConfig, post: Post) -> Seq<char> {
    page_spec(
            config,
            post_page_title(config, post),
            config.site.description@,
            Some(absolute_url_spec(config.site.url@, post.url@)),
            "page page-post"@,
            "article"@,
            post_body_spec(config, post),
        )
}

/// The page of a tag.
pub open spec fn tag_page_spec<'a>(config: &BlogConfig, tag: Tag<'a>) -> Seq<char> {
    tag_page_from(config, tag.name@, tag.slug@, tag_post_values(tag))
}

/// The page of the tag `name` with slug `slug` that lists `posts`.
pub open spec fn tag_page_from(config: &BlogConfig, name: Seq<char>, slug: Seq<char>, posts: Seq<Post>) -> Seq<char> {
    page_spec(
        config,
        name + " | "@ + config.site.title@,
        config.site.description@,
        Some(absolute_url_spec(config.site.url@, tag_page_url_spec(slug))),
        "page page-tag"@,
        "website"@,
        tag_body_from(config, name, posts),
    )
}


/// An absolute address is the site address without its trailing `/`, then a `/`: it never
/// leaves the site.
pub proof fn lemma_absolute_url_under_site(site_url: Seq<char>, path: Seq<char>)
    ensures
        starts_with_seq(absolute_url_spec(site_url, path), trim_end_char(site_url, '/') + "/"@),
{
    reveal_strlit("/");
    let base = trim_end_char(site_url, '/');
    let r = absolute_url_spec(site_url, path);
    assert(r.subrange(0, base.len() as int + 1) =~= base + "/"@);
}


/// The pieces of a post list: the first card, then each further card after a line break.
pub open spec fn card_pieces(posts: Seq<Post>) -> Seq<Seq<char>> {
    Seq::new(
        posts.len(),
        |k: int|
            if k == 0 {
                post_card_spec(posts[0])
            } else {
                "\n"@ + post_card_spec(posts[k])
            },
    )
}

/// The cards of a list of posts are exactly one card per post, in the posts' order, separated
/// by line breaks.
pub proof fn lemma_post_cards_one_per_post(posts: Seq<Post>)
    requires
        posts.len() > 0,
    ensures
        post_cards_spec(posts) == card_pieces(posts).flatten(),
    decreases posts.len(),
{
    broadcast use vstd::seq_lib::group_seq_properties;
    if posts.len() == 1 {
        assert(card_pieces(posts) =~= seq![post_card_spec(posts[0])]);
        card_pieces(posts).lemma_flatten_one_element();
    } else {
        let rest = posts.drop_last();
        lemma_post_cards_one_per_post(rest);
        assert(card_pieces(posts) =~= card_pieces(rest).push("\n"@ + post_card_spec(posts.last())));
        card_pieces(rest).lemma_flatten_push("\n"@ + post_card_spec(posts.last()));
        assert(post_cards_spec(posts) =~= post_cards_spec(rest) + ("\n"@ + post_card_spec(posts.last())));
    }
}

/// The post list of the index: a note when there are no posts, otherwise one card per post in
/// order.
pub proof fn lemma_post_list_one_card_per_post(posts: Seq<Post>)
    ensures
        posts.len() == 0 ==> post_list_spec(posts) == "<p class=\"empty-state\">No posts published yet.</p>"@,
        posts.len() > 0 ==> post_list_spec(posts) == card_pieces(posts).flatten(),
{
    if posts.len() > 0 {
        lemma_post_cards_one_per_post(posts);
    }
}

} // verus!
