//! The site configuration that `blog.toml` holds.
use vstd::prelude::*;

verus! {

/// The whole configuration of a site.
#[derive(Debug)]
pub struct BlogConfig {
    pub site: SiteConfig,
    pub content: ContentConfig,
    pub output: OutputConfig,
    pub routes: RouteConfig,
}

/// The site's title, description and public address.
#[derive(Debug)]
pub struct SiteConfig {
    pub title: String,
    pub description: String,
    pub url: String,
}

/// Where the posts are, relative to the site's root.
#[derive(Debug)]
pub struct ContentConfig {
    pub posts: String,
}

/// Where the built site goes, relative to the site's root.
#[derive(Debug)]
pub struct OutputConfig {
    pub directory: String,
}

/// The route of a post page; it holds `:slug`.
#[derive(Debug)]
pub struct RouteConfig {
    pub post: String,
}

} // verus!
