//! The RSS feed of a site.
use vstd::prelude::*;
use crate::config::BlogConfig;
use crate::content::Post;
use crate::html::{encode_attr, encode_text, escape_attr, escape_text};
use crate::render::{absolute_url, absolute_url_spec};

verus! {

/// The feed item of one post: its title and its absolute address.
pub open spec fn post_xml_spec(site_url: Seq<char>, post: Post) -> Seq<char> {
    "\n  <item>\n    <title>"@ + escape_text(post.title@) + "</title>\n    <link>"@ + escape_attr(absolute_url_spec(site_url, post.url@)) + "</link>\n    <description>New XML tutorial on W3Schools</description>\n  </item>"@
}

fn render_post_xml(site_url: &str, post: &Post) -> (r: String)
    ensures
        r@ == post_xml_spec(site_url@, *post),
{
    let title = encode_text(post.title.as_str());
    let absolute_url = absolute_url(site_url, post.url.as_str());
    let url = encode_attr(absolute_url.as_str());
    let mut out = String::from_str("\n  <item>\n    <title>");
    out.append(title.as_str());
    out.append("</title>\n    <link>");
    out.append(url.as_str());
    out.append("</link>\n    <description>New XML tutorial on W3Schools</description>\n  </item>");
    out
}

/// The feed items of the posts, one per line; nothing when there are no posts.
pub open spec fn post_xml_list_spec(site_url: Seq<char>, posts: Seq<Post>) -> Seq<char>
    decreases posts.len(),
{
    if posts.len() == 0 {
        Seq::empty()
    } else if posts.len() == 1 {
        post_xml_spec(site_url, posts[0])
    } else {
        post_xml_list_spec(site_url, posts.drop_last()) + "\n"@ + post_xml_spec(site_url, posts.last())
    }
}

fn render_post_xml_list(site_url: &str, posts: &[Post]) -> (r: String)
    ensures
        r@ == post_xml_list_spec(site_url@, posts@),
{
    if posts.len() == 0 {
        return String::new();
    }
    let mut out = render_post_xml(site_url, &posts[0]);
    let mut i: usize = 1;
    assert(posts@.take(1) =~= seq![posts@[0]]);
    while i < posts.len()
        invariant
            1 <= i <= posts.len(),
            out@ == post_xml_list_spec(site_url@, posts@.take(i as int)),
        decreases posts.len() - i,
    {
        let item = render_post_xml(site_url, &posts[i]);
        assert(posts@.take(i + 1).drop_last() =~= posts@.take(i as int));
        out.append("\n");
        out.append(item.as_str());
        i = i + 1;
    }
    assert(posts@.take(i as int) =~= posts@);
    out
}

/// The RSS document of the site: its title, address and description, then one item per post.
pub open spec fn feed_spec(config: &BlogConfig, posts: Seq<Post>) -> Seq<char> {
    "<?xml version=\"1.0\" encoding=\"UTF-8\" ?>\n<rss version=\"2.0\">\n\n<channel>\n  <title>"@ + config.site.title@ + "</title>\n  <link>"@ + config.site.url@ + "</link>\n  <description>"@ + config.site.description@ + "</description>\n  "@ + post_xml_list_spec(config.site.url@, posts) + "\n</channel>\n\n</rss>"@
}

/// The RSS document of the site and its posts.
pub fn generate_feed(config: &BlogConfig, posts: &Vec<Post>) -> (r: String)
    ensures
        r@ == feed_spec(config, posts@),
{
    let post_xml_list = render_post_xml_list(config.site.url.as_str(), posts.as_slice());
    let mut out = String::from_str("<?xml version=\"1.0\" encoding=\"UTF-8\" ?>\n<rss version=\"2.0\">\n\n<channel>\n  <title>");
    out.append(config.site.title.as_str());
    out.append("</title>\n  <link>");
    out.append(config.site.url.as_str());
    out.append("</link>\n  <description>");
    out.append(config.site.description.as_str());
    out.append("</description>\n  ");
    out.append(post_xml_list.as_str());
    out.append("\n</channel>\n\n</rss>");
    out
}

} // verus!
