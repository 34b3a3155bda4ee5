//! Markdown, through `pulldown_cmark`: HTML for a body, and the links a body holds.
use vstd::prelude::*;
use crate::errors::BuildError;

verus! {

/// The HTML that `pulldown_cmark` writes for the Markdown text with tables, footnotes,
/// strikethrough and task lists on.
pub uninterp spec fn markdown_html(md: Seq<char>) -> Seq<char>;

/// The kinds of link that `pulldown_cmark` tells apart.
#[derive(Clone, Copy, Debug, PartialEq, Eq, Structural)]
pub enum LinkKind {
    Inline,
    Reference,
    ReferenceUnknown,
    Collapsed,
    CollapsedUnknown,
    Shortcut,
    ShortcutUnknown,
    Autolink,
    Email,
    WikiLink,
}

/// For each event that `pulldown_cmark::Parser::new` reads from the Markdown text, in order:
/// the kind and destination of a link it opens, or `None` for any other event.
pub uninterp spec fn markdown_link_starts(md: Seq<char>) -> Seq<Option<(LinkKind, Seq<char>)>>;

/// `pulldown_cmark::LinkType`, only handed to `link_kind`.
#[verifier::external_type_specification]
#[verifier::external_body]
pub struct ExLinkType(pulldown_cmark::LinkType);

/// The library's name for a `pulldown_cmark::LinkType`, variant for variant (a wiki link's
/// pipe flag is dropped). Nothing is claimed of it; `parse_link_starts` states the result.
#[verifier::external_body]
fn link_kind(t: pulldown_cmark::LinkType) -> LinkKind {
    match t {
        pulldown_cmark::LinkType::Inline => LinkKind::Inline,
        pulldown_cmark::LinkType::Reference => LinkKind::Reference,
        pulldown_cmark::LinkType::ReferenceUnknown => LinkKind::ReferenceUnknown,
        pulldown_cmark::LinkType::Collapsed => LinkKind::Collapsed,
        pulldown_cmark::LinkType::CollapsedUnknown => LinkKind::CollapsedUnknown,
        pulldown_cmark::LinkType::Shortcut => LinkKind::Shortcut,
        pulldown_cmark::LinkType::ShortcutUnknown => LinkKind::ShortcutUnknown,
        pulldown_cmark::LinkType::Autolink => LinkKind::Autolink,
        pulldown_cmark::LinkType::Email => LinkKind::Email,
        pulldown_cmark::LinkType::WikiLink { .. } => LinkKind::WikiLink,
    }
}

/// The events of `pulldown_cmark::Parser::new(md)`, each turned into the kind and destination
/// of the link it opens or `None`. Claimed: the result is the name above.
#[verifier::external_body]
pub(crate) fn parse_link_starts(md: &str) -> (r: Vec<Option<(LinkKind, String)>>)
    ensures
        r@.len() == markdown_link_starts(md@).len(),
        forall|i: int| 0 <= i < r@.len() ==> match (#[trigger] r@[i], markdown_link_starts(md@)[i]) {
            (None, None) => true,
            (Some((k, d)), Some((k2, d2))) => k == k2 && d@ == d2,
            _ => false,
        },
{
    pulldown_cmark::Parser::new(md).map(|event| match event {
        pulldown_cmark::Event::Start(pulldown_cmark::Tag::Link { link_type, dest_url, .. }) => Some(
            (link_kind(link_type), dest_url.into_string()),
        ),
        _ => None,
    }).collect()
}

/// `pulldown_cmark::html::push_html` over `Parser::new_ext(md, options)` with tables,
/// footnotes, strikethrough and task lists on. Claimed: the result is the name above.
#[verifier::external_body]
fn markdown_to_html(md: &str) -> (r: String)
    ensures
        r@ == markdown_html(md@),
{
    let mut options = pulldown_cmark::Options::empty();
    options.insert(pulldown_cmark::Options::ENABLE_TABLES);
    options.insert(pulldown_cmark::Options::ENABLE_FOOTNOTES);
    options.insert(pulldown_cmark::Options::ENABLE_STRIKETHROUGH);
    options.insert(pulldown_cmark::Options::ENABLE_TASKLISTS);
    let parser = pulldown_cmark::Parser::new_ext(md, options);
    let mut html_output = String::new();
    pulldown_cmark::html::push_html(&mut html_output, parser);
    html_output
}

/// The HTML of a Markdown body. It does not fail.
pub fn to_html(md_body: &str) -> (r: Result<String, BuildError>)
    ensures
        r matches Ok(h) && h@ == markdown_html(md_body@),
{
    Ok(markdown_to_html(md_body))
}

} // verus!
