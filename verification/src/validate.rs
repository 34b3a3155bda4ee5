//! Checks a site must pass before it is built: slugs, duplicate slugs and local links.
use vstd::prelude::*;
use crate::content::{Post, Status};
use crate::errors::BuildError;
use crate::markdown::{LinkKind, markdown_link_starts, parse_link_starts};
use crate::paths::{join_path, join_path_spec, path_parent, path_parent_of};
use crate::slug::{is_slug_char, is_valid_slug, lemma_double_dash};
use crate::text::{
    chars_of, contains_seq, push_char, starts_with_seq, str_contains, str_ends_with,
    str_starts_with, ends_with_seq,
};

verus! {

/// How many posts a site would publish, and how many drafts it holds.
#[derive(Debug)]
pub struct ValidateResult {
    pub posts: usize,
    pub drafts: usize,
}

/// Accepts a post whose slug passes the slug rules; otherwise reports `InvalidSlug`.
pub fn validate_slug(post: &Post) -> (r: Result<(), BuildError>)
    ensures
        r is Ok <==> is_valid_slug(post.slug@),
        r matches Err(e) ==> (e matches BuildError::InvalidSlug { path, slug } && path@
            == post.source_path@ && slug@ == post.slug@),
{
    let v = chars_of(post.slug.as_str());
    let mut all_slug_chars = true;
    let mut i: usize = 0;
    while i < v.len()
        invariant
            i <= v.len(),
            all_slug_chars == forall|k: int| 0 <= k < i ==> is_slug_char(#[trigger] v@[k]),
        decreases v.len() - i,
    {
        let ch = v[i];
        let ok = ('a' <= ch && ch <= 'z') || ('0' <= ch && ch <= '9') || ch == '-';
        if !ok {
            all_slug_chars = false;
        }
        i = i + 1;
    }
    let valid = v.len() > 0 && all_slug_chars && !str_starts_with(post.slug.as_str(), "-")
        && !str_ends_with(post.slug.as_str(), "-") && !str_contains(post.slug.as_str(), "--");
    proof {
        reveal_strlit("-");
        let s = post.slug@;
        assert("-"@ =~= seq!['-']);
        if s.len() > 0 {
            assert(s.subrange(0, 1) =~= seq![s[0]]);
            assert(s.subrange(0, 1)[0] == s[0]);
            assert(s.subrange(s.len() - 1, s.len() as int) =~= seq![s.last()]);
            assert(s.subrange(s.len() - 1, s.len() as int)[0] == s.last());
            assert("-"@[0] == '-');
            assert(starts_with_seq(s, "-"@) == (s[0] == '-'));
            assert(ends_with_seq(s, "-"@) == (s.last() == '-'));
        }
    }
    if valid {
        Ok(())
    } else {
        Err(BuildError::InvalidSlug { path: post.source_path.clone(), slug: post.slug.clone() })
    }
}

/// No two posts share a slug.
pub open spec fn slugs_distinct(posts: Seq<Post>) -> bool {
    forall|i: int, j: int| 0 <= i < j < posts.len() ==> (#[trigger] posts[i]).slug@ != (#[trigger] posts[j]).slug@
}

/// Accepts posts whose slugs are all different; otherwise reports the first post whose slug an
/// earlier post already has, with the paths of both.
pub fn validate_duplicate_slugs(posts: &[Post]) -> (r: Result<(), BuildError>)
    ensures
        r is Ok <==> slugs_distinct(posts@),
        r matches Err(e) ==> exists|i: int, j: int|
            0 <= i < j < posts@.len() && slugs_distinct(posts@.take(j)) && posts@[i].slug@
                == posts@[j].slug@ && (e matches BuildError::DuplicateSlug {
                slug,
                first_path,
                second_path,
            } && slug@ == posts@[j].slug@ && first_path@ == posts@[i].source_path@ && second_path@
                == posts@[j].source_path@),
{
    let mut j: usize = 0;
    while j < posts.len()
        invariant
            j <= posts.len(),
            slugs_distinct(posts@.take(j as int)),
        decreases posts.len() - j,
    {
        let mut i: usize = 0;
        while i < j
            invariant
                i <= j < posts.len(),
                slugs_distinct(posts@.take(j as int)),
                forall|k: int| 0 <= k < i ==> posts@[k].slug@ != posts@[j as int].slug@,
            decreases j - i,
        {
            if posts[i].slug == posts[j].slug {
                let e = BuildError::DuplicateSlug {
                    slug: posts[j].slug.clone(),
                    first_path: posts[i].source_path.clone(),
                    second_path: posts[j].source_path.clone(),
                };
                assert(!slugs_distinct(posts@)) by {
                    assert(posts@[i as int].slug@ == posts@[j as int].slug@);
                }
                return Err(e);
            }
            i = i + 1;
        }
        assert forall|a: int, b: int| 0 <= a < b < posts@.take(j + 1).len() implies (#[trigger] posts@.take(j + 1)[a]).slug@
            != (#[trigger] posts@.take(j + 1)[b]).slug@ by {
            if b < j {
                assert(posts@.take(j as int)[a] == posts@[a]);
                assert(posts@.take(j as int)[b] == posts@[b]);
            }
        }
        j = j + 1;
    }
    assert(posts@.take(j as int) =~= posts@);
    Ok(())
}

/// Links that are not checked against files: empty ones, fragments, absolute paths, and
/// addresses with a scheme, `mailto:` or `tel:`.
pub open spec fn skips_link(link: Seq<char>) -> bool {
    link.len() == 0 || starts_with_seq(link, "#"@) || starts_with_seq(link, "/"@) || contains_seq(
        link,
        "://"@,
    ) || starts_with_seq(link, "mailto:"@) || starts_with_seq(link, "tel:"@)
}

/// Whether a link is not checked against a file.
pub fn should_skip_link(link: &str) -> (r: bool)
    ensures
        r == skips_link(link@),
        r <==> (link@.len() == 0 || link@[0] == '#' || link@[0] == '/' || contains_seq(link@, "://"@)
            || starts_with_seq(link@, "mailto:"@) || starts_with_seq(link@, "tel:"@)),
{
    proof {
        lemma_skipped_links(link@);
    }
    link.is_empty() || str_starts_with(link, "#") || str_starts_with(link, "/") || str_contains(
        link,
        "://",
    ) || str_starts_with(link, "mailto:") || str_starts_with(link, "tel:")
}

/// The part of a link before its first `#` or `?`.
pub open spec fn before_fragment(link: Seq<char>) -> Seq<char>
    decreases link.len(),
{
    if link.len() == 0 || link[0] == '#' || link[0] == '?' {
        Seq::empty()
    } else {
        seq![link[0]] + before_fragment(link.drop_first())
    }
}

/// The part of a link before its first `#` or `?`.
pub fn strip_fragment(link: &str) -> (r: String)
    ensures
        r@ == before_fragment(link@),
{
    let v = chars_of(link);
    let mut out = String::new();
    let mut i: usize = 0;
    assert(v@.skip(0) =~= v@);
    while i < v.len() && v[i] != '#' && v[i] != '?'
        invariant
            i <= v.len(),
            out@ + before_fragment(v@.skip(i as int)) == before_fragment(v@),
        decreases v.len() - i,
    {
        assert(v@.skip(i as int).drop_first() =~= v@.skip(i + 1));
        assert(v@.skip(i as int)[0] == v@[i as int]);
        push_char(&mut out, v[i]);
        assert(out@ + before_fragment(v@.skip(i + 1)) =~= before_fragment(v@));
        i = i + 1;
    }
    assert(i < v.len() ==> v@.skip(i as int)[0] == v@[i as int]);
    assert(before_fragment(v@.skip(i as int)) =~= Seq::<char>::empty());
    assert(out@ =~= out@ + Seq::<char>::empty());
    out
}

/// A local link and the file it must point to.
#[derive(Debug)]
pub struct LinkCheck {
    pub link: String,
    pub target: String,
}

/// The link kinds whose destinations are checked: inline, reference, collapsed and shortcut.
pub open spec fn checked_kind(k: LinkKind) -> bool {
    k is Inline || k is Reference || k is Collapsed || k is Shortcut
}

/// The link events as text.
pub open spec fn event_views(events: Seq<Option<(LinkKind, String)>>) -> Seq<Option<(LinkKind, Seq<char>)>> {
    events.map_values(
        |e: Option<(LinkKind, String)>|
            match e {
                Some((k, d)) => Some((k, d@)),
                None => None,
            },
    )
}

/// For each link that opens in the events, in order, whose kind is checked and which is not
/// skipped: the link and its target, the part before the fragment joined onto `source_dir`.
pub open spec fn link_checks_spec(events: Seq<Option<(LinkKind, Seq<char>)>>, source_dir: Seq<char>) -> Seq<(Seq<char>, Seq<char>)>
    decreases events.len(),
{
    if events.len() == 0 {
        Seq::empty()
    } else {
        let prev = link_checks_spec(events.drop_last(), source_dir);
        match events.last() {
            Some((k, d)) => if checked_kind(k) && !skips_link(d) {
                prev.push((d, join_path_spec(source_dir, before_fragment(d))))
            } else {
                prev
            },
            None => prev,
        }
    }
}

/// The checks as text.
pub open spec fn check_views(checks: Seq<LinkCheck>) -> Seq<(Seq<char>, Seq<char>)> {
    checks.map_values(|c: LinkCheck| (c.link@, c.target@))
}

/// The files that the links among `events` must point to, in order.
pub fn link_checks_from_events(events: &Vec<Option<(LinkKind, String)>>, source_dir: &str) -> (r: Vec<LinkCheck>)
    ensures
        check_views(r@) == link_checks_spec(event_views(events@), source_dir@),
{
    let mut out: Vec<LinkCheck> = Vec::new();
    let mut i: usize = 0;
    assert(event_views(events@).take(0) =~= Seq::<Option<(LinkKind, Seq<char>)>>::empty());
    while i < events.len()
        invariant
            i <= events.len(),
            check_views(out@) == link_checks_spec(event_views(events@).take(i as int), source_dir@),
        decreases events.len() - i,
    {
        let ghost ev = event_views(events@);
        assert(ev.take(i + 1).drop_last() =~= ev.take(i as int));
        assert(ev.take(i + 1).last() == ev[i as int]);
        match &events[i] {
            Some((kind, dest)) => {
                let checked = match kind {
                    LinkKind::Inline | LinkKind::Reference | LinkKind::Collapsed | LinkKind::Shortcut => true,
                    _ => false,
                };
                if checked && !should_skip_link(dest.as_str()) {
                    let path = strip_fragment(dest.as_str());
                    let target = join_path(source_dir, path.as_str());
                    let ghost before = out@;
                    out.push(LinkCheck { link: dest.clone(), target });
                    assert(check_views(out@) =~= check_views(before).push((dest@, target@)));
                }
            },
            None => {},
        }
        i = i + 1;
    }
    assert(event_views(events@).take(i as int) =~= event_views(events@));
    out
}

/// The directory a post's links are relative to: the parent of its source path, or nothing.
pub open spec fn source_dir_of(source_path: Seq<char>) -> Seq<char> {
    match path_parent_of(source_path) {
        Some(p) => p,
        None => Seq::empty(),
    }
}

/// The files that the local links of a post's body must point to, in order.
pub fn markdown_link_checks(post: &Post, source_path: &str) -> (r: Vec<LinkCheck>)
    ensures
        check_views(r@) == link_checks_spec(markdown_link_starts(post.body@), source_dir_of(source_path@)),
{
    let source_dir = match path_parent(source_path) {
        Some(p) => p,
        None => String::new(),
    };
    let events = parse_link_starts(post.body.as_str());
    assert(event_views(events@) =~= markdown_link_starts(post.body@));
    link_checks_from_events(&events, source_dir.as_str())
}

/// The number of posts with the given status.
pub open spec fn count_with_status(posts: Seq<Post>, status: Status) -> nat {
    posts.filter(|p: Post| p.status == status).len()
}

/// The number of posts with the given status.
pub fn count_status(posts: &[Post], status: Status) -> (r: usize)
    ensures
        r == count_with_status(posts@, status),
{
    let mut n: usize = 0;
    let mut i: usize = 0;
    assert(posts@.take(0) =~= Seq::<Post>::empty());
    while i < posts.len()
        invariant
            i <= posts.len(),
            n == count_with_status(posts@.take(i as int), status),
            n <= i,
        decreases posts.len() - i,
    {
        reveal_with_fuel(Seq::filter, 1);
        assert(posts@.take(i + 1).drop_last() =~= posts@.take(i as int));
        if posts[i].status == status {
            n = n + 1;
        }
        i = i + 1;
    }
    assert(posts@.take(i as int) =~= posts@);
    n
}

/// How many of the posts are published and how many are drafts.
pub fn validate_result(posts: &[Post]) -> (r: ValidateResult)
    ensures
        r.posts == count_with_status(posts@, Status::Published),
        r.drafts == count_with_status(posts@, Status::Draft),
{
    ValidateResult {
        posts: count_status(posts, Status::Published),
        drafts: count_status(posts, Status::Draft),
    }
}

/// A link is left unchecked exactly when it is empty, starts with `#` or `/`, holds `://`, or
/// starts with `mailto:` or `tel:`.
pub proof fn lemma_skipped_links(link: Seq<char>)
    ensures
        skips_link(link) <==> (link.len() == 0 || link[0] == '#' || link[0] == '/' || contains_seq(
            link,
            "://"@,
        ) || starts_with_seq(link, "mailto:"@) || starts_with_seq(link, "tel:"@)),
{
    reveal_strlit("#");
    reveal_strlit("/");
    if link.len() > 0 {
        assert(link.subrange(0, 1) =~= seq![link[0]]);
        assert(link.subrange(0, 1)[0] == link[0]);
        assert("#"@[0] == '#');
        assert("/"@[0] == '/');
        assert("#"@ =~= seq!['#']);
        assert("/"@ =~= seq!['/']);
    }
}

/// A link of a checked kind that is not skipped gives exactly one check: the link, and the part
/// of it before `#` or `?` joined onto the source directory.
pub proof fn lemma_local_link_is_checked(kind: LinkKind, link: Seq<char>, source_dir: Seq<char>)
    requires
        checked_kind(kind),
        link.len() > 0,
        link[0] != '#',
        link[0] != '/',
        !contains_seq(link, "://"@),
        !starts_with_seq(link, "mailto:"@),
        !starts_with_seq(link, "tel:"@),
    ensures
        link_checks_spec(seq![Some((kind, link))], source_dir) == seq![(link, join_path_spec(source_dir, before_fragment(link)))],
{
    lemma_skipped_links(link);
    let events = seq![Some((kind, link))];
    assert(events.drop_last() =~= Seq::<Option<(LinkKind, Seq<char>)>>::empty());
    assert(link_checks_spec(events.drop_last(), source_dir) =~= Seq::<(Seq<char>, Seq<char>)>::empty());
    assert(Seq::<(Seq<char>, Seq<char>)>::empty().push((link, join_path_spec(source_dir, before_fragment(link))))
        =~= seq![(link, join_path_spec(source_dir, before_fragment(link)))]);
}

/// Checks are made in the order of the links, one per link that is checked: the checks of
/// two runs of events one after another are the checks of each run, one after another.
pub proof fn lemma_link_checks_concat(
    a: Seq<Option<(LinkKind, Seq<char>)>>,
    b: Seq<Option<(LinkKind, Seq<char>)>>,
    source_dir: Seq<char>,
)
    ensures
        link_checks_spec(a + b, source_dir) == link_checks_spec(a, source_dir) + link_checks_spec(b, source_dir),
    decreases b.len(),
{
    if b.len() == 0 {
        assert(a + b =~= a);
        assert(link_checks_spec(a, source_dir) + link_checks_spec(b, source_dir) =~= link_checks_spec(a, source_dir));
    } else {
        lemma_link_checks_concat(a, b.drop_last(), source_dir);
        assert((a + b).drop_last() =~= a + b.drop_last());
        assert((a + b).last() == b.last());
        let x = link_checks_spec(a, source_dir);
        let y = link_checks_spec(b.drop_last(), source_dir);
        match b.last() {
            Some((k, d)) => {
                if checked_kind(k) && !skips_link(d) {
                    let c = (d, join_path_spec(source_dir, before_fragment(d)));
                    assert((x + y).push(c) =~= x + y.push(c));
                }
            },
            None => {},
        }
    }
}

} // verus!
