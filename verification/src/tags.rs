//! Tags: every tag name that the posts carry, in order, with the posts that carry it.
use vstd::prelude::*;
use crate::content::Post;
use crate::slug::{is_valid_slug, slugify, title_to_slug};
use crate::text::{chars_lt, lemma_chars_lt_total, lemma_chars_lt_transitive, str_lt};

verus! {

/// A tag: its name, its slug, and the posts that carry it.
#[derive(Debug)]
pub struct Tag<'a> {
    pub name: String,
    pub slug: String,
    pub posts: Vec<&'a Post>,
}

/// The text of each string.
pub open spec fn string_views(v: Seq<String>) -> Seq<Seq<char>> {
    v.map_values(|t: String| t@)
}

/// Every tag of every post, post by post, in order, repeats included.
pub open spec fn all_tag_names(posts: Seq<Post>) -> Seq<Seq<char>>
    decreases posts.len(),
{
    if posts.len() == 0 {
        Seq::empty()
    } else {
        all_tag_names(posts.drop_last()) + string_views(posts.last().tags@)
    }
}

/// How many times `name` occurs in `tags`.
pub open spec fn tag_count(tags: Seq<Seq<char>>, name: Seq<char>) -> nat
    decreases tags.len(),
{
    if tags.len() == 0 {
        0
    } else {
        tag_count(tags.drop_last(), name) + if tags.last() == name {
            1nat
        } else {
            0nat
        }
    }
}

/// The posts that carry `name`, in order; a post that carries it twice is there twice.
pub open spec fn posts_with_tag(posts: Seq<Post>, name: Seq<char>) -> Seq<Post>
    decreases posts.len(),
{
    if posts.len() == 0 {
        Seq::empty()
    } else {
        let p = posts.last();
        posts_with_tag(posts.drop_last(), name) + Seq::new(
            tag_count(string_views(p.tags@), name),
            |_i: int| p,
        )
    }
}

/// Each name comes strictly before every later one.
pub open spec fn strictly_sorted(names: Seq<Seq<char>>) -> bool {
    forall|i: int, j: int| 0 <= i < j < names.len() ==> chars_lt(#[trigger] names[i], #[trigger] names[j])
}

/// The posts a tag lists.
pub open spec fn tag_post_values<'a>(t: Tag<'a>) -> Seq<Post> {
    t.posts@.map_values(|p: &Post| *p)
}

/// The names of the tags.
pub open spec fn tag_names<'a>(tags: Seq<Tag<'a>>) -> Seq<Seq<char>> {
    tags.map_values(|t: Tag<'a>| t.name@)
}

proof fn lemma_contains_concat(a: Seq<Seq<char>>, b: Seq<Seq<char>>)
    ensures
        forall|x: Seq<char>| #[trigger] (a + b).contains(x) <==> (a.contains(x) || b.contains(x)),
{
    assert forall|x: Seq<char>| #[trigger] (a + b).contains(x) <==> (a.contains(x) || b.contains(x)) by {
        if (a + b).contains(x) {
            let k = choose|k: int| 0 <= k < (a + b).len() && (a + b)[k] == x;
            if k < a.len() {
                assert(a[k] == x);
            } else {
                assert(b[k - a.len()] == x);
            }
        }
        if a.contains(x) {
            let k = choose|k: int| 0 <= k < a.len() && a[k] == x;
            assert((a + b)[k] == x);
        }
        if b.contains(x) {
            let k = choose|k: int| 0 <= k < b.len() && b[k] == x;
            assert((a + b)[k + a.len()] == x);
        }
    }
}

fn insert_name(names: &mut Vec<String>, t: &String)
    requires
        strictly_sorted(string_views(old(names)@)),
    ensures
        strictly_sorted(string_views(final(names)@)),
        forall|x: Seq<char>| string_views(final(names)@).contains(x) <==> (string_views(
            old(names)@,
        ).contains(x) || x == t@),
{
    let ghost old_v = string_views(names@);
    let mut i: usize = 0;
    while i < names.len() && str_lt(names[i].as_str(), t.as_str())
        invariant
            i <= names.len(),
            names@ == old(names)@,
            old_v == string_views(names@),
            strictly_sorted(old_v),
            forall|k: int| 0 <= k < i ==> chars_lt(#[trigger] old_v[k], t@),
        decreases names.len() - i,
    {
        i = i + 1;
    }
    if i < names.len() && names[i] == *t {
        assert(old_v[i as int] == t@);
        return;
    }
    proof {
        if i < names.len() {
            assert(!chars_lt(old_v[i as int], t@));
            assert(old_v[i as int] != t@);
            lemma_chars_lt_total(old_v[i as int], t@);
            assert forall|k: int| i <= k < old_v.len() implies chars_lt(t@, #[trigger] old_v[k]) by {
                if k > i {
                    lemma_chars_lt_transitive(t@, old_v[i as int], old_v[k]);
                }
            }
        }
    }
    names.insert(i, t.clone());
    let ghost new_v = string_views(names@);
    assert(new_v =~= old_v.insert(i as int, t@));
    assert forall|a: int, b: int| 0 <= a < b < new_v.len() implies chars_lt(#[trigger] new_v[a], #[trigger] new_v[b]) by {
        if b < i {
        } else if a < i && b == i {
        } else if a < i && b > i {
            assert(new_v[b] == old_v[b - 1]);
        } else if a == i {
            assert(new_v[b] == old_v[b - 1]);
        } else {
            assert(new_v[a] == old_v[a - 1]);
            assert(new_v[b] == old_v[b - 1]);
        }
    }
    assert forall|x: Seq<char>| new_v.contains(x) <==> (old_v.contains(x) || x == t@) by {
        if new_v.contains(x) {
            let k = choose|k: int| 0 <= k < new_v.len() && new_v[k] == x;
            if k < i {
                assert(old_v[k] == x);
            } else if k > i {
                assert(old_v[k - 1] == x);
            }
        }
        if old_v.contains(x) {
            let k = choose|k: int| 0 <= k < old_v.len() && old_v[k] == x;
            if k < i {
                assert(new_v[k] == x);
            } else {
                assert(new_v[k + 1] == x);
            }
        }
        if x == t@ {
            assert(new_v[i as int] == x);
        }
    }
}

/// Every distinct tag name of the posts, in order.
fn sorted_tag_names(posts: &[Post]) -> (names: Vec<String>)
    ensures
        strictly_sorted(string_views(names@)),
        forall|x: Seq<char>| string_views(names@).contains(x) <==> all_tag_names(posts@).contains(x),
{
    let mut names: Vec<String> = Vec::new();
    let mut i: usize = 0;
    assert(posts@.take(0) =~= Seq::<Post>::empty());
    while i < posts.len()
        invariant
            i <= posts.len(),
            strictly_sorted(string_views(names@)),
            forall|x: Seq<char>| string_views(names@).contains(x) <==> all_tag_names(posts@.take(i as int)).contains(x),
        decreases posts.len() - i,
    {
        let p = &posts[i];
        let mut j: usize = 0;
        assert(string_views(p.tags@).take(0) =~= Seq::<Seq<char>>::empty());
        while j < p.tags.len()
            invariant
                i < posts.len(),
                p == posts@[i as int],
                j <= p.tags.len(),
                strictly_sorted(string_views(names@)),
                forall|x: Seq<char>| string_views(names@).contains(x) <==> (all_tag_names(posts@.take(i as int)).contains(x)
                    || string_views(p.tags@).take(j as int).contains(x)),
            decreases p.tags.len() - j,
        {
            insert_name(&mut names, &p.tags[j]);
            assert(string_views(p.tags@).take(j + 1) =~= string_views(p.tags@).take(j as int) + seq![p.tags@[j as int]@]);
            proof {
                lemma_contains_concat(string_views(p.tags@).take(j as int), seq![p.tags@[j as int]@]);
                assert(seq![p.tags@[j as int]@][0] == p.tags@[j as int]@);
            }
            j = j + 1;
        }
        assert(posts@.take(i + 1).drop_last() =~= posts@.take(i as int));
        assert(string_views(p.tags@).take(j as int) =~= string_views(p.tags@));
        assert(all_tag_names(posts@.take(i + 1)) == all_tag_names(posts@.take(i as int)) + string_views(p.tags@));
        proof {
            lemma_contains_concat(all_tag_names(posts@.take(i as int)), string_views(p.tags@));
        }
        i = i + 1;
    }
    assert(posts@.take(i as int) =~= posts@);
    names
}

/// The posts that carry `name`, in order.
fn collect_posts_with_tag<'a>(posts: &'a [Post], name: &String) -> (r: Vec<&'a Post>)
    ensures
        r@.map_values(|p: &Post| *p) == posts_with_tag(posts@, name@),
{
    let mut out: Vec<&'a Post> = Vec::new();
    let mut i: usize = 0;
    assert(posts@.take(0) =~= Seq::<Post>::empty());
    while i < posts.len()
        invariant
            i <= posts.len(),
            out@.map_values(|p: &Post| *p) == posts_with_tag(posts@.take(i as int), name@),
        decreases posts.len() - i,
    {
        let p = &posts[i];
        let ghost before = posts_with_tag(posts@.take(i as int), name@);
        let mut j: usize = 0;
        assert(string_views(p.tags@).take(0) =~= Seq::<Seq<char>>::empty());
        assert(out@.map_values(|q: &Post| *q) =~= before + Seq::new(tag_count(string_views(p.tags@).take(0), name@), |_k: int| *p));
        while j < p.tags.len()
            invariant
                i < posts.len(),
                p == posts@[i as int],
                j <= p.tags.len(),
                out@.map_values(|q: &Post| *q) == before + Seq::new(
                    tag_count(string_views(p.tags@).take(j as int), name@),
                    |_k: int| *p,
                ),
            decreases p.tags.len() - j,
        {
            let ghost tv = string_views(p.tags@);
            assert(tv.take(j + 1).drop_last() =~= tv.take(j as int));
            assert(tv.take(j + 1).last() == p.tags@[j as int]@);
            if p.tags[j] == *name {
                let ghost old_out = out@;
                let ghost n = tag_count(tv.take(j as int), name@);
                out.push(p);
                assert(tag_count(tv.take(j + 1), name@) == n + 1);
                assert(out@.map_values(|q: &Post| *q) =~= old_out.map_values(|q: &Post| *q).push(*p));
                assert(Seq::new(n + 1, |_k: int| *p) =~= Seq::new(n, |_k: int| *p).push(*p));
                assert(out@.map_values(|q: &Post| *q) =~= before + Seq::new(
                    tag_count(tv.take(j + 1), name@),
                    |_k: int| *p,
                ));
            } else {
                assert(out@.map_values(|q: &Post| *q) =~= before + Seq::new(
                    tag_count(tv.take(j + 1), name@),
                    |_k: int| *p,
                ));
            }
            j = j + 1;
        }
        assert(string_views(p.tags@).take(j as int) =~= string_views(p.tags@));
        assert(posts@.take(i + 1).drop_last() =~= posts@.take(i as int));
        assert(posts@.take(i + 1).last() == *p);
        assert(out@.map_values(|q: &Post| *q) =~= posts_with_tag(posts@.take(i + 1), name@));
        i = i + 1;
    }
    assert(posts@.take(i as int) =~= posts@);
    out
}

/// Groups the posts by tag name. The tags come in order of their names, each name once; each
/// tag lists, in order, the posts that carry it, and its slug is the slug of its name.
pub fn generate_tags<'a>(posts: &'a [Post]) -> (r: Vec<Tag<'a>>)
    ensures
        strictly_sorted(tag_names(r@)),
        forall|x: Seq<char>| tag_names(r@).contains(x) <==> all_tag_names(posts@).contains(x),
        forall|k: int| 0 <= k < r@.len() ==> (#[trigger] r@[k]).slug@ == slugify(r@[k].name@),
        forall|k: int| 0 <= k < r@.len() ==> tag_post_values(#[trigger] r@[k]) == posts_with_tag(
            posts@,
            r@[k].name@,
        ),
{
    let names = sorted_tag_names(posts);
    let mut tags: Vec<Tag<'a>> = Vec::new();
    let mut k: usize = 0;
    while k < names.len()
        invariant
            k <= names.len(),
            tags@.len() == k,
            forall|m: int| 0 <= m < k ==> (#[trigger] tags@[m]).name@ == names@[m]@,
            forall|m: int| 0 <= m < k ==> (#[trigger] tags@[m]).slug@ == slugify(tags@[m].name@),
            forall|m: int| 0 <= m < k ==> tag_post_values(#[trigger] tags@[m]) == posts_with_tag(
                posts@,
                tags@[m].name@,
            ),
        decreases names.len() - k,
    {
        let name = names[k].clone();
        let slug = title_to_slug(name.as_str());
        let tag_posts = collect_posts_with_tag(posts, &name);
        tags.push(Tag { name, slug, posts: tag_posts });
        k = k + 1;
    }
    assert(tag_names(tags@) =~= string_views(names@));
    tags
}

/// The page name of a tag: its slug followed by `.html`.
pub fn tag_url(name: &str) -> (r: String)
    ensures
        r@ == slugify(name@) + ".html"@,
{
    let mut url = tag_to_slug(name);
    url.append(".html");
    url
}

/// The slug of a tag name.
pub fn tag_to_slug(name: &str) -> (r: String)
    ensures
        r@ == slugify(name@),
        r@.len() > 0 ==> is_valid_slug(r@),
{
    title_to_slug(name)
}

/// The address of a tag's page: `/tags/{slug}.html`.
pub open spec fn tag_page_url_spec(slug: Seq<char>) -> Seq<char> {
    "/tags/"@ + slug + ".html"@
}

/// The address of the page of the tag with this slug.
pub fn tag_page_url(slug: &String) -> (r: String)
    ensures
        r@ == tag_page_url_spec(slug@),
{
    let mut url = String::from_str("/tags/");
    url.append(slug.as_str());
    url.append(".html");
    url
}

proof fn lemma_tag_count_positive(tags: Seq<Seq<char>>, name: Seq<char>)
    ensures
        tag_count(tags, name) > 0 <==> tags.contains(name),
    decreases tags.len(),
{
    if tags.len() > 0 {
        lemma_tag_count_positive(tags.drop_last(), name);
        if tags.drop_last().contains(name) {
            let k = choose|k: int| 0 <= k < tags.drop_last().len() && tags.drop_last()[k] == name;
            assert(tags[k] == name);
        }
        if tags.contains(name) {
            let k = choose|k: int| 0 <= k < tags.len() && tags[k] == name;
            if k < tags.len() - 1 {
                assert(tags.drop_last()[k] == name);
            }
        }
        if tags.last() == name {
            assert(tags[tags.len() - 1] == name);
        }
    }
}

/// A tag lists only posts of the input that carry it.
pub proof fn lemma_listed_posts_carry_tag(posts: Seq<Post>, name: Seq<char>)
    ensures
        forall|q: Post| #[trigger] posts_with_tag(posts, name).contains(q) ==> posts.contains(q)
            && string_views(q.tags@).contains(name),
    decreases posts.len(),
{
    if posts.len() > 0 {
        let rest = posts.drop_last();
        let p = posts.last();
        lemma_listed_posts_carry_tag(rest, name);
        lemma_tag_count_positive(string_views(p.tags@), name);
        let head = posts_with_tag(rest, name);
        let tail = Seq::new(tag_count(string_views(p.tags@), name), |_i: int| p);
        assert forall|q: Post| #[trigger] posts_with_tag(posts, name).contains(q) implies posts.contains(q)
            && string_views(q.tags@).contains(name) by {
            let k = choose|k: int| 0 <= k < (head + tail).len() && (head + tail)[k] == q;
            if k < head.len() {
                assert(head[k] == q);
                assert(head.contains(q));
                let m = choose|m: int| 0 <= m < rest.len() && rest[m] == q;
                assert(posts[m] == q);
            } else {
                assert(tail[k - head.len()] == p);
                assert(posts[posts.len() - 1] == p);
            }
        }
    }
}

/// Every post of the input that carries a tag is listed under it.
pub proof fn lemma_tagged_posts_are_listed(posts: Seq<Post>, name: Seq<char>, i: int)
    requires
        0 <= i < posts.len(),
        string_views(posts[i].tags@).contains(name),
    ensures
        posts_with_tag(posts, name).contains(posts[i]),
    decreases posts.len(),
{
    let rest = posts.drop_last();
    let p = posts.last();
    let head = posts_with_tag(rest, name);
    let tail = Seq::new(tag_count(string_views(p.tags@), name), |_i: int| p);
    if i < posts.len() - 1 {
        assert(rest[i] == posts[i]);
        lemma_tagged_posts_are_listed(rest, name, i);
        let k = choose|k: int| 0 <= k < head.len() && head[k] == posts[i];
        assert((head + tail)[k] == posts[i]);
    } else {
        lemma_tag_count_positive(string_views(p.tags@), name);
        assert((head + tail)[head.len() as int] == p);
    }
}

} // verus!
