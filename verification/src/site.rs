//! The steps of a build that decide what is written: each post's HTML, address and output
//! file, and the pages of the site.
use vstd::prelude::*;
use crate::config::BlogConfig;
use crate::content::Post;
use crate::errors::BuildError;
use crate::markdown::{markdown_html, to_html};
use crate::paths::{join_path, join_path_spec};
use crate::content::Status;
use crate::ordering::{newest_first, published, published_newest_first};
use crate::render::{
    index_page_spec, post_page_spec, render_index, render_post, render_sitemap, render_tag,
    sitemap_spec, tag_page_from, tag_page_spec,
};
use crate::slug::slugify;
use crate::routes::{
    post_output_path, post_url_for_source, relative_to, slug_placeholder, source_post_url_spec,
};
use crate::tags::{
    Tag, all_tag_names, generate_tags, lemma_listed_posts_carry_tag, posts_with_tag, string_views,
    strictly_sorted, tag_names, tag_page_url, tag_page_url_spec, tag_post_values,
};
use crate::text::{contains_seq, trim_start_char};

verus! {

/// The address a post gets under the route, or `None` where the route or its source path
/// stops it.
pub open spec fn routed_url(route: Seq<char>, posts_dir: Seq<char>, post: Post) -> Option<Seq<char>> {
    if !contains_seq(route, slug_placeholder()) {
        None
    } else {
        match relative_to(posts_dir, post.source_path@) {
            Some(rel) => Some(source_post_url_spec(route, post.slug@, posts_dir, rel)),
            None => None,
        }
    }
}

/// The error reported for a post that the route cannot place.
pub open spec fn route_error(e: BuildError, route: Seq<char>, posts_dir: Seq<char>, post: Post) -> bool {
    if !contains_seq(route, slug_placeholder()) {
        e matches BuildError::MissingRouteSlug { route: rt } && rt@ == route
    } else {
        e matches BuildError::SourceOutsidePostsDirectory { posts_dir: d, source_path: s } && d@
            == posts_dir && s@ == post.source_path@
    }
}

/// `after` is `before` with its HTML, address and output file filled in.
pub open spec fn prepared(before: Post, after: Post, url: Seq<char>, output_dir: Seq<char>) -> bool {
    &&& after.title == before.title
    &&& after.date == before.date
    &&& after.slug == before.slug
    &&& after.tags == before.tags
    &&& after.status == before.status
    &&& after.body == before.body
    &&& after.source_path == before.source_path
    &&& after.html@ == markdown_html(before.body@)
    &&& after.url@ == url
    &&& after.output_path@ == join_path_spec(output_dir, trim_start_char(url, '/'))
}

/// A post with its HTML rendered, its address routed and its output file placed.
pub fn prepare_post(post: Post, route: &String, posts_dir: &String, output_dir: &String) -> (r: Result<Post, BuildError>)
    ensures
        match routed_url(route@, posts_dir@, post) {
            Some(url) => r matches Ok(p) && prepared(post, p, url, output_dir@),
            None => r matches Err(e) && route_error(e, route@, posts_dir@, post),
        },
{
    let html = match to_html(post.body.as_str()) {
        Ok(h) => h,
        Err(e) => {
            return Err(e);
        },
    };
    let url = match post_url_for_source(route, &post.slug, posts_dir, &post.source_path) {
        Ok(u) => u,
        Err(e) => {
            return Err(e);
        },
    };
    let output_path = post_output_path(output_dir, &url);
    Ok(Post { html, url, output_path, ..post })
}

/// Every post prepared as `prepare_post` does, in order; the error of the first post that the
/// route cannot place.
pub fn prepare_posts(posts: Vec<Post>, route: &String, posts_dir: &String, output_dir: &String) -> (r: Result<Vec<Post>, BuildError>)
    ensures
        r is Ok <==> forall|i: int| 0 <= i < posts@.len() ==> routed_url(route@, posts_dir@, #[trigger] posts@[i]) is Some,
        r matches Ok(v) ==> v@.len() == posts@.len() && forall|i: int| 0 <= i < posts@.len() ==> (
            routed_url(route@, posts_dir@, #[trigger] posts@[i]) matches Some(url) && prepared(posts@[i], v@[i], url, output_dir@)),
        r matches Err(e) ==> exists|i: int| 0 <= i < posts@.len() && routed_url(route@, posts_dir@, #[trigger] posts@[i]) is None
            && route_error(e, route@, posts_dir@, posts@[i]) && forall|j: int| 0 <= j < i ==> routed_url(route@, posts_dir@, #[trigger] posts@[j]) is Some,
{
    let ghost all = posts@;
    assert(all.len() == posts.len());
    let mut rest = posts;
    let mut out: Vec<Post> = Vec::new();
    let mut i: usize = 0;
    assert(all.skip(0) =~= all);
    while rest.len() > 0
        invariant
            i + rest@.len() == all.len(),
            all == posts@,
            all.len() <= usize::MAX,
            rest@ == all.skip(i as int),
            out@.len() == i,
            forall|k: int| 0 <= k < i ==> (routed_url(route@, posts_dir@, #[trigger] all[k]) matches Some(url) && prepared(all[k], out@[k], url, output_dir@)),
        decreases rest.len(),
    {
        let p = rest.remove(0);
        assert(p == all[i as int]);
        assert(rest@ =~= all.skip(i + 1));
        match prepare_post(p, route, posts_dir, output_dir) {
            Ok(q) => {
                out.push(q);
            },
            Err(e) => {
                assert(forall|j: int| 0 <= j < i ==> routed_url(route@, posts_dir@, #[trigger] all[j]) is Some);
                assert(routed_url(route@, posts_dir@, all[i as int]) is None);
                assert(route_error(e, route@, posts_dir@, all[i as int]));
                return Err(e);
            },
        }
        i = i + 1;
    }
    Ok(out)
}

/// A page to write: its address, its file, its contents, and whether the sitemap lists it.
#[derive(Debug)]
pub struct PageFile {
    pub url: String,
    pub output_path: String,
    pub contents: String,
    pub include_in_sitemap: bool,
}

/// The pages of a site: the index, then one page per post, then one page per tag, each listed
/// in the sitemap.
pub fn build_pages(config: &BlogConfig, posts: &[Post], tags: &[Tag], output_dir: &String) -> (r: Result<Vec<PageFile>, BuildError>)
    ensures
        r matches Ok(pages) && {
            &&& pages@.len() == 1 + posts@.len() + tags@.len()
            &&& pages@[0].url@ == "/"@
            &&& pages@[0].output_path@ == join_path_spec(output_dir@, "index.html"@)
            &&& pages@[0].contents@ == index_page_spec(config, posts@)
            &&& forall|i: int| 0 <= i < posts@.len() ==> {
                &&& (#[trigger] pages@[1 + i]).url@ == posts@[i].url@
                &&& pages@[1 + i].output_path@ == posts@[i].output_path@
                &&& pages@[1 + i].contents@ == post_page_spec(config, posts@[i])
            }
            &&& forall|k: int| 0 <= k < tags@.len() ==> {
                &&& (#[trigger] pages@[1 + posts@.len() + k]).url@ == tag_page_url_spec(tags@[k].slug@)
                &&& pages@[1 + posts@.len() + k].output_path@ == join_path_spec(
                    output_dir@,
                    trim_start_char(tag_page_url_spec(tags@[k].slug@), '/'),
                )
                &&& pages@[1 + posts@.len() + k].contents@ == tag_page_spec(config, tags@[k])
            }
            &&& forall|j: int| 0 <= j < pages@.len() ==> (#[trigger] pages@[j]).include_in_sitemap
        },
{
    let mut pages: Vec<PageFile> = Vec::new();
    let index_html = match render_index(config, posts) {
        Ok(h) => h,
        Err(e) => {
            return Err(e);
        },
    };
    pages.push(
        PageFile {
            url: String::from_str("/"),
            output_path: join_path(output_dir.as_str(), "index.html"),
            contents: index_html,
            include_in_sitemap: true,
        },
    );
    let mut i: usize = 0;
    while i < posts.len()
        invariant
            i <= posts.len(),
            pages@.len() == 1 + i,
            pages@[0].url@ == "/"@,
            pages@[0].output_path@ == join_path_spec(output_dir@, "index.html"@),
            pages@[0].contents@ == index_page_spec(config, posts@),
            forall|m: int| 0 <= m < i ==> {
                &&& (#[trigger] pages@[1 + m]).url@ == posts@[m].url@
                &&& pages@[1 + m].output_path@ == posts@[m].output_path@
                &&& pages@[1 + m].contents@ == post_page_spec(config, posts@[m])
            },
            forall|j: int| 0 <= j < pages@.len() ==> (#[trigger] pages@[j]).include_in_sitemap,
        decreases posts.len() - i,
    {
        let post_html = match render_post(config, &posts[i]) {
            Ok(h) => h,
            Err(e) => {
                return Err(e);
            },
        };
        pages.push(
            PageFile {
                url: posts[i].url.clone(),
                output_path: posts[i].output_path.clone(),
                contents: post_html,
                include_in_sitemap: true,
            },
        );
        i = i + 1;
    }
    let mut k: usize = 0;
    while k < tags.len()
        invariant
            k <= tags.len(),
            pages@.len() == 1 + posts@.len() + k,
            pages@[0].url@ == "/"@,
            pages@[0].output_path@ == join_path_spec(output_dir@, "index.html"@),
            pages@[0].contents@ == index_page_spec(config, posts@),
            forall|m: int| 0 <= m < posts@.len() ==> {
                &&& (#[trigger] pages@[1 + m]).url@ == posts@[m].url@
                &&& pages@[1 + m].output_path@ == posts@[m].output_path@
                &&& pages@[1 + m].contents@ == post_page_spec(config, posts@[m])
            },
            forall|m: int| 0 <= m < k ==> {
                &&& (#[trigger] pages@[1 + posts@.len() + m]).url@ == tag_page_url_spec(tags@[m].slug@)
                &&& pages@[1 + posts@.len() + m].output_path@ == join_path_spec(
                    output_dir@,
                    trim_start_char(tag_page_url_spec(tags@[m].slug@), '/'),
                )
                &&& pages@[1 + posts@.len() + m].contents@ == tag_page_spec(config, tags@[m])
            },
            forall|j: int| 0 <= j < pages@.len() ==> (#[trigger] pages@[j]).include_in_sitemap,
        decreases tags.len() - k,
    {
        let tag_html = match render_tag(config, &tags[k]) {
            Ok(h) => h,
            Err(e) => {
                return Err(e);
            },
        };
        let url = tag_page_url(&tags[k].slug);
        let output_path = post_output_path(output_dir, &url);
        pages.push(PageFile { url, output_path, contents: tag_html, include_in_sitemap: true });
        k = k + 1;
    }
    Ok(pages)
}

/// The addresses of the pages that the sitemap lists, in order.
pub open spec fn sitemap_urls_spec(pages: Seq<PageFile>) -> Seq<Seq<char>>
    decreases pages.len(),
{
    if pages.len() == 0 {
        Seq::empty()
    } else {
        let prev = sitemap_urls_spec(pages.drop_last());
        if pages.last().include_in_sitemap {
            prev.push(pages.last().url@)
        } else {
            prev
        }
    }
}

/// The addresses of the pages that the sitemap lists, in order.
pub fn sitemap_urls(pages: &[PageFile]) -> (r: Vec<String>)
    ensures
        r@.map_values(|u: String| u@) == sitemap_urls_spec(pages@),
{
    let mut out: Vec<String> = Vec::new();
    let mut i: usize = 0;
    assert(pages@.take(0) =~= Seq::<PageFile>::empty());
    while i < pages.len()
        invariant
            i <= pages.len(),
            out@.map_values(|u: String| u@) == sitemap_urls_spec(pages@.take(i as int)),
        decreases pages.len() - i,
    {
        assert(pages@.take(i + 1).drop_last() =~= pages@.take(i as int));
        assert(pages@.take(i + 1).last() == pages@[i as int]);
        if pages[i].include_in_sitemap {
            let ghost before = out@;
            out.push(pages[i].url.clone());
            assert(out@.map_values(|u: String| u@) =~= before.map_values(|u: String| u@).push(pages@[i as int].url@));
        }
        i = i + 1;
    }
    assert(pages@.take(i as int) =~= pages@);
    out
}

/// Accepts posts that the route can all place; otherwise reports the error of the first one it
/// cannot.
pub fn validate_routes(posts: &[Post], route: &String, posts_dir: &String) -> (r: Result<(), BuildError>)
    ensures
        r is Ok <==> forall|i: int| 0 <= i < posts@.len() ==> routed_url(route@, posts_dir@, #[trigger] posts@[i]) is Some,
        r matches Err(e) ==> exists|i: int| 0 <= i < posts@.len() && routed_url(route@, posts_dir@, #[trigger] posts@[i]) is None
            && route_error(e, route@, posts_dir@, posts@[i]) && forall|j: int| 0 <= j < i ==> routed_url(route@, posts_dir@, #[trigger] posts@[j]) is Some,
{
    let mut i: usize = 0;
    while i < posts.len()
        invariant
            i <= posts.len(),
            forall|j: int| 0 <= j < i ==> routed_url(route@, posts_dir@, #[trigger] posts@[j]) is Some,
        decreases posts.len() - i,
    {
        match post_url_for_source(route, &posts[i].slug, posts_dir, &posts[i].source_path) {
            Ok(_) => {},
            Err(e) => {
                assert(routed_url(route@, posts_dir@, posts@[i as int]) is None);
                return Err(e);
            },
        }
        i = i + 1;
    }
    Ok(())
}

/// The addresses of the pages, in order.
pub open spec fn page_urls(pages: Seq<PageFile>) -> Seq<Seq<char>> {
    pages.map_values(|p: PageFile| p.url@)
}

proof fn lemma_sitemap_lists_every_page(pages: Seq<PageFile>)
    requires
        forall|j: int| 0 <= j < pages.len() ==> (#[trigger] pages[j]).include_in_sitemap,
    ensures
        sitemap_urls_spec(pages) == page_urls(pages),
    decreases pages.len(),
{
    if pages.len() > 0 {
        let rest = pages.drop_last();
        assert(forall|j: int| 0 <= j < rest.len() ==> (#[trigger] rest[j]).include_in_sitemap == pages[j].include_in_sitemap);
        lemma_sitemap_lists_every_page(rest);
        assert(pages[pages.len() - 1].include_in_sitemap);
        assert(page_urls(pages) =~= page_urls(rest).push(pages.last().url@));
    } else {
        assert(page_urls(pages) =~= Seq::<Seq<char>>::empty());
    }
}

/// What a build writes: the published posts (prepared, newest first), the tag names, the pages,
/// the addresses the sitemap lists, and the sitemap.
#[derive(Debug)]
pub struct SitePlan {
    pub posts: Vec<Post>,
    pub tag_names: Vec<String>,
    pub pages: Vec<PageFile>,
    pub sitemap_urls: Vec<String>,
    pub sitemap: String,
}

/// Plans a build: every post is prepared; the published ones, newest first, get the index, a
/// page each and the tag pages of their tags; the sitemap lists every page. No page, tag and
/// sitemap address comes from a draft. The error of the first post the route cannot place is
/// reported.
pub fn plan_site(config: &BlogConfig, posts: Vec<Post>, posts_dir: &String, output_dir: &String) -> (r: Result<SitePlan, BuildError>)
    ensures
        r is Ok <==> forall|i: int| 0 <= i < posts@.len() ==> routed_url(config.routes.post@, posts_dir@, #[trigger] posts@[i]) is Some,
        r matches Err(e) ==> exists|i: int| 0 <= i < posts@.len() && routed_url(config.routes.post@, posts_dir@, #[trigger] posts@[i]) is None
            && route_error(e, config.routes.post@, posts_dir@, posts@[i]) && forall|j: int| 0 <= j < i ==> routed_url(config.routes.post@, posts_dir@, #[trigger] posts@[j]) is Some,
        r matches Ok(plan) ==> {
            &&& exists|v: Seq<Post>| {
                &&& v.len() == posts@.len()
                &&& forall|i: int| 0 <= i < posts@.len() ==> (routed_url(config.routes.post@, posts_dir@, #[trigger] posts@[i]) matches Some(url)
                    && prepared(posts@[i], v[i], url, output_dir@))
                &&& plan.posts@ == newest_first(published(v))
            }
            &&& forall|i: int| 0 <= i < plan.posts@.len() ==> (#[trigger] plan.posts@[i]).status == Status::Published
            &&& forall|i: int| 0 <= i < plan.posts@.len() ==> exists|k: int| 0 <= k < posts@.len() && (#[trigger] posts@[k]).status
                == Status::Published && (routed_url(config.routes.post@, posts_dir@, posts@[k]) matches Some(url) && prepared(
                posts@[k],
                #[trigger] plan.posts@[i],
                url,
                output_dir@,
            ))
            &&& strictly_sorted(string_views(plan.tag_names@))
            &&& forall|x: Seq<char>| string_views(plan.tag_names@).contains(x) <==> all_tag_names(plan.posts@).contains(x)
            &&& plan.pages@.len() == 1 + plan.posts@.len() + plan.tag_names@.len()
            &&& plan.pages@[0].url@ == "/"@
            &&& plan.pages@[0].output_path@ == join_path_spec(output_dir@, "index.html"@)
            &&& plan.pages@[0].contents@ == index_page_spec(config, plan.posts@)
            &&& forall|i: int| 0 <= i < plan.posts@.len() ==> {
                &&& (#[trigger] plan.pages@[1 + i]).url@ == plan.posts@[i].url@
                &&& plan.pages@[1 + i].output_path@ == plan.posts@[i].output_path@
                &&& plan.pages@[1 + i].contents@ == post_page_spec(config, plan.posts@[i])
            }
            &&& forall|k: int| 0 <= k < plan.tag_names@.len() ==> {
                let name = plan.tag_names@[k]@;
                &&& (#[trigger] plan.pages@[1 + plan.posts@.len() + k]).url@ == tag_page_url_spec(slugify(name))
                &&& plan.pages@[1 + plan.posts@.len() + k].output_path@ == join_path_spec(
                    output_dir@,
                    trim_start_char(tag_page_url_spec(slugify(name)), '/'),
                )
                &&& plan.pages@[1 + plan.posts@.len() + k].contents@ == tag_page_from(
                    config,
                    name,
                    slugify(name),
                    posts_with_tag(plan.posts@, name),
                )
                &&& forall|q: Post| #[trigger] posts_with_tag(plan.posts@, name).contains(q) ==> q.status == Status::Published
            }
            &&& string_views(plan.sitemap_urls@) == page_urls(plan.pages@)
            &&& plan.sitemap@ == sitemap_spec(config, plan.sitemap_urls@)
        },
{
    let ghost inputs = posts@;
    let prepared_posts = match prepare_posts(posts, &config.routes.post, posts_dir, output_dir) {
        Ok(v) => v,
        Err(e) => {
            return Err(e);
        },
    };
    let ghost v = prepared_posts@;
    let published_posts = published_newest_first(prepared_posts);
    let mut tag_names_out: Vec<String> = Vec::new();
    let pages = {
        let tags = generate_tags(published_posts.as_slice());
        let mut k: usize = 0;
        while k < tags.len()
            invariant
                k <= tags.len(),
                string_views(tag_names_out@) == tag_names(tags@).take(k as int),
            decreases tags.len() - k,
        {
            let ghost before = tag_names_out@;
            let name = tags[k].name.clone();
            assert(name@ == tags@[k as int].name@);
            tag_names_out.push(name);
            assert(string_views(tag_names_out@) =~= string_views(before).push(name@));
            assert(tag_names(tags@)[k as int] == tags@[k as int].name@);
            assert(string_views(tag_names_out@) =~= tag_names(tags@).take(k + 1));
            k = k + 1;
        }
        assert(tag_names(tags@).take(k as int) =~= tag_names(tags@));
        let pages = match build_pages(config, published_posts.as_slice(), tags.as_slice(), output_dir) {
            Ok(p) => p,
            Err(e) => {
                return Err(e);
            },
        };
        assert forall|m: int| 0 <= m < tags@.len() implies tag_page_spec(config, #[trigger] tags@[m]) == tag_page_from(
            config,
            tag_names_out@[m]@,
            slugify(tag_names_out@[m]@),
            posts_with_tag(published_posts@, tag_names_out@[m]@),
        ) by {
            assert(string_views(tag_names_out@)[m] == tag_names(tags@)[m]);
        }
        assert(tag_names_out@.len() == tags@.len());
        assert forall|m: int| 0 <= m < tags@.len() implies {
            &&& (#[trigger] pages@[1 + published_posts@.len() + m]).url@ == tag_page_url_spec(slugify(tag_names_out@[m]@))
            &&& pages@[1 + published_posts@.len() + m].output_path@ == join_path_spec(
                output_dir@,
                trim_start_char(tag_page_url_spec(slugify(tag_names_out@[m]@)), '/'),
            )
        } by {
            assert(string_views(tag_names_out@)[m] == tag_names(tags@)[m]);
            assert(tags@[m].slug@ == slugify(tags@[m].name@));
        }
        pages
    };
    let urls = sitemap_urls(pages.as_slice());
    let sitemap = match render_sitemap(config, urls.as_slice()) {
        Ok(s) => s,
        Err(e) => {
            return Err(e);
        },
    };
    proof {
        lemma_sitemap_lists_every_page(pages@);
        assert forall|i: int| 0 <= i < published_posts@.len() implies exists|k: int| 0 <= k < inputs.len() && (#[trigger] inputs[k]).status
            == Status::Published && (routed_url(config.routes.post@, posts_dir@, inputs[k]) matches Some(url) && prepared(
            inputs[k],
            #[trigger] published_posts@[i],
            url,
            output_dir@,
        )) by {
            broadcast use vstd::seq_lib::to_multiset_contains;
            let q = published_posts@[i];
            assert(published_posts@.contains(q));
            assert(published_posts@.to_multiset().contains(q));
            assert(published(v).contains(q));
            v.lemma_filter_contains_rev(|p: Post| p.status == Status::Published, q);
            let k = choose|k: int| 0 <= k < v.len() && v[k] == q;
            assert(routed_url(config.routes.post@, posts_dir@, inputs[k]) is Some);
        }
        assert forall|k: int| #![trigger tag_names_out@[k]] 0 <= k < tag_names_out@.len() implies forall|q: Post| #[trigger] posts_with_tag(published_posts@, tag_names_out@[k]@).contains(q) ==> q.status == Status::Published by {
            lemma_listed_posts_carry_tag(published_posts@, tag_names_out@[k]@);
            assert forall|q: Post| #[trigger] posts_with_tag(published_posts@, tag_names_out@[k]@).contains(q) implies q.status == Status::Published by {
                let j = choose|j: int| 0 <= j < published_posts@.len() && published_posts@[j] == q;
            }
        }
    }
    assert(inputs == posts@);
    assert(forall|i: int| 0 <= i < inputs.len() ==> (routed_url(config.routes.post@, posts_dir@, #[trigger] inputs[i]) matches Some(url)
        && prepared(inputs[i], v[i], url, output_dir@)));
    assert(exists|w: Seq<Post>| {
        &&& w.len() == posts@.len()
        &&& forall|i: int| 0 <= i < posts@.len() ==> (routed_url(config.routes.post@, posts_dir@, #[trigger] posts@[i]) matches Some(url)
            && prepared(posts@[i], w[i], url, output_dir@))
        &&& published_posts@ == newest_first(published(w))
    }) by {
        assert(v.len() == posts@.len());
    }
    Ok(
        SitePlan {
            posts: published_posts,
            tag_names: tag_names_out,
            pages,
            sitemap_urls: urls,
            sitemap,
        },
    )
}

} // verus!
