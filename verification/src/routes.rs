//! Where a post is served from and written to.
use vstd::prelude::*;
use crate::errors::BuildError;
use crate::paths::{join_path, join_path_spec};
use crate::text::{
    chars_of, contains_seq, push_char, replace_all, replace_all_spec, starts_with_seq, str_contains,
    str_starts_with, string_from_range, trim_char, trim_end_char, trim_end_matches_char,
    trim_matches_char, trim_start_char, trim_start_matches_char,
};

verus! {

/// The placeholder that a post route must hold.
pub open spec fn slug_placeholder() -> Seq<char> {
    ":slug"@
}

/// The address of a post: the route with each `:slug` replaced by the slug (without leading
/// or trailing `/`), followed by `.html`.
pub open spec fn post_url_spec(route: Seq<char>, slug: Seq<char>) -> Seq<char> {
    replace_all_spec(route, slug_placeholder(), trim_char(slug, '/')) + ".html"@
}

/// The address of a post under `route`, or `MissingRouteSlug` where the route holds no `:slug`.
pub fn post_url(route: &String, slug: &String) -> (r: Result<String, BuildError>)
    ensures
        !contains_seq(route@, slug_placeholder()) ==> (r matches Err(BuildError::MissingRouteSlug { route: rt })
            && rt@ == route@),
        contains_seq(route@, slug_placeholder()) ==> (r matches Ok(u) && u@ == post_url_spec(route@, slug@)),
{
    if !str_contains(route.as_str(), ":slug") {
        return Err(BuildError::MissingRouteSlug { route: route.clone() });
    }
    let slug = trim_matches_char(slug.as_str(), '/');
    proof {
        reveal_strlit(":slug");
    }
    let mut url = replace_all(route.as_str(), ":slug", slug.as_str());
    url.append(".html");
    Ok(url)
}

/// The file a page at `url` is written to: `url` without its leading `/`, joined onto the
/// output directory.
pub fn post_output_path(output_dir: &String, url: &String) -> (r: String)
    ensures
        r@ == join_path_spec(output_dir@, trim_start_char(url@, '/')),
{
    let rel = trim_start_matches_char(url.as_str(), '/');
    join_path(output_dir.as_str(), rel.as_str())
}

/// `path` relative to `base`: what follows `base` (without its trailing `/`) and a `/`; an
/// empty `base` leaves `path` as it is. `None` where `path` is not under `base`.
pub open spec fn relative_to(base: Seq<char>, path: Seq<char>) -> Option<Seq<char>> {
    if base.len() == 0 {
        Some(path)
    } else {
        let prefix = trim_end_char(base, '/') + "/"@;
        if starts_with_seq(path, prefix) {
            Some(path.skip(prefix.len() as int))
        } else {
            None
        }
    }
}

/// The directories of a relative path: everything before its last `/`, or nothing.
pub open spec fn dir_part(path: Seq<char>) -> Seq<char>
    decreases path.len(),
{
    if path.len() == 0 {
        Seq::empty()
    } else if path.last() == '/' {
        path.drop_last()
    } else {
        dir_part(path.drop_last())
    }
}

/// The slug of a post placed under the directories its source file sits in below the posts
/// directory.
pub open spec fn nested_slug(dir: Seq<char>, slug: Seq<char>) -> Seq<char> {
    if dir.len() == 0 {
        slug
    } else {
        dir + "/"@ + slug
    }
}

/// An address made site-absolute: a leading `./` is dropped and a `/` is put in front where
/// there is none.
pub open spec fn site_absolute(url: Seq<char>) -> Seq<char> {
    let u = if starts_with_seq(url, "./"@) {
        url.skip(2)
    } else {
        url
    };
    if u.len() > 0 && u[0] == '/' {
        u
    } else {
        "/"@ + u
    }
}

/// The address of a post read from `source_path` under `posts_dir`: its slug, under the
/// directories its file sits in, put into the route, made site-absolute.
pub open spec fn source_post_url_spec(
    route: Seq<char>,
    slug: Seq<char>,
    posts_dir: Seq<char>,
    rel: Seq<char>,
) -> Seq<char> {
    site_absolute(post_url_spec(route, nested_slug(dir_part(rel), slug)))
}

fn relative_path(base: &str, path: &str) -> (r: Option<String>)
    ensures
        match relative_to(base@, path@) {
            Some(rel) => r matches Some(s) && s@ == rel,
            None => r is None,
        },
{
    if base.is_empty() {
        return Some(String::from_str(path));
    }
    let mut prefix = trim_end_matches_char(base, '/');
    push_char(&mut prefix, '/');
    proof {
        reveal_strlit("/");
        assert(prefix@ =~= trim_end_char(base@, '/') + "/"@);
    }
    if str_starts_with(path, prefix.as_str()) {
        let v = chars_of(path);
        let p = chars_of(prefix.as_str());
        let rel = string_from_range(&v, p.len(), v.len());
        assert(rel@ =~= path@.skip(prefix@.len() as int));
        Some(rel)
    } else {
        None
    }
}

fn directories_of(path: &str) -> (r: String)
    ensures
        r@ == dir_part(path@),
{
    let v = chars_of(path);
    let mut k: usize = v.len();
    assert(v@.take(k as int) =~= v@);
    while k > 0 && v[k - 1] != '/'
        invariant
            k <= v.len(),
            dir_part(v@) == dir_part(v@.take(k as int)),
        decreases k,
    {
        assert(v@.take(k as int).drop_last() =~= v@.take(k - 1));
        k = k - 1;
    }
    if k == 0 {
        assert(v@.take(0) =~= Seq::<char>::empty());
        return String::new();
    }
    assert(v@.take(k as int).last() == v@[k - 1]);
    let r = string_from_range(&v, 0, k - 1);
    assert(r@ =~= v@.take(k as int).drop_last());
    r
}

fn make_site_absolute(url: &str) -> (r: String)
    ensures
        r@ == site_absolute(url@),
{
    let v = chars_of(url);
    let u = if str_starts_with(url, "./") {
        proof {
            reveal_strlit("./");
        }
        string_from_range(&v, 2, v.len())
    } else {
        String::from_str(url)
    };
    assert(starts_with_seq(url@, "./"@) ==> u@ =~= url@.skip(2));
    let uv = chars_of(u.as_str());
    if uv.len() > 0 && uv[0] == '/' {
        u
    } else {
        let mut out = String::from_str("/");
        out.append(u.as_str());
        out
    }
}

/// The address of a post read from `source_path`: its slug is put under the directories its
/// file sits in below `posts_dir`, then into the route, and the address is made
/// site-absolute. `MissingRouteSlug` where the route holds no `:slug`;
/// `SourceOutsidePostsDirectory` where the file is not under `posts_dir`.
pub fn post_url_for_source(route: &String, slug: &String, posts_dir: &String, source_path: &String) -> (r: Result<String, BuildError>)
    ensures
        !contains_seq(route@, slug_placeholder()) ==> (r matches Err(BuildError::MissingRouteSlug { route: rt })
            && rt@ == route@),
        contains_seq(route@, slug_placeholder()) && relative_to(posts_dir@, source_path@) is None ==> (r matches Err(
            BuildError::SourceOutsidePostsDirectory { posts_dir: d, source_path: s },
        ) && d@ == posts_dir@ && s@ == source_path@),
        contains_seq(route@, slug_placeholder()) ==> (relative_to(posts_dir@, source_path@) matches Some(rel) ==> (r matches Ok(u)
            && u@ == source_post_url_spec(route@, slug@, posts_dir@, rel))),
{
    if !str_contains(route.as_str(), ":slug") {
        return Err(BuildError::MissingRouteSlug { route: route.clone() });
    }
    let rel = match relative_path(posts_dir.as_str(), source_path.as_str()) {
        Some(rel) => rel,
        None => {
            return Err(
                BuildError::SourceOutsidePostsDirectory {
                    posts_dir: posts_dir.clone(),
                    source_path: source_path.clone(),
                },
            );
        },
    };
    let dir = directories_of(rel.as_str());
    let nested = if dir.as_str().is_empty() {
        slug.clone()
    } else {
        let mut n = dir;
        n.append("/");
        n.append(slug.as_str());
        n
    };
    let url = match post_url(route, &nested) {
        Ok(u) => u,
        Err(e) => {
            return Err(e);
        },
    };
    Ok(make_site_absolute(url.as_str()))
}

proof fn lemma_trim_start_not_slash(s: Seq<char>)
    ensures
        trim_start_char(s, '/').len() > 0 ==> trim_start_char(s, '/')[0] != '/',
    decreases s.len(),
{
    if s.len() > 0 && s[0] == '/' {
        lemma_trim_start_not_slash(s.drop_first());
    }
}

/// The file of a page lies under the output directory: its path begins with the directory.
pub proof fn lemma_output_path_under_dir(output_dir: Seq<char>, url: Seq<char>)
    ensures
        starts_with_seq(join_path_spec(output_dir, trim_start_char(url, '/')), output_dir),
{
    lemma_trim_start_not_slash(url);
    let r = join_path_spec(output_dir, trim_start_char(url, '/'));
    assert(r.subrange(0, output_dir.len() as int) =~= output_dir);
}

/// A path with no `/` has no directories.
pub proof fn lemma_dir_part_without_slash(path: Seq<char>)
    requires
        forall|i: int| 0 <= i < path.len() ==> path[i] != '/',
    ensures
        dir_part(path) == Seq::<char>::empty(),
    decreases path.len(),
{
    if path.len() > 0 {
        lemma_dir_part_without_slash(path.drop_last());
    }
}

/// The directories of `dirs/file`, where the file name holds no `/`, are all of `dirs`:
/// everything before the last `/` is kept, however many directories it names.
pub proof fn lemma_dir_part_before_last_slash(dirs: Seq<char>, file: Seq<char>)
    requires
        forall|i: int| 0 <= i < file.len() ==> file[i] != '/',
    ensures
        dir_part(dirs + "/"@ + file) == dirs,
    decreases file.len(),
{
    reveal_strlit("/");
    assert("/"@.len() == 1 && "/"@[0] == '/');
    let p = dirs + "/"@ + file;
    if file.len() == 0 {
        assert(p.last() == '/');
        assert(p.drop_last() =~= dirs);
    } else {
        assert(p.last() == file.last());
        assert(p.drop_last() =~= dirs + "/"@ + file.drop_last());
        lemma_dir_part_before_last_slash(dirs, file.drop_last());
    }
}

/// A post read from `posts_dir/dirs/file`, with `dirs` not empty and a file name without
/// `/`, is addressed by its slug under all of `dirs`: the route gets `dirs/slug`.
pub proof fn lemma_source_url_keeps_directories(
    route: Seq<char>,
    slug: Seq<char>,
    posts_dir: Seq<char>,
    dirs: Seq<char>,
    file: Seq<char>,
)
    requires
        dirs.len() > 0,
        forall|i: int| 0 <= i < file.len() ==> file[i] != '/',
    ensures
        source_post_url_spec(route, slug, posts_dir, dirs + "/"@ + file) == site_absolute(
            post_url_spec(route, dirs + "/"@ + slug),
        ),
{
    lemma_dir_part_before_last_slash(dirs, file);
}

/// A post read from a file directly in the posts directory is addressed by its slug alone.
pub proof fn lemma_source_url_top_level(
    route: Seq<char>,
    slug: Seq<char>,
    posts_dir: Seq<char>,
    file: Seq<char>,
)
    requires
        forall|i: int| 0 <= i < file.len() ==> file[i] != '/',
    ensures
        source_post_url_spec(route, slug, posts_dir, file) == site_absolute(post_url_spec(route, slug)),
{
    lemma_dir_part_without_slash(file);
}

} // verus!
