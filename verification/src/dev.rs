//! The development server's decisions: which file a request asks for, the content type it is
//! served with, and when a change triggers a rebuild.
use vstd::prelude::*;
use crate::paths::{join_path, join_path_spec, path_extension, path_extension_of};
use crate::text::{chars_of, push_char, str_eq, trim_start_char, trim_start_matches_char};

verus! {

/// The content type served for a file with the given extension.
pub open spec fn content_type_spec(extension: Option<Seq<char>>) -> Seq<char> {
    match extension {
        None => "text/plain"@,
        Some(e) => if e == "gif"@ {
            "image/gif"@
        } else if e == "jpg"@ || e == "jpeg"@ {
            "image/jpeg"@
        } else if e == "png"@ {
            "image/png"@
        } else if e == "pdf"@ {
            "application/pdf"@
        } else if e == "htm"@ || e == "html"@ {
            "text/html; charset=utf8"@
        } else if e == "txt"@ {
            "text/plain; charset=utf8"@
        } else if e == "css"@ {
            "text/css; charset=utf8"@
        } else {
            "text/plain; charset=utf8"@
        },
    }
}

/// The content type served for a file with the given extension.
pub fn content_type_for_extension(extension: Option<&str>) -> (r: &'static str)
    ensures
        r@ == content_type_spec(
            match extension {
                Some(e) => Some(e@),
                None => None,
            },
        ),
{
    match extension {
        None => "text/plain",
        Some(e) => if str_eq(e, "gif") {
            "image/gif"
        } else if str_eq(e, "jpg") || str_eq(e, "jpeg") {
            "image/jpeg"
        } else if str_eq(e, "png") {
            "image/png"
        } else if str_eq(e, "pdf") {
            "application/pdf"
        } else if str_eq(e, "htm") || str_eq(e, "html") {
            "text/html; charset=utf8"
        } else if str_eq(e, "txt") {
            "text/plain; charset=utf8"
        } else if str_eq(e, "css") {
            "text/css; charset=utf8"
        } else {
            "text/plain; charset=utf8"
        },
    }
}

/// The content type served for the file at `path`, by its extension.
pub fn get_content_type(path: &str) -> (r: &'static str)
    ensures
        r@ == content_type_spec(path_extension_of(path@)),
{
    let extension = path_extension(path);
    match extension {
        Some(e) => content_type_for_extension(Some(e.as_str())),
        None => content_type_for_extension(None),
    }
}

/// The part of a request target before its first `?`.
pub open spec fn before_query(url: Seq<char>) -> Seq<char>
    decreases url.len(),
{
    if url.len() == 0 || url[0] == '?' {
        Seq::empty()
    } else {
        seq![url[0]] + before_query(url.drop_first())
    }
}

/// The file a request asks for: the request path without query and leading `/`, joined onto
/// the output directory; the bare root asks for `index.html`.
pub open spec fn requested_file_spec(output_dir: Seq<char>, url: Seq<char>) -> Seq<char> {
    let relative = trim_start_char(before_query(url), '/');
    if relative.len() == 0 {
        join_path_spec(output_dir, "index.html"@)
    } else {
        join_path_spec(output_dir, relative)
    }
}

fn strip_query(url: &str) -> (r: String)
    ensures
        r@ == before_query(url@),
{
    let v = chars_of(url);
    let mut out = String::new();
    let mut i: usize = 0;
    assert(v@.skip(0) =~= v@);
    while i < v.len() && v[i] != '?'
        invariant
            i <= v.len(),
            out@ + before_query(v@.skip(i as int)) == before_query(v@),
        decreases v.len() - i,
    {
        assert(v@.skip(i as int).drop_first() =~= v@.skip(i + 1));
        assert(v@.skip(i as int)[0] == v@[i as int]);
        push_char(&mut out, v[i]);
        assert(out@ + before_query(v@.skip(i + 1)) =~= before_query(v@));
        i = i + 1;
    }
    assert(i < v.len() ==> v@.skip(i as int)[0] == v@[i as int]);
    assert(before_query(v@.skip(i as int)) =~= Seq::<char>::empty());
    assert(out@ =~= out@ + Seq::<char>::empty());
    out
}

/// The file a request for `url` asks for under `output_dir`.
pub fn requested_file(output_dir: &str, url: &str) -> (r: String)
    ensures
        r@ == requested_file_spec(output_dir@, url@),
{
    let url_path = strip_query(url);
    let relative = trim_start_matches_char(url_path.as_str(), '/');
    if relative.as_str().is_empty() {
        join_path(output_dir, "index.html")
    } else {
        join_path(output_dir, relative.as_str())
    }
}

/// Whether a batch of file changes triggers a rebuild: it must hold a change, and the last
/// rebuild must be at least the cooldown ago.
pub fn should_rebuild(changes: usize, since_last_rebuild_ms: u64, cooldown_ms: u64) -> (r: bool)
    ensures
        r == (changes > 0 && since_last_rebuild_ms >= cooldown_ms),
{
    changes > 0 && since_last_rebuild_ms >= cooldown_ms
}

/// A request for the bare root, with or without a query, asks for `index.html`.
pub proof fn lemma_root_request_serves_index(output_dir: Seq<char>, query: Seq<char>)
    ensures
        requested_file_spec(output_dir, "/"@) == join_path_spec(output_dir, "index.html"@),
        requested_file_spec(output_dir, "/?"@ + query) == join_path_spec(output_dir, "index.html"@),
{
    reveal_strlit("/");
    reveal_strlit("/?");
    let a = "/"@;
    assert(a.drop_first() =~= Seq::<char>::empty());
    assert(before_query(a.drop_first()) =~= Seq::<char>::empty());
    assert(before_query(a) =~= seq!['/']);
    assert(seq!['/'].drop_first() =~= Seq::<char>::empty());
    assert(trim_start_char(Seq::<char>::empty(), '/') =~= Seq::<char>::empty());
    assert(trim_start_char(seq!['/'], '/') =~= Seq::<char>::empty());
    let b = "/?"@ + query;
    assert(b[0] == '/');
    assert(b.drop_first()[0] == '?');
    assert(before_query(b.drop_first()) =~= Seq::<char>::empty());
    assert(before_query(b) =~= seq!['/']);
}

/// The dev server's table: gif is served as `image/gif`, jpg and jpeg as `image/jpeg`, png as
/// `image/png`, pdf as `application/pdf`, htm and html as `text/html`, txt as `text/plain`, css
/// as `text/css` (the text types with `charset=utf8`); any other extension as
/// `text/plain; charset=utf8`, and a file without one as `text/plain`.
pub proof fn lemma_content_type_table(e: Seq<char>)
    ensures
        e == "gif"@ ==> content_type_spec(Some(e)) == "image/gif"@,
        e == "jpg"@ || e == "jpeg"@ ==> content_type_spec(Some(e)) == "image/jpeg"@,
        e == "png"@ ==> content_type_spec(Some(e)) == "image/png"@,
        e == "pdf"@ ==> content_type_spec(Some(e)) == "application/pdf"@,
        e == "htm"@ || e == "html"@ ==> content_type_spec(Some(e)) == "text/html; charset=utf8"@,
        e == "txt"@ ==> content_type_spec(Some(e)) == "text/plain; charset=utf8"@,
        e == "css"@ ==> content_type_spec(Some(e)) == "text/css; charset=utf8"@,
        e != "gif"@ && e != "jpg"@ && e != "jpeg"@ && e != "png"@ && e != "pdf"@ && e != "htm"@
            && e != "html"@ && e != "txt"@ && e != "css"@ ==> content_type_spec(Some(e))
            == "text/plain; charset=utf8"@,
        content_type_spec(None) == "text/plain"@,
{
    reveal_strlit("gif");
    reveal_strlit("jpg");
    reveal_strlit("jpeg");
    reveal_strlit("png");
    reveal_strlit("pdf");
    reveal_strlit("htm");
    reveal_strlit("html");
    reveal_strlit("txt");
    reveal_strlit("css");
    assert("gif"@[0] != "jpg"@[0]);
    assert("gif"@.len() != "jpeg"@.len());
    assert("gif"@[0] != "png"@[0]);
    assert("gif"@[0] != "pdf"@[0]);
    assert("gif"@[0] != "htm"@[0]);
    assert("gif"@.len() != "html"@.len());
    assert("gif"@[0] != "txt"@[0]);
    assert("gif"@[0] != "css"@[0]);
    assert("jpg"@.len() != "jpeg"@.len());
    assert("jpg"@[0] != "png"@[0]);
    assert("jpg"@[0] != "pdf"@[0]);
    assert("jpg"@[0] != "htm"@[0]);
    assert("jpg"@.len() != "html"@.len());
    assert("jpg"@[0] != "txt"@[0]);
    assert("jpg"@[0] != "css"@[0]);
    assert("jpeg"@.len() != "png"@.len());
    assert("jpeg"@.len() != "pdf"@.len());
    assert("jpeg"@.len() != "htm"@.len());
    assert("jpeg"@[0] != "html"@[0]);
    assert("jpeg"@.len() != "txt"@.len());
    assert("jpeg"@.len() != "css"@.len());
    assert("png"@[1] != "pdf"@[1]);
    assert("png"@[0] != "htm"@[0]);
    assert("png"@.len() != "html"@.len());
    assert("png"@[0] != "txt"@[0]);
    assert("png"@[0] != "css"@[0]);
    assert("pdf"@[0] != "htm"@[0]);
    assert("pdf"@.len() != "html"@.len());
    assert("pdf"@[0] != "txt"@[0]);
    assert("pdf"@[0] != "css"@[0]);
    assert("htm"@.len() != "html"@.len());
    assert("htm"@[0] != "txt"@[0]);
    assert("htm"@[0] != "css"@[0]);
    assert("html"@.len() != "txt"@.len());
    assert("html"@.len() != "css"@.len());
    assert("txt"@[0] != "css"@[0]);
}

/// A file whose extension is in the table is served with the table's type: in particular a
/// `.jpg` or `.jpeg` file is served as `image/jpeg` and an `.html` file as `text/html`.
pub proof fn lemma_served_types(path: Seq<char>)
    ensures
        (path_extension_of(path) == Some("jpg"@) || path_extension_of(path) == Some("jpeg"@))
            ==> content_type_spec(path_extension_of(path)) == "image/jpeg"@,
        (path_extension_of(path) == Some("htm"@) || path_extension_of(path) == Some("html"@))
            ==> content_type_spec(path_extension_of(path)) == "text/html; charset=utf8"@,
        path_extension_of(path) == Some("css"@) ==> content_type_spec(path_extension_of(path)) == "text/css; charset=utf8"@,
        path_extension_of(path) is None ==> content_type_spec(path_extension_of(path)) == "text/plain"@,
{
    if let Some(e) = path_extension_of(path) {
        lemma_content_type_table(e);
    }
}

} // verus!
