//! Slugs: the lowercase, dash-separated names that posts and tags are addressed by.
use vstd::prelude::*;
use crate::text::{chars_of, contains_seq, occurs_at, push_char};

verus! {

broadcast use vstd::string::group_string_axioms;

/// An ASCII letter or digit.
pub open spec fn is_ascii_alnum(c: char) -> bool {
    ('a' <= c && c <= 'z') || ('A' <= c && c <= 'Z') || ('0' <= c && c <= '9')
}

/// `c` with an ASCII capital letter turned into its lowercase form.
pub open spec fn ascii_lower(c: char) -> char {
    if 'A' <= c && c <= 'Z' {
        ((c as u32) + 32) as char
    } else {
        c
    }
}

/// A character that may appear in a slug: a lowercase ASCII letter, a digit, or `-`.
pub open spec fn is_slug_char(c: char) -> bool {
    ('a' <= c && c <= 'z') || ('0' <= c && c <= '9') || c == '-'
}

/// A slug is non-empty, made of slug characters, neither starts nor ends with `-`,
/// and holds no `--`.
pub open spec fn is_valid_slug(s: Seq<char>) -> bool {
    &&& s.len() > 0
    &&& forall|i: int| 0 <= i < s.len() ==> is_slug_char(#[trigger] s[i])
    &&& s[0] != '-'
    &&& s.last() != '-'
    &&& !contains_seq(s, "--"@)
}

/// The slug built from the first `s.len()` characters of a title, and whether a dash is
/// owed before the next letter or digit.
pub open spec fn slug_state(s: Seq<char>) -> (Seq<char>, bool)
    decreases s.len(),
{
    if s.len() == 0 {
        (Seq::empty(), false)
    } else {
        let prev = slug_state(s.drop_last());
        let c = s.last();
        if is_ascii_alnum(c) {
            ((if prev.1 { prev.0.push('-') } else { prev.0 }).push(ascii_lower(c)), false)
        } else {
            (prev.0, prev.0.len() > 0)
        }
    }
}

/// The slug of a title: its runs of ASCII letters and digits, lowercased and joined by `-`.
pub open spec fn slugify(s: Seq<char>) -> Seq<char> {
    slug_state(s).0
}

/// No two dashes stand next to each other in `s`.
pub open spec fn no_double_dash(s: Seq<char>) -> bool {
    forall|i: int| 0 <= i < s.len() - 1 ==> !(#[trigger] s[i] == '-' && s[i + 1] == '-')
}

/// `"--"` occurs in `s` exactly where two dashes stand next to each other.
pub proof fn lemma_double_dash(s: Seq<char>)
    ensures
        contains_seq(s, "--"@) <==> !no_double_dash(s),
{
    reveal_strlit("--");
    if contains_seq(s, "--"@) {
        let i = choose|i: int| occurs_at(s, "--"@, i);
        assert(s.subrange(i, i + 2)[0] == '-');
        assert(s.subrange(i, i + 2)[1] == '-');
        assert(s[i] == '-' && s[i + 1] == '-');
    }
    if !no_double_dash(s) {
        let i = choose|i: int| 0 <= i < s.len() - 1 && (#[trigger] s[i] == '-' && s[i + 1] == '-');
        assert(s.subrange(i, i + 2) =~= "--"@);
        assert(occurs_at(s, "--"@, i));
    }
}

proof fn lemma_slug_state_shape(s: Seq<char>)
    ensures
        ({
            let (acc, pending) = slug_state(s);
            &&& forall|i: int| 0 <= i < acc.len() ==> is_slug_char(#[trigger] acc[i])
            &&& acc.len() > 0 ==> acc[0] != '-' && acc.last() != '-'
            &&& no_double_dash(acc)
            &&& pending ==> acc.len() > 0
        }),
    decreases s.len(),
{
    if s.len() > 0 {
        lemma_slug_state_shape(s.drop_last());
        let prev = slug_state(s.drop_last());
        let c = s.last();
        if is_ascii_alnum(c) {
            let mid = if prev.1 { prev.0.push('-') } else { prev.0 };
            let acc = mid.push(ascii_lower(c));
            assert(is_slug_char(ascii_lower(c)));
            assert(forall|i: int| 0 <= i < mid.len() ==> is_slug_char(#[trigger] mid[i]));
            assert(forall|i: int| 0 <= i < acc.len() ==> is_slug_char(#[trigger] acc[i]));
            assert(no_double_dash(mid));
            assert(no_double_dash(acc)) by {
                assert forall|i: int| 0 <= i < acc.len() - 1 implies !(#[trigger] acc[i] == '-' && acc[i + 1] == '-') by {
                    if i < mid.len() - 1 {
                        assert(acc[i] == mid[i] && acc[i + 1] == mid[i + 1]);
                    }
                }
            }
            if mid.len() > 0 {
                assert(acc[0] == mid[0]);
            }
        }
    }
}

/// A non-empty slug of a title passes the slug rules.
pub proof fn lemma_slugify_is_valid(s: Seq<char>)
    ensures
        slugify(s).len() > 0 ==> is_valid_slug(slugify(s)),
{
    lemma_slug_state_shape(s);
    lemma_double_dash(slugify(s));
}

/// Whether `c` is an ASCII letter or digit (`char::is_ascii_alphanumeric`).
pub fn char_is_ascii_alnum(c: char) -> (r: bool)
    ensures
        r == is_ascii_alnum(c),
{
    ('a' <= c && c <= 'z') || ('A' <= c && c <= 'Z') || ('0' <= c && c <= '9')
}

/// `c` in ASCII lowercase (`char::to_ascii_lowercase`).
pub fn char_to_ascii_lower(c: char) -> (r: char)
    ensures
        r == ascii_lower(c),
{
    if 'A' <= c && c <= 'Z' {
        let b: u8 = (c as u8) + 32;
        b as char
    } else {
        c
    }
}

/// The slug of a title: each run of ASCII letters and digits, lowercased, joined by single
/// dashes; every other character only separates runs.
pub fn title_to_slug(title: &str) -> (r: String)
    ensures
        r@ == slugify(title@),
        r@.len() > 0 ==> is_valid_slug(r@),
{
    let v = chars_of(title);
    let mut out = String::new();
    let mut pending = false;
    let mut i: usize = 0;
    assert(v@.take(0) =~= Seq::<char>::empty());
    while i < v.len()
        invariant
            i <= v.len(),
            (out@, pending) == slug_state(v@.take(i as int)),
        decreases v.len() - i,
    {
        let c = v[i];
        assert(v@.take(i + 1).drop_last() =~= v@.take(i as int));
        assert(v@.take(i + 1).last() == c);
        if char_is_ascii_alnum(c) {
            if pending {
                push_char(&mut out, '-');
            }
            push_char(&mut out, char_to_ascii_lower(c));
            pending = false;
        } else {
            pending = !out.as_str().is_empty();
        }
        i = i + 1;
    }
    assert(v@.take(i as int) =~= v@);
    proof {
        lemma_slugify_is_valid(title@);
    }
    out
}

proof fn lemma_slug_state_of_slug_prefix(t: Seq<char>, k: int)
    requires
        is_valid_slug(t),
        0 < k <= t.len(),
    ensures
        slug_state(t.take(k)) == (if t[k - 1] == '-' {
            (t.take(k - 1), true)
        } else {
            (t.take(k), false)
        }),
    decreases k,
{
    lemma_double_dash(t);
    let c = t[k - 1];
    assert(t.take(k).drop_last() =~= t.take(k - 1));
    assert(t.take(k).last() == c);
    assert(is_slug_char(c));
    if k == 1 {
        assert(t.take(0) =~= Seq::<char>::empty());
        assert(c != '-');
        assert(is_ascii_alnum(c));
        assert(ascii_lower(c) == c);
        assert(t.take(1) =~= seq![c]);
        assert(Seq::<char>::empty().push(ascii_lower(c)) =~= seq![c]);
        assert(slug_state(t.take(0)) == (Seq::<char>::empty(), false));
        assert(slug_state(t.take(1)) == (t.take(1), false));
    } else {
        lemma_slug_state_of_slug_prefix(t, k - 1);
        let d = t[k - 2];
        if c == '-' {
            assert(!is_ascii_alnum(c));
            assert(d != '-') by {
                assert(!(t[k - 2] == '-' && t[k - 1] == '-'));
            }
            assert(t.take(k - 1).len() > 0);
            assert(slug_state(t.take(k - 1)) == (t.take(k - 1), false));
            assert(slug_state(t.take(k)) == (t.take(k - 1), true));
        } else {
            assert(is_ascii_alnum(c));
            assert(ascii_lower(c) == c);
            if d == '-' {
                assert(t.take(k - 2).push('-').push(c) =~= t.take(k));
                assert(slug_state(t.take(k - 1)) == (t.take(k - 2), true));
                assert(slug_state(t.take(k)) == (t.take(k), false));
            } else {
                assert(t.take(k - 1).push(c) =~= t.take(k));
                assert(slug_state(t.take(k - 1)) == (t.take(k - 1), false));
                assert(slug_state(t.take(k)) == (t.take(k), false));
            }
        }
    }
}

/// A valid slug is its own slug: making a slug of a slug changes nothing.
pub proof fn lemma_slugify_fixes_slugs(t: Seq<char>)
    requires
        is_valid_slug(t),
    ensures
        slugify(t) == t,
{
    lemma_slug_state_of_slug_prefix(t, t.len() as int);
    assert(t.take(t.len() as int) =~= t);
}

/// Making a slug twice gives the same slug as making it once.
pub proof fn lemma_slugify_idempotent(s: Seq<char>)
    ensures
        slugify(slugify(s)) == slugify(s),
{
    lemma_slugify_is_valid(s);
    if slugify(s).len() > 0 {
        lemma_slugify_fixes_slugs(slugify(s));
    } else {
        assert(slugify(s) =~= Seq::<char>::empty());
    }
}

} // verus!
