//! The order in which a build lists its published posts: newest first.
use vstd::prelude::*;
use crate::content::{Post, PostDate, Status};

verus! {

/// The published posts, in their order.
pub open spec fn published(posts: Seq<Post>) -> Seq<Post> {
    posts.filter(|p: Post| p.status == Status::Published)
}

/// The index before which `p` goes in a newest-first list: that of the first post strictly
/// older than `p`, or the end.
pub open spec fn insert_position(sorted: Seq<Post>, p: Post) -> int
    decreases sorted.len(),
{
    if sorted.len() == 0 {
        0
    } else if sorted[0].date.before(p.date) {
        0
    } else {
        1 + insert_position(sorted.drop_first(), p)
    }
}

/// The posts ordered newest first; posts of the same day keep their order (a stable sort by
/// date, descending).
pub open spec fn newest_first(posts: Seq<Post>) -> Seq<Post>
    decreases posts.len(),
{
    if posts.len() == 0 {
        Seq::empty()
    } else {
        let sorted = newest_first(posts.drop_last());
        sorted.insert(insert_position(sorted, posts.last()), posts.last())
    }
}

proof fn lemma_insert_position(sorted: Seq<Post>, p: Post)
    ensures
        0 <= insert_position(sorted, p) <= sorted.len(),
        forall|k: int| 0 <= k < insert_position(sorted, p) ==> !(#[trigger] sorted[k]).date.before(p.date),
        insert_position(sorted, p) < sorted.len() ==> sorted[insert_position(sorted, p)].date.before(p.date),
    decreases sorted.len(),
{
    if sorted.len() > 0 && !sorted[0].date.before(p.date) {
        lemma_insert_position(sorted.drop_first(), p);
        assert forall|k: int| 0 <= k < insert_position(sorted, p) implies !(#[trigger] sorted[k]).date.before(p.date) by {
            if k > 0 {
                assert(sorted[k] == sorted.drop_first()[k - 1]);
            }
        }
    }
}

/// No post in the list is newer than one before it.
pub open spec fn is_newest_first(posts: Seq<Post>) -> bool {
    forall|i: int, j: int| 0 <= i < j < posts.len() ==> !(#[trigger] posts[i]).date.before((#[trigger] posts[j]).date)
}

/// The newest-first list holds the same posts, and no post in it is newer than one before it.
pub proof fn lemma_newest_first(posts: Seq<Post>)
    ensures
        is_newest_first(newest_first(posts)),
        newest_first(posts).to_multiset() == posts.to_multiset(),
    decreases posts.len(),
{
    broadcast use vstd::seq_lib::to_multiset_insert, vstd::seq_lib::to_multiset_build;
    if posts.len() > 0 {
        let rest = posts.drop_last();
        let p = posts.last();
        lemma_newest_first(rest);
        let sorted = newest_first(rest);
        let k = insert_position(sorted, p);
        lemma_insert_position(sorted, p);
        let r = sorted.insert(k, p);
        assert forall|i: int, j: int| 0 <= i < j < r.len() implies !(#[trigger] r[i]).date.before((#[trigger] r[j]).date) by {
            if j < k {
                assert(r[i] == sorted[i] && r[j] == sorted[j]);
            } else if j == k {
                assert(r[i] == sorted[i]);
            } else if i < k {
                assert(r[i] == sorted[i] && r[j] == sorted[j - 1]);
            } else if i == k {
                assert(r[j] == sorted[j - 1]);
                assert(!sorted[k].date.before(sorted[j - 1].date) || j - 1 == k);
            } else {
                assert(r[i] == sorted[i - 1] && r[j] == sorted[j - 1]);
            }
        }
        assert(posts =~= rest.push(p));
        assert(r.to_multiset() == sorted.to_multiset().insert(p));
        assert(rest.push(p).to_multiset() == rest.to_multiset().insert(p));
    } else {
        assert(newest_first(posts) =~= posts);
    }
}

/// A list that holds the same posts as the published ones holds only published posts.
proof fn lemma_only_published(r: Seq<Post>, posts: Seq<Post>)
    requires
        r.to_multiset() == published(posts).to_multiset(),
    ensures
        forall|i: int| 0 <= i < r.len() ==> (#[trigger] r[i]).status == Status::Published,
{
    broadcast use vstd::seq_lib::to_multiset_contains, vstd::seq_lib::group_seq_properties;
    assert forall|i: int| 0 <= i < r.len() implies (#[trigger] r[i]).status == Status::Published by {
        assert(r.contains(r[i]));
        assert(r.to_multiset().contains(r[i]));
        assert(published(posts).contains(r[i]));
        let k = choose|k: int| 0 <= k < published(posts).len() && published(posts)[k] == r[i];
        posts.lemma_filter_pred(|p: Post| p.status == Status::Published, k);
    }
}

/// Whether `p` is published.
fn is_published(p: &Post) -> (r: bool)
    ensures
        r == (p.status == Status::Published),
{
    match p.status {
        Status::Published => true,
        Status::Draft => false,
    }
}

/// The published posts, newest first; posts of the same day keep their order.
pub fn published_newest_first(posts: Vec<Post>) -> (r: Vec<Post>)
    ensures
        r@ == newest_first(published(posts@)),
        is_newest_first(r@),
        r@.to_multiset() == published(posts@).to_multiset(),
        forall|i: int| 0 <= i < r@.len() ==> (#[trigger] r@[i]).status == Status::Published,
        forall|i: int, j: int| 0 <= i < j < r@.len() ==> !later_day((#[trigger] r@[j]).date.ymd(), (#[trigger] r@[i]).date.ymd()),
{
    broadcast use vstd::seq_lib::group_seq_properties;
    let ghost all = posts@;
    assert(all.len() == posts.len());
    let mut rest = posts;
    let mut out: Vec<Post> = Vec::new();
    let mut i: usize = 0;
    assert(all.take(0) =~= Seq::<Post>::empty());
    assert(all.skip(0) =~= all);
    while rest.len() > 0
        invariant
            i + rest@.len() == all.len(),
            all.len() <= usize::MAX,
            rest@ == all.skip(i as int),
            out@ == newest_first(published(all.take(i as int))),
        decreases rest.len(),
    {
        let p = rest.remove(0);
        assert(all.take(i + 1) =~= all.take(i as int).push(p));
        assert(rest@ =~= all.skip(i + 1));
        if is_published(&p) {
            let ghost sorted = out@;
            let mut k: usize = 0;
            assert(sorted.skip(0) =~= sorted);
            while k < out.len() && !out[k].date.is_before(&p.date)
                invariant
                    k <= out.len(),
                    out@ == sorted,
                    insert_position(sorted, p) == k + insert_position(sorted.skip(k as int), p),
                decreases out.len() - k,
            {
                assert(sorted.skip(k as int).drop_first() =~= sorted.skip(k + 1));
                k = k + 1;
            }
            assert(k < out.len() ==> sorted.skip(k as int)[0] == sorted[k as int]);
            assert(insert_position(sorted.skip(k as int), p) == 0);
            out.insert(k, p);
            proof {
                let pub_i = published(all.take(i as int));
                all.take(i as int).lemma_filter_push(p, |q: Post| q.status == Status::Published);
                assert(published(all.take(i + 1)) == pub_i.push(p));
                assert(pub_i.push(p).drop_last() =~= pub_i);
                assert(pub_i.push(p).last() == p);
            }
        } else {
            proof {
                all.take(i as int).lemma_filter_push(p, |q: Post| q.status == Status::Published);
            }
        }
        i = i + 1;
    }
    assert(all.take(i as int) =~= all);
    proof {
        lemma_newest_first(published(all));
        lemma_only_published(out@, all);
        lemma_newest_first_calendar_order(published(all));
    }
    out
}

/// `a` is a strictly later day than `b`: a later year, or the same year and a later month, or
/// the same year and month and a later day.
pub open spec fn later_day(a: (i32, u32, u32), b: (i32, u32, u32)) -> bool {
    a.0 > b.0 || (a.0 == b.0 && a.1 > b.1) || (a.0 == b.0 && a.1 == b.1 && a.2 > b.2)
}

/// `before` is calendar order: year first, then month, then day.
pub proof fn lemma_before_is_calendar_order(a: PostDate, b: PostDate)
    ensures
        a.before(b) <==> later_day(b.ymd(), a.ymd()),
{
}

/// The newest-first list is in calendar order: no post is on a later day (year, then month,
/// then day) than a post before it.
pub proof fn lemma_newest_first_calendar_order(posts: Seq<Post>)
    ensures
        forall|i: int, j: int| 0 <= i < j < newest_first(posts).len() ==> !later_day(
            (#[trigger] newest_first(posts)[j]).date.ymd(),
            (#[trigger] newest_first(posts)[i]).date.ymd(),
        ),
{
    lemma_newest_first(posts);
    let r = newest_first(posts);
    assert forall|i: int, j: int| 0 <= i < j < r.len() implies !later_day(
        (#[trigger] r[j]).date.ymd(),
        (#[trigger] r[i]).date.ymd(),
    ) by {
        assert(!r[i].date.before(r[j].date));
        lemma_before_is_calendar_order(r[i].date, r[j].date);
    }
}

} // verus!
