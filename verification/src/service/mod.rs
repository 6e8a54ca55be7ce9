//! News sources: the logic that turns fetched data into articles.

pub mod article_fetcher;
pub mod feed_text;
pub mod hn_service;
pub mod news_service;

use vstd::prelude::*;

use crate::cache::news_cache::NewsArticle;
use crate::time::{instant, Timestamp};

pub use hn_service::{clean_text, item_to_article, stories_from_items, HnItem};
pub use news_service::{merge_feed_results, parse_feed, FeedEntry, ParsedFeed};

verus! {

/// The sort key of a publication time: later times first, then articles without one.
pub open spec fn recency_rank(p: Option<Timestamp>) -> int {
    match p {
        Some(t) => -instant(t),
        None => (i64::MAX as int + 1) * 0x1_0000_0000 + 1,
    }
}

/// Where inserting `a` into `s` keeps the ranks non-decreasing and places it
/// after the articles that rank with it: before the first article ranked after it.
pub open spec fn insert_pos(s: Seq<NewsArticle>, a: NewsArticle) -> nat
    decreases s.len(),
{
    if s.len() == 0 {
        0
    } else if recency_rank(s[0].published_at) > recency_rank(a.published_at) {
        0
    } else {
        1 + insert_pos(s.drop_first(), a)
    }
}

/// `s` with `a` inserted at [`insert_pos`].
pub open spec fn insert_by_recency(s: Seq<NewsArticle>, a: NewsArticle) -> Seq<NewsArticle> {
    s.insert(insert_pos(s, a) as int, a)
}

/// The articles newest first, those without a publication time last, and
/// articles of equal time in the order they came (a stable sort).
pub open spec fn newest_first(s: Seq<NewsArticle>) -> Seq<NewsArticle>
    decreases s.len(),
{
    if s.len() == 0 {
        s
    } else {
        insert_by_recency(newest_first(s.drop_last()), s.last())
    }
}

/// Whether the articles are ordered newest first, undated ones last.
pub open spec fn ordered_by_recency(s: Seq<NewsArticle>) -> bool {
    forall|i: int, j: int|
        0 <= i < j < s.len() ==> recency_rank((#[trigger] s[i]).published_at) <= recency_rank(
            (#[trigger] s[j]).published_at,
        )
}

fn rank_le(a: Option<Timestamp>, b: Option<Timestamp>) -> (r: bool)
    ensures
        r == (recency_rank(a) <= recency_rank(b)),
{
    match a {
        Some(x) => match b {
            Some(y) => x.secs > y.secs || (x.secs == y.secs && x.nanos >= y.nanos),
            None => true,
        },
        None => b.is_none(),
    }
}

fn find_insert_pos(s: &Vec<NewsArticle>, a: &NewsArticle) -> (r: usize)
    ensures
        r == insert_pos(s@, *a),
        r <= s.len(),
{
    let mut j: usize = 0;
    assert(s@.skip(0) == s@);
    while j < s.len() && rank_le(s[j].published_at, a.published_at)
        invariant
            j <= s.len(),
            insert_pos(s@, *a) == j + insert_pos(s@.skip(j as int), *a),
        decreases s.len() - j,
    {
        assert(s@.skip(j as int).drop_first() == s@.skip(j + 1));
        assert(s@.skip(j as int)[0] == s@[j as int]);
        j = j + 1;
    }
    if j < s.len() {
        assert(s@.skip(j as int)[0] == s@[j as int]);
    }
    j
}

/// Sorts articles by publication date, newest first; articles without a date
/// come last, and articles of equal date keep their order.
pub fn sort_newest_first(articles: Vec<NewsArticle>) -> (r: Vec<NewsArticle>)
    ensures
        r@ == newest_first(articles@),
{
    let mut out: Vec<NewsArticle> = Vec::new();
    let mut rest = articles;
    let ghost all = rest@;
    let mut i: usize = 0;
    let n = rest.len();
    assert(all.take(0) == Seq::<NewsArticle>::empty());
    assert(all.skip(0) == all);
    while i < n
        invariant
            i <= n == all.len(),
            rest@ == all.skip(i as int),
            out@ == newest_first(all.take(i as int)),
        decreases n - i,
    {
        assert(rest@.len() == n - i);
        let a = rest.remove(0);
        assert(a == all[i as int]);
        assert(rest@ == all.skip(i + 1));
        assert(all.take(i + 1).drop_last() == all.take(i as int));
        assert(all.take(i + 1).last() == all[i as int]);
        let p = find_insert_pos(&out, &a);
        out.insert(p, a);
        i = i + 1;
    }
    assert(all.take(n as int) == all);
    out
}

/// Inserting by recency keeps a list ordered and its articles.
pub proof fn lemma_insert_by_recency(s: Seq<NewsArticle>, a: NewsArticle)
    requires
        ordered_by_recency(s),
    ensures
        ordered_by_recency(insert_by_recency(s, a)),
        insert_by_recency(s, a).to_multiset() == s.to_multiset().insert(a),
        insert_pos(s, a) <= s.len(),
        forall|i: int| 0 <= i < insert_pos(s, a) ==> recency_rank((#[trigger] s[i]).published_at) <= recency_rank(a.published_at),
        forall|i: int| insert_pos(s, a) <= i < s.len() ==> recency_rank((#[trigger] s[i]).published_at) > recency_rank(a.published_at),
    decreases s.len(),
{
    broadcast use vstd::seq_lib::group_to_multiset_ensures;
    if s.len() > 0 {
        let t = s.drop_first();
        assert(ordered_by_recency(t)) by {
            assert forall|i: int, j: int| 0 <= i < j < t.len() implies recency_rank((#[trigger] t[i]).published_at) <= recency_rank((#[trigger] t[j]).published_at) by {
                assert(t[i] == s[i + 1] && t[j] == s[j + 1]);
            }
        }
        lemma_insert_by_recency(t, a);
        let p = insert_pos(s, a);
        if recency_rank(s[0].published_at) <= recency_rank(a.published_at) {
            assert forall|i: int| p <= i < s.len() implies recency_rank((#[trigger] s[i]).published_at) > recency_rank(a.published_at) by {
                assert(s[i] == t[i - 1]);
            }
            assert forall|i: int| 0 <= i < p implies recency_rank((#[trigger] s[i]).published_at) <= recency_rank(a.published_at) by {
                if i > 0 {
                    assert(s[i] == t[i - 1]);
                }
            }
        } else {
            assert forall|i: int| 0 <= i < s.len() implies recency_rank((#[trigger] s[i]).published_at) > recency_rank(a.published_at) by {
                if i > 0 {
                    assert(recency_rank(s[0].published_at) <= recency_rank(s[i].published_at));
                }
            }
        }
    }
    let p = insert_pos(s, a) as int;
    let r = insert_by_recency(s, a);
    assert forall|i: int, j: int| 0 <= i < j < r.len() implies recency_rank((#[trigger] r[i]).published_at) <= recency_rank((#[trigger] r[j]).published_at) by {
        if j < p {
            assert(r[i] == s[i] && r[j] == s[j]);
        } else if j == p {
            assert(r[i] == s[i]);
        } else if i < p {
            assert(r[i] == s[i] && r[j] == s[j - 1]);
        } else if i == p {
            assert(r[j] == s[j - 1]);
        } else {
            assert(r[i] == s[i - 1] && r[j] == s[j - 1]);
        }
    }
}

/// Sorting newest first orders the articles by recency and keeps exactly the
/// same articles (as a multiset).
pub proof fn law_newest_first_sorts(s: Seq<NewsArticle>)
    ensures
        ordered_by_recency(newest_first(s)),
        newest_first(s).to_multiset() == s.to_multiset(),
        newest_first(s).len() == s.len(),
    decreases s.len(),
{
    broadcast use vstd::seq_lib::group_to_multiset_ensures;
    if s.len() > 0 {
        law_newest_first_sorts(s.drop_last());
        lemma_insert_by_recency(newest_first(s.drop_last()), s.last());
        assert(s == s.drop_last().push(s.last()));
    } else {
        assert(ordered_by_recency(s));
    }
}

} // verus!
