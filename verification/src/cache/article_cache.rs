//! Cache of fetched article content by URL, evicting the oldest entry when full.

use vstd::prelude::*;

use crate::error::Error;
use crate::text::{word_count, words};
use crate::time::{chrono_represents, earlier, instant, now_timestamp, Timestamp};

verus! {

/// Cached article content structure
#[derive(Debug, Clone)]
pub struct CachedArticle {
    /// Full article content (plain text, cleaned from HTML)
    pub content: String,
    /// When the content was fetched
    pub fetched_at: Timestamp,
    /// Word count of the content
    pub word_count: usize,
}

impl CachedArticle {
    /// A cached article fetched at time `fetched_at`, with its words counted.
    pub fn new_at(content: String, fetched_at: Timestamp) -> (r: Self)
        ensures
            r.content == content,
            r.fetched_at == fetched_at,
            r.word_count == words(content@).len(),
    {
        let count = word_count(content.as_str());
        CachedArticle { content, fetched_at, word_count: count }
    }

    /// Create a new cached article, stamped with the current time.
    pub fn new(content: String) -> (r: Self)
        ensures
            r.content == content,
            chrono_represents(r.fetched_at.secs),
            r.word_count == words(content@).len(),
    {
        let now = now_timestamp();
        CachedArticle::new_at(content, now)
    }

    /// A copy of this cached article.
    pub fn duplicate(&self) -> (r: Self)
        ensures
            r == *self,
    {
        CachedArticle {
            content: self.content.clone(),
            fetched_at: self.fetched_at,
            word_count: self.word_count,
        }
    }
}

/// The position of the first entry for `url`, or -1 where there is none.
pub open spec fn find_entry(entries: Seq<(Seq<char>, CachedArticle)>, url: Seq<char>) -> int
    decreases entries.len(),
{
    if entries.len() == 0 {
        -1
    } else {
        let p = find_entry(entries.drop_last(), url);
        if p >= 0 {
            p
        } else if entries.last().0 == url {
            entries.len() - 1
        } else {
            -1
        }
    }
}

/// The position of the first entry fetched earliest (0 for no entries).
pub open spec fn oldest_entry(entries: Seq<(Seq<char>, CachedArticle)>) -> int
    decreases entries.len(),
{
    if entries.len() <= 1 {
        0
    } else {
        let k = oldest_entry(entries.drop_last());
        if instant(entries.last().1.fetched_at) < instant(entries[k].1.fetched_at) {
            entries.len() - 1
        } else {
            k
        }
    }
}

/// What an article cache holds: its entries in order of arrival (an updated
/// entry keeps its place) and the most entries it keeps.
pub ghost struct ArticleCacheView {
    pub entries: Seq<(Seq<char>, CachedArticle)>,
    pub capacity: nat,
}

impl ArticleCacheView {
    /// No URL has two entries.
    pub open spec fn wf(self) -> bool {
        forall|i: int, j: int|
            0 <= i < j < self.entries.len() ==> (#[trigger] self.entries[i]).0 != (#[trigger] self.entries[j]).0
    }

    /// The content cached for `url`, if any.
    pub open spec fn lookup(self, url: Seq<char>) -> Option<CachedArticle> {
        let p = find_entry(self.entries, url);
        if p >= 0 {
            Some(self.entries[p].1)
        } else {
            None
        }
    }

    /// The cache after inserting `article` for `url`: an entry for `url` is
    /// replaced in place; otherwise, when the cache holds `capacity` entries or
    /// more, its first earliest-fetched entry is evicted, and the new entry is
    /// added at the end.
    pub open spec fn insert(self, url: Seq<char>, article: CachedArticle) -> ArticleCacheView {
        let p = find_entry(self.entries, url);
        if p >= 0 {
            ArticleCacheView { entries: self.entries.update(p, (url, article)), capacity: self.capacity }
        } else if self.entries.len() >= self.capacity && self.entries.len() > 0 {
            ArticleCacheView {
                entries: self.entries.remove(oldest_entry(self.entries)).push((url, article)),
                capacity: self.capacity,
            }
        } else {
            ArticleCacheView { entries: self.entries.push((url, article)), capacity: self.capacity }
        }
    }
}

/// Where `find_entry` points.
pub proof fn lemma_find_entry(entries: Seq<(Seq<char>, CachedArticle)>, url: Seq<char>)
    ensures
        -1 <= find_entry(entries, url) < entries.len(),
        find_entry(entries, url) >= 0 ==> entries[find_entry(entries, url)].0 == url,
        find_entry(entries, url) >= 0 ==> forall|i: int| 0 <= i < find_entry(entries, url) ==> (#[trigger] entries[i]).0 != url,
        find_entry(entries, url) == -1 ==> forall|i: int| 0 <= i < entries.len() ==> (#[trigger] entries[i]).0 != url,
    decreases entries.len(),
{
    if entries.len() > 0 {
        lemma_find_entry(entries.drop_last(), url);
        let p = find_entry(entries.drop_last(), url);
        if p >= 0 {
            assert forall|i: int| 0 <= i < p implies (#[trigger] entries[i]).0 != url by {
                assert(entries.drop_last()[i] == entries[i]);
            }
            assert(entries.drop_last()[p] == entries[p]);
        } else {
            assert forall|i: int| 0 <= i < entries.len() - 1 implies (#[trigger] entries[i]).0 != url by {
                assert(entries.drop_last()[i] == entries[i]);
            }
        }
    }
}

/// `oldest_entry` is a position holding the least fetch time, and the first such.
pub proof fn lemma_oldest_entry(entries: Seq<(Seq<char>, CachedArticle)>)
    requires
        entries.len() > 0,
    ensures
        0 <= oldest_entry(entries) < entries.len(),
        forall|i: int| 0 <= i < entries.len() ==> instant(entries[oldest_entry(entries)].1.fetched_at) <= instant((#[trigger] entries[i]).1.fetched_at),
        forall|i: int| 0 <= i < oldest_entry(entries) ==> instant(entries[oldest_entry(entries)].1.fetched_at) < instant((#[trigger] entries[i]).1.fetched_at),
    decreases entries.len(),
{
    if entries.len() > 1 {
        lemma_oldest_entry(entries.drop_last());
        let k = oldest_entry(entries.drop_last());
        assert(entries.drop_last()[k] == entries[k]);
        assert forall|i: int| 0 <= i < entries.len() - 1 implies #[trigger] entries[i] == entries.drop_last()[i] by {}
    }
}



/// Inserting keeps one entry per URL.
pub proof fn lemma_insert_wf(v: ArticleCacheView, url: Seq<char>, a: CachedArticle)
    requires
        v.wf(),
    ensures
        v.insert(url, a).wf(),
{
    lemma_find_entry(v.entries, url);
    let w = v.insert(url, a);
    let p = find_entry(v.entries, url);
    if p >= 0 {
        assert forall|i: int| 0 <= i < w.entries.len() implies (#[trigger] w.entries[i]).0 == v.entries[i].0 by {}
    } else {
        let base = if v.entries.len() >= v.capacity && v.entries.len() > 0 {
            lemma_oldest_entry(v.entries);
            v.entries.remove(oldest_entry(v.entries))
        } else {
            v.entries
        };
        assert(w.entries == base.push((url, a)));
        assert forall|i: int| 0 <= i < base.len() implies (#[trigger] base[i]).0 != url by {
            if v.entries.len() >= v.capacity && v.entries.len() > 0 {
                let k = oldest_entry(v.entries);
                if i < k {
                    assert(base[i] == v.entries[i]);
                } else {
                    assert(base[i] == v.entries[i + 1]);
                }
            }
        }
        assert forall|i: int, j: int| 0 <= i < j < base.len() implies (#[trigger] base[i]).0 != (#[trigger] base[j]).0 by {
            if v.entries.len() >= v.capacity && v.entries.len() > 0 {
                let k = oldest_entry(v.entries);
                let ii = if i < k { i } else { i + 1 };
                let jj = if j < k { j } else { j + 1 };
                assert(base[i] == v.entries[ii]);
                assert(base[j] == v.entries[jj]);
            }
        }
    }
}

/// After inserting content for a URL, looking the URL up gives that content.
pub proof fn law_lookup_after_insert(v: ArticleCacheView, url: Seq<char>, a: CachedArticle)
    requires
        v.wf(),
    ensures
        v.insert(url, a).wf(),
        v.insert(url, a).lookup(url) == Some(a),
{
    let w = v.insert(url, a);
    lemma_find_entry(v.entries, url);
    lemma_insert_wf(v, url, a);
    lemma_find_entry(w.entries, url);
    let p = find_entry(v.entries, url);
    if p < 0 {
        if v.entries.len() >= v.capacity && v.entries.len() > 0 {
            lemma_oldest_entry(v.entries);
        }
        assert(w.entries[w.entries.len() - 1].0 == url);
    } else {
        assert(w.entries[p].0 == url);
    }
    assert(find_entry(w.entries, url) >= 0);
}

/// Inserting content for one URL leaves what another URL looks up as it was,
/// unless that URL's entry is the one evicted.
pub proof fn law_insert_leaves_other_urls(v: ArticleCacheView, url: Seq<char>, a: CachedArticle, u: Seq<char>)
    requires
        v.wf(),
        u != url,
        find_entry(v.entries, url) == -1 && v.entries.len() >= v.capacity && v.entries.len() > 0
            ==> v.entries[oldest_entry(v.entries)].0 != u,
    ensures
        v.insert(url, a).lookup(u) == v.lookup(u),
{
    let w = v.insert(url, a);
    lemma_find_entry(v.entries, url);
    lemma_find_entry(v.entries, u);
    lemma_insert_wf(v, url, a);
    lemma_find_entry(w.entries, u);
    let q = find_entry(v.entries, u);
    let q2 = find_entry(w.entries, u);
    if find_entry(v.entries, url) == -1 && v.entries.len() >= v.capacity && v.entries.len() > 0 {
        lemma_oldest_entry(v.entries);
        let k = oldest_entry(v.entries);
        if q >= 0 {
            let qq = if q < k { q } else { q - 1 };
            assert(w.entries[qq] == v.entries[q]);
            if q2 >= 0 {
                assert(q2 == qq);
            }
        } else {
            if q2 >= 0 {
                assert(q2 < w.entries.len() - 1);
                let src = if q2 < k { q2 } else { q2 + 1 };
                assert(w.entries[q2] == v.entries[src]);
            }
        }
    } else {
        if q >= 0 {
            assert(w.entries[q] == v.entries[q]);
        } else if q2 >= 0 {
            assert(w.entries[q2] == v.entries[q2]);
        }
    }
}

/// A cache holding at most its capacity (of at least one entry) still does
/// after an insertion, and an evicted entry was fetched no later than any other.
pub proof fn law_insert_respects_capacity(v: ArticleCacheView, url: Seq<char>, a: CachedArticle)
    requires
        v.wf(),
        v.capacity > 0,
        v.entries.len() <= v.capacity,
    ensures
        v.insert(url, a).entries.len() <= v.capacity,
        (find_entry(v.entries, url) == -1 && v.entries.len() >= v.capacity) ==> forall|i: int|
            0 <= i < v.entries.len() ==> instant(v.entries[oldest_entry(v.entries)].1.fetched_at) <= instant((#[trigger] v.entries[i]).1.fetched_at),
{
    lemma_find_entry(v.entries, url);
    if v.entries.len() > 0 {
        lemma_oldest_entry(v.entries);
    }
}

/// An insertion into a cache of at most its capacity (at least one entry):
/// the URL then looks up the new content and the cache still holds at most
/// its capacity; where the URL was cached or there was room, every other URL
/// looks up what it did; otherwise exactly one entry goes, the first of those
/// fetched earliest, and every other URL looks up what it did.
pub proof fn law_insert_evicts_only_the_oldest(v: ArticleCacheView, url: Seq<char>, a: CachedArticle)
    requires
        v.wf(),
        v.capacity > 0,
        v.entries.len() <= v.capacity,
    ensures
        v.insert(url, a).wf(),
        v.insert(url, a).lookup(url) == Some(a),
        v.insert(url, a).entries.len() <= v.capacity,
        v.lookup(url) is Some || v.entries.len() < v.capacity ==> forall|u: Seq<char>|
            u != url ==> #[trigger] v.insert(url, a).lookup(u) == v.lookup(u),
        v.lookup(url) is None && v.entries.len() == v.capacity ==> {
            let k = oldest_entry(v.entries);
            &&& 0 <= k < v.entries.len()
            &&& forall|i: int|
                0 <= i < v.entries.len() ==> instant(v.entries[k].1.fetched_at) <= instant(
                    (#[trigger] v.entries[i]).1.fetched_at,
                )
            &&& forall|i: int|
                0 <= i < k ==> instant(v.entries[k].1.fetched_at) < instant(
                    (#[trigger] v.entries[i]).1.fetched_at,
                )
            &&& v.lookup(v.entries[k].0) is Some
            &&& v.insert(url, a).lookup(v.entries[k].0) is None
            &&& forall|u: Seq<char>|
                u != url && u != v.entries[k].0 ==> #[trigger] v.insert(url, a).lookup(u) == v.lookup(
                    u,
                )
        },
{
    law_lookup_after_insert(v, url, a);
    law_insert_respects_capacity(v, url, a);
    lemma_find_entry(v.entries, url);
    let w = v.insert(url, a);
    if find_entry(v.entries, url) >= 0 || v.entries.len() < v.capacity {
        assert forall|u: Seq<char>| u != url implies #[trigger] w.lookup(u) == v.lookup(u) by {
            law_insert_leaves_other_urls(v, url, a, u);
        }
    } else {
        lemma_oldest_entry(v.entries);
        let k = oldest_entry(v.entries);
        let gone = v.entries[k].0;
        lemma_find_entry(v.entries, gone);
        assert(find_entry(v.entries, gone) == k);
        lemma_insert_wf(v, url, a);
        lemma_find_entry(w.entries, gone);
        if find_entry(w.entries, gone) >= 0 {
            let q = find_entry(w.entries, gone);
            assert(gone != url);
            assert(q < w.entries.len() - 1);
            let src = if q < k { q } else { q + 1 };
            assert(w.entries[q] == v.entries[src]);
        }
        assert forall|u: Seq<char>| u != url && u != gone implies #[trigger] w.lookup(u) == v.lookup(u) by {
            law_insert_leaves_other_urls(v, url, a, u);
        }
    }
}

/// Article content cache structure
#[derive(Debug)]
pub struct ArticleCache {
    /// Cached articles with their URLs
    entries: Vec<(String, CachedArticle)>,
    /// Maximum cached articles
    max_articles: usize,
}

impl View for ArticleCache {
    type V = ArticleCacheView;

    closed spec fn view(&self) -> ArticleCacheView {
        ArticleCacheView {
            entries: self.entries@.map_values(|e: (String, CachedArticle)| (e.0@, e.1)),
            capacity: self.max_articles as nat,
        }
    }
}

impl ArticleCache {
    /// Create a new article cache
    pub fn new(max_articles: usize) -> (r: Self)
        ensures
            r@.entries == Seq::<(Seq<char>, CachedArticle)>::empty(),
            r@.capacity == max_articles,
            r@.wf(),
    {
        let r = ArticleCache { entries: Vec::new(), max_articles };
        assert(r@.entries =~= Seq::<(Seq<char>, CachedArticle)>::empty());
        r
    }

    fn find(&self, url: &str) -> (r: Option<usize>)
        ensures
            match r {
                Some(i) => find_entry(self@.entries, url@) == i,
                None => find_entry(self@.entries, url@) == -1,
            },
    {
        let ghost es = self@.entries;
        let mut i: usize = 0;
        assert(es.take(0) == Seq::<(Seq<char>, CachedArticle)>::empty());
        while i < self.entries.len()
            invariant
                i <= self.entries.len(),
                es == self@.entries,
                find_entry(es.take(i as int), url@) == -1,
            decreases self.entries.len() - i,
        {
            assert(es.take(i + 1).drop_last() == es.take(i as int));
            assert(es.take(i + 1).last() == es[i as int]);
            if self.entries[i].0.as_str().to_owned() == url.to_owned() {
                assert(es[i as int].0 == url@);
                proof {
                    lemma_find_prefix(es, i + 1, url@);
                }
                return Some(i);
            }
            i = i + 1;
        }
        assert(es.take(self.entries.len() as int) == es);
        None
    }

    /// Get cached article content by URL
    pub fn get(&self, url: &str) -> (r: Result<Option<CachedArticle>, Error>)
        ensures
            r == Ok::<Option<CachedArticle>, Error>(self@.lookup(url@)),
    {
        proof {
            lemma_find_entry(self@.entries, url@);
        }
        match self.find(url) {
            Some(i) => {
                assert(self@.entries[i as int].1 == self.entries@[i as int].1);
                Ok(Some(self.entries[i].1.duplicate()))
            },
            None => Ok(None),
        }
    }

    fn oldest(&self) -> (r: usize)
        requires
            self.entries.len() > 0,
        ensures
            r == oldest_entry(self@.entries),
    {
        let ghost es = self@.entries;
        let mut k: usize = 0;
        let mut i: usize = 1;
        assert(es.take(1).len() == 1);
        while i < self.entries.len()
            invariant
                1 <= i <= self.entries.len(),
                es == self@.entries,
                k == oldest_entry(es.take(i as int)),
                k < i,
            decreases self.entries.len() - i,
        {
            assert(es.take(i + 1).drop_last() == es.take(i as int));
            assert(es.take(i + 1).last() == es[i as int]);
            assert(es.take(i + 1)[k as int] == es[k as int]);
            if earlier(self.entries[i].1.fetched_at, self.entries[k].1.fetched_at) {
                k = i;
            }
            i = i + 1;
        }
        assert(es.take(self.entries.len() as int) == es);
        k
    }

    /// Insert or update cached article content. When the URL is new and the
    /// cache is full, the entry fetched earliest is evicted first.
    pub fn insert(&mut self, url: String, article: CachedArticle) -> (r: Result<(), Error>)
        requires
            old(self)@.wf(),
        ensures
            r is Ok,
            final(self)@ == old(self)@.insert(url@, article),
            final(self)@.wf(),
    {
        let ghost before = self@;
        proof {
            lemma_find_entry(before.entries, url@);
        }
        match self.find(url.as_str()) {
            Some(i) => {
                let ghost u = url@;
                self.entries.set(i, (url, article));
                assert(self@.entries =~= before.entries.update(i as int, (u, article)));
            },
            None => {
                let ghost u = url@;
                if self.entries.len() >= self.max_articles && self.entries.len() > 0 {
                    let k = self.oldest();
                    proof {
                        lemma_oldest_entry(before.entries);
                    }
                    self.entries.remove(k);
                    assert(self@.entries =~= before.entries.remove(k as int));
                }
                self.entries.push((url, article));
                assert(self@.entries =~= before.insert(u, article).entries);
            },
        }
        Ok(())
    }

    /// Get total cached article count
    pub fn count(&self) -> (r: Result<usize, Error>)
        ensures
            r == Ok::<usize, Error>(self@.entries.len() as usize),
    {
        Ok(self.entries.len())
    }

    /// Clear all cached articles
    pub fn clear(&mut self) -> (r: Result<(), Error>)
        ensures
            r is Ok,
            final(self)@.entries == Seq::<(Seq<char>, CachedArticle)>::empty(),
            final(self)@.capacity == old(self)@.capacity,
            final(self)@.wf(),
    {
        self.entries = Vec::new();
        assert(self@.entries =~= Seq::<(Seq<char>, CachedArticle)>::empty());
        Ok(())
    }
}

impl Default for ArticleCache {
    fn default() -> (r: Self)
        ensures
            r@.entries == Seq::<(Seq<char>, CachedArticle)>::empty(),
            r@.capacity == 100,
            r@.wf(),
    {
        Self::new(100)
    }
}

proof fn lemma_find_prefix(es: Seq<(Seq<char>, CachedArticle)>, n: int, url: Seq<char>)
    requires
        0 < n <= es.len(),
        find_entry(es.take(n - 1), url) == -1,
        es[n - 1].0 == url,
    ensures
        find_entry(es, url) == n - 1,
    decreases es.len(),
{
    if es.len() > n {
        assert(es.drop_last().take(n - 1) == es.take(n - 1));
        lemma_find_prefix(es.drop_last(), n, url);
    } else {
        assert(es.take(n - 1) == es.drop_last());
    }
}

} // verus!
