//! refresh_news: reports the cached data and says what to refresh in the background.

use vstd::prelude::*;

use super::{invalid_category_error, invalid_category_reply, ToolError};
use crate::cache::news_cache::{
    category_for_key, display_name_of, CacheView, NewsArticle, NewsCache, NewsCategory,
};
use crate::poller::{fetched_total, lemma_fetched_total_prefix, results_view};
use crate::text::{decimal, lowercase, push_decimal, push_str, string_of};
use crate::time::Timestamp;

verus! {

/// Refresh news tool parameters
#[derive(Debug, Clone)]
pub struct RefreshNewsTool {
    /// Optional specific category to refresh
    pub category: Option<String>,
}

/// What a refresh fetches anew.
#[derive(Debug, Clone, Copy, PartialEq, Eq, Structural)]
pub enum RefreshTarget {
    /// One category
    Category(NewsCategory),
    /// Every category
    All,
}

/// The immediate reply of a refresh and what it then refreshes.
#[derive(Debug, Clone)]
pub struct RefreshPlan {
    /// The status text returned at once
    pub text: String,
    /// What the background refresh fetches
    pub target: RefreshTarget,
}

/// The status text of a refresh.
pub open spec fn refresh_text(category_line: Seq<char>, cached: nat) -> Seq<char> {
    "# Refresh News Status\n\n"@ + category_line + "Current cached articles: "@ + decimal(cached)
        + "\n\n"@ + "Status: Refresh triggered in background\n"@
        + "Note: New data will be available on next request\n"@
}

impl RefreshNewsTool {
    /// What the tool replies for these parameters and cache: the status text
    /// and the target, or the error message.
    pub open spec fn reply(self, cache: CacheView) -> Result<(Seq<char>, RefreshTarget), Seq<char>> {
        match self.category {
            Some(name) => match category_for_key(lowercase(name@)) {
                None => Err(invalid_category_reply(name@)),
                Some(c) => Ok(
                    (
                        refresh_text(
                            "Category: "@ + display_name_of(c) + "\n\n"@,
                            cache.news(c).len(),
                        ),
                        RefreshTarget::Category(c),
                    ),
                ),
            },
            None => Ok((refresh_text("All categories\n\n"@, 0), RefreshTarget::All)),
        }
    }

    /// Reports the currently cached articles of the category (none when all
    /// categories are refreshed) and what the background refresh fetches.
    pub fn execute(&self, cache: &NewsCache) -> (r: Result<RefreshPlan, ToolError>)
        requires
            cache@.wf(),
        ensures
            match r {
                Ok(p) => self.reply(cache@) == Ok::<(Seq<char>, RefreshTarget), Seq<char>>(
                    (p.text@, p.target),
                ),
                Err(e) => self.reply(cache@) == Err::<(Seq<char>, RefreshTarget), Seq<char>>(
                    e.message@,
                ),
            },
    {
        let mut out: Vec<char> = Vec::new();
        push_str(&mut out, "# Refresh News Status\n\n");
        let ghost mut line: Seq<char> = Seq::empty();
        let (count, target) = match &self.category {
            Some(name) => {
                let c = match NewsCategory::parse(name.as_str()) {
                    Ok(c) => c,
                    Err(_) => return Err(invalid_category_error(name.as_str())),
                };
                push_str(&mut out, "Category: ");
                push_str(&mut out, c.display_name());
                push_str(&mut out, "\n\n");
                proof {
                    line = "Category: "@ + display_name_of(c) + "\n\n"@;
                }
                let current = match cache.get_category_news(&c) {
                    Ok(v) => v,
                    Err(_) => Vec::new(),
                };
                (current.len(), RefreshTarget::Category(c))
            },
            None => {
                push_str(&mut out, "All categories\n\n");
                proof {
                    line = "All categories\n\n"@;
                }
                (0, RefreshTarget::All)
            },
        };
        push_str(&mut out, "Current cached articles: ");
        push_decimal(&mut out, count as u64);
        push_str(&mut out, "\n\n");
        push_str(&mut out, "Status: Refresh triggered in background\n");
        push_str(&mut out, "Note: New data will be available on next request\n");
        assert(out@ == refresh_text(line, count as nat));
        Ok(RefreshPlan { text: string_of(&out), target })
    }
}

/// The cache after a background refresh at time `now`: every fetched
/// category is set to what was fetched, in the order of the results, empty or not.
pub open spec fn refresh_effect(v: CacheView, results: Seq<(NewsCategory, Seq<NewsArticle>)>, now: Timestamp) -> CacheView
    decreases results.len(),
{
    if results.len() == 0 {
        v
    } else {
        refresh_effect(v, results.drop_last(), now).set(results.last().0, results.last().1, now)
    }
}

/// Store what a background refresh fetched, at time `now`: each fetched
/// category is set to its articles, in the order of the results, even when
/// none were fetched. Answers the number of articles fetched.
pub fn apply_refresh_results(cache: &mut NewsCache, results: Vec<(NewsCategory, Vec<NewsArticle>)>, now: Timestamp) -> (r: usize)
    requires
        old(cache)@.wf(),
        fetched_total(results_view(results@)) <= usize::MAX,
    ensures
        final(cache)@ == refresh_effect(old(cache)@, results_view(results@), now),
        final(cache)@.wf(),
        r == fetched_total(results_view(results@)),
{
    let ghost rv = results_view(results@);
    let ghost v0 = cache@;
    let mut total: usize = 0;
    let n = results.len();
    let mut rest = results;
    let mut i: usize = 0;
    assert(rv.take(0) == Seq::<(NewsCategory, Seq<NewsArticle>)>::empty());
    while i < n
        invariant
            i <= n == rv.len(),
            rest.len() == n - i,
            forall|k: int| 0 <= k < rest.len() ==> (#[trigger] rest@[k]).0 == rv[i + k].0
                && rest@[k].1@ == rv[i + k].1,
            fetched_total(rv) <= usize::MAX,
            cache@ == refresh_effect(v0, rv.take(i as int), now),
            cache@.wf(),
            total == fetched_total(rv.take(i as int)),
        decreases n - i,
    {
        assert(rest@[0].0 == rv[i as int].0);
        let (category, articles) = rest.remove(0);
        assert(rv.take(i + 1).drop_last() == rv.take(i as int));
        assert(rv.take(i + 1).last() == rv[i as int]);
        proof {
            lemma_fetched_total_prefix(rv, i + 1);
        }
        total = total + articles.len();
        cache.set_category_news_at(category, articles, now);
        i = i + 1;
    }
    assert(rv.take(n as int) == rv);
    total
}

} // verus!
