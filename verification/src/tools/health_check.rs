//! health_check: server status and cache statistics.

use vstd::prelude::*;

use super::{ToolError, ToolOutput};
use crate::cache::news_cache::{
    all_categories, category_counts, count_sum, display_name_of, law_counts_agree, CacheView, NewsCache, NewsCategory,
};
use crate::text::{decimal, push_decimal, push_str, string_of};
use crate::time::chrono_represents;
use crate::utils::{format_minute, minute_text};

verus! {

/// Health check tool parameters
#[derive(Debug, Clone)]
pub struct HealthCheckTool {
    /// Check type: all, internal or external (each gives the same report)
    pub check_type: Option<String>,
    /// Show detailed information (default false)
    pub verbose: Option<bool>,
}

/// The line of one category in the cache statistics.
pub open spec fn count_line(c: NewsCategory, count: nat) -> Seq<char> {
    "  - "@ + display_name_of(c) + ": "@ + decimal(count) + " articles\n"@
}

/// The statistics lines of the categories: every category when verbose,
/// else those holding articles.
pub open spec fn count_lines(counts: Seq<(NewsCategory, usize)>, verbose: bool) -> Seq<char>
    decreases counts.len(),
{
    if counts.len() == 0 {
        Seq::empty()
    } else {
        count_lines(counts.drop_last(), verbose) + if verbose || counts.last().1 > 0 {
            count_line(counts.last().0, counts.last().1 as nat)
        } else {
            Seq::empty()
        }
    }
}

/// The update-time lines of the categories that were set.
pub open spec fn update_lines(cats: Seq<NewsCategory>, cache: CacheView) -> Seq<char>
    decreases cats.len(),
{
    if cats.len() == 0 {
        Seq::empty()
    } else {
        update_lines(cats.drop_last(), cache) + match cache.updated(cats.last()) {
            Some(t) => if chrono_represents(t.secs) {
                "- "@ + display_name_of(cats.last()) + ": "@ + minute_text(t.secs) + "\n"@
            } else {
                Seq::empty()
            },
            None => Seq::empty(),
        }
    }
}

/// What the tool replies for a cache.
pub open spec fn health_reply(cache: CacheView, verbose: bool) -> Seq<char> {
    "# Health Check Report\n\n"@ + "## Server Status\n\n"@ + "- **Status**: Healthy\n"@
        + "- **Version**: 0.1.0\n\n"@ + "## Cache Statistics\n\n"@ + "- **Total Articles**: "@
        + decimal(cache.total()) + "\n"@ + "- **Categories**:\n"@ + count_lines(
        category_counts(cache),
        verbose,
    ) + "\n"@ + if verbose {
        "## Last Update Times\n\n"@ + update_lines(all_categories(), cache) + "\n"@
    } else {
        Seq::empty()
    }
}

/// The health report gives, after its status header, the total number of
/// cached articles: the sum of the article counts of all categories.
pub proof fn law_report_total_is_sum_of_counts(cache: CacheView, verbose: bool)
    requires
        cache.wf(),
    ensures
        exists|rest: Seq<char>|
            health_reply(cache, verbose) == "# Health Check Report\n\n## Server Status\n\n- **Status**: Healthy\n- **Version**: 0.1.0\n\n## Cache Statistics\n\n- **Total Articles**: "@
                + decimal(count_sum(category_counts(cache))) + "\n"@ + rest,
{
    law_counts_agree(cache);
    reveal_strlit("# Health Check Report\n\n## Server Status\n\n- **Status**: Healthy\n- **Version**: 0.1.0\n\n## Cache Statistics\n\n- **Total Articles**: ");
    reveal_strlit("# Health Check Report\n\n");
    reveal_strlit("## Server Status\n\n");
    reveal_strlit("- **Status**: Healthy\n");
    reveal_strlit("- **Version**: 0.1.0\n\n");
    reveal_strlit("## Cache Statistics\n\n");
    reveal_strlit("- **Total Articles**: ");
    let rest = "- **Categories**:\n"@ + count_lines(category_counts(cache), verbose) + "\n"@ + if verbose {
        "## Last Update Times\n\n"@ + update_lines(all_categories(), cache) + "\n"@
    } else {
        Seq::empty()
    };
    let head = "# Health Check Report\n\n## Server Status\n\n- **Status**: Healthy\n- **Version**: 0.1.0\n\n## Cache Statistics\n\n- **Total Articles**: "@;
    assert(head == "# Health Check Report\n\n"@ + "## Server Status\n\n"@ + "- **Status**: Healthy\n"@
        + "- **Version**: 0.1.0\n\n"@ + "## Cache Statistics\n\n"@ + "- **Total Articles**: "@);
    assert(health_reply(cache, verbose) == head + decimal(count_sum(category_counts(cache))) + "\n"@ + rest);
}

impl HealthCheckTool {
    /// Whether the detailed report is asked for.
    pub open spec fn is_verbose(self) -> bool {
        match self.verbose {
            Some(b) => b,
            None => false,
        }
    }

    /// Reports the server status and the cache statistics; verbosely, every
    /// category's count and the last update times.
    pub fn execute(&self, cache: &NewsCache) -> (r: Result<ToolOutput, ToolError>)
        requires
            cache@.wf(),
            cache@.total() <= usize::MAX,
        ensures
            r matches Ok(ToolOutput::Text(t)) && t@ == health_reply(cache@, self.is_verbose()),
    {
        let verbose = match self.verbose {
            Some(b) => b,
            None => false,
        };
        let mut out: Vec<char> = Vec::new();
        push_str(&mut out, "# Health Check Report\n\n");
        push_str(&mut out, "## Server Status\n\n");
        push_str(&mut out, "- **Status**: Healthy\n");
        push_str(&mut out, "- **Version**: 0.1.0\n\n");
        push_str(&mut out, "## Cache Statistics\n\n");
        let counts = match cache.get_all_categories() {
            Ok(v) => v,
            Err(_) => Vec::new(),
        };
        let total = match cache.total_article_count() {
            Ok(n) => n,
            Err(_) => 0,
        };
        push_str(&mut out, "- **Total Articles**: ");
        push_decimal(&mut out, total as u64);
        push_str(&mut out, "\n");
        push_str(&mut out, "- **Categories**:\n");
        let ghost head = out@;
        let mut i: usize = 0;
        assert(counts@.take(0) == Seq::<(NewsCategory, usize)>::empty());
        while i < counts.len()
            invariant
                i <= counts.len(),
                counts@ == category_counts(cache@),
                out@ == head + count_lines(counts@.take(i as int), verbose),
            decreases counts.len() - i,
        {
            assert(counts@.take(i + 1).drop_last() == counts@.take(i as int));
            assert(counts@.take(i + 1).last() == counts@[i as int]);
            let (c, n) = counts[i];
            if verbose || n > 0 {
                push_str(&mut out, "  - ");
                push_str(&mut out, c.display_name());
                push_str(&mut out, ": ");
                push_decimal(&mut out, n as u64);
                push_str(&mut out, " articles\n");
            } else {
                assert(out@ + Seq::<char>::empty() == out@);
            }
            i = i + 1;
        }
        assert(counts@.take(counts.len() as int) == counts@);
        push_str(&mut out, "\n");
        if verbose {
            push_str(&mut out, "## Last Update Times\n\n");
            let cats = NewsCategory::all();
            let ghost head2 = out@;
            let mut j: usize = 0;
            assert(cats@.take(0) == Seq::<NewsCategory>::empty());
            while j < cats.len()
                invariant
                    j <= cats.len(),
                    cats@ == all_categories(),
                    cache@.wf(),
                    out@ == head2 + update_lines(cats@.take(j as int), cache@),
                decreases cats.len() - j,
            {
                assert(cats@.take(j + 1).drop_last() == cats@.take(j as int));
                assert(cats@.take(j + 1).last() == cats@[j as int]);
                let c = cats[j];
                let updated = match cache.get_last_updated(&c) {
                    Ok(u) => u,
                    Err(_) => None,
                };
                match updated {
                    Some(t) => match format_minute(t.secs) {
                        Some(text) => {
                            push_str(&mut out, "- ");
                            push_str(&mut out, c.display_name());
                            push_str(&mut out, ": ");
                            push_str(&mut out, text.as_str());
                            push_str(&mut out, "\n");
                        },
                        None => {
                            assert(out@ + Seq::<char>::empty() == out@);
                        },
                    },
                    None => {
                        assert(out@ + Seq::<char>::empty() == out@);
                    },
                }
                j = j + 1;
            }
            assert(cats@.take(cats.len() as int) == cats@);
            push_str(&mut out, "\n");
        }
        Ok(ToolOutput::Text(string_of(&out)))
    }
}

} // verus!
