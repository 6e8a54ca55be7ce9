//! get_categories: the categories with their article counts.

use vstd::prelude::*;

use super::{ToolError, ToolOutput};
use crate::cache::news_cache::{
    category_counts, description_of, display_name_of, CacheView, NewsCache, NewsCategory,
};
use crate::text::{decimal, push_decimal, push_str, string_of};

verus! {

/// Get categories tool parameters (it takes none).
#[derive(Debug, Clone)]
pub struct GetCategoriesTool {}

/// The listing of one category with its article count.
pub open spec fn category_entry(c: NewsCategory, count: nat) -> Seq<char> {
    "- **"@ + display_name_of(c) + "** ("@ + decimal(count) + " articles)\n"@ + "  "@
        + description_of(c) + "\n\n"@
}

/// The listings of the categories, in order.
pub open spec fn category_entries(counts: Seq<(NewsCategory, usize)>) -> Seq<char>
    decreases counts.len(),
{
    if counts.len() == 0 {
        Seq::empty()
    } else {
        category_entries(counts.drop_last()) + category_entry(counts.last().0, counts.last().1 as nat)
    }
}

/// What the tool replies for a cache.
pub open spec fn categories_reply(cache: CacheView) -> Seq<char> {
    "# Available News Categories\n\n"@ + category_entries(category_counts(cache))
}

impl GetCategoriesTool {
    /// Lists every category with its display name, article count and description.
    pub fn execute(&self, cache: &NewsCache) -> (r: Result<ToolOutput, ToolError>)
        requires
            cache@.wf(),
        ensures
            r matches Ok(ToolOutput::Text(t)) && t@ == categories_reply(cache@),
    {
        let counts = match cache.get_all_categories() {
            Ok(v) => v,
            Err(_) => Vec::new(),
        };
        let mut out: Vec<char> = Vec::new();
        push_str(&mut out, "# Available News Categories\n\n");
        let ghost head = out@;
        let mut i: usize = 0;
        assert(counts@.take(0) == Seq::<(NewsCategory, usize)>::empty());
        while i < counts.len()
            invariant
                i <= counts.len(),
                counts@ == category_counts(cache@),
                out@ == head + category_entries(counts@.take(i as int)),
            decreases counts.len() - i,
        {
            assert(counts@.take(i + 1).drop_last() == counts@.take(i as int));
            assert(counts@.take(i + 1).last() == counts@[i as int]);
            let (c, n) = counts[i];
            push_str(&mut out, "- **");
            push_str(&mut out, c.display_name());
            push_str(&mut out, "** (");
            push_decimal(&mut out, n as u64);
            push_str(&mut out, " articles)\n");
            push_str(&mut out, "  ");
            push_str(&mut out, c.description());
            push_str(&mut out, "\n\n");
            i = i + 1;
        }
        assert(counts@.take(counts.len() as int) == counts@);
        Ok(ToolOutput::Text(string_of(&out)))
    }
}

} // verus!
