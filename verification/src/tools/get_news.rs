//! get_news: the latest cached news of a category.

use vstd::prelude::*;

use super::{
    clamp_limit, effective_limit, first_n, invalid_category_error, invalid_category_reply,
    keep_first, render_articles, render_reply, reply_view, text_or_default, ToolError, ToolOutput,
};
use crate::cache::news_cache::{category_for_key, NewsCache, NewsCategory};
use crate::text::lowercase;

verus! {

/// Get news tool parameters
#[derive(Debug, Clone)]
pub struct GetNewsTool {
    /// News category (default `technology`)
    pub category: Option<String>,
    /// Number of articles to return (default 10, at least 1, at most 50)
    pub limit: Option<u32>,
    /// Output format: markdown (default), json or text
    pub format: Option<String>,
}

impl GetNewsTool {
    /// What the tool replies for these parameters and cache.
    pub open spec fn reply(self, cache: crate::cache::news_cache::CacheView) -> Result<
        super::ToolOutputView,
        Seq<char>,
    > {
        let name = text_or_default(self.category, "technology"@);
        match category_for_key(lowercase(name)) {
            None => Err(invalid_category_reply(name)),
            Some(c) => render_reply(
                first_n(cache.news(c), effective_limit(self.limit)),
                text_or_default(self.format, "markdown"@),
            ),
        }
    }

    /// Fetches the latest news of a category from the cache, in the requested format.
    pub fn execute(&self, cache: &NewsCache) -> (r: Result<ToolOutput, ToolError>)
        requires
            cache@.wf(),
        ensures
            reply_view(r) == self.reply(cache@),
    {
        let limit = clamp_limit(self.limit);
        let name = match &self.category {
            Some(c) => c.clone(),
            None => "technology".to_owned(),
        };
        let category = match NewsCategory::parse(name.as_str()) {
            Ok(c) => c,
            Err(_) => return Err(invalid_category_error(name.as_str())),
        };
        let articles = match cache.get_category_news(&category) {
            Ok(v) => v,
            Err(_) => Vec::new(),
        };
        let limited = keep_first(articles, limit);
        let format = match &self.format {
            Some(f) => f.clone(),
            None => "markdown".to_owned(),
        };
        render_articles(limited, format.as_str())
    }
}

} // verus!
