//! search_news: cached news whose title or description contains a keyword.

use vstd::prelude::*;

use super::{
    clamp_limit, effective_limit, first_n, invalid_category_error, invalid_category_reply,
    keep_first, render_articles, render_reply, reply_view, text_or_default, ToolError, ToolOutput,
};
use crate::cache::news_cache::{category_for_key, CacheView, NewsCache, NewsCategory};
use crate::text::lowercase;

verus! {

/// Search news tool parameters
#[derive(Debug, Clone)]
pub struct SearchNewsTool {
    /// Search query string
    pub query: String,
    /// Optional category filter
    pub category: Option<String>,
    /// Number of results (default 10, at least 1, at most 50)
    pub limit: Option<u32>,
    /// Output format: markdown (default), json or text
    pub format: Option<String>,
}

impl SearchNewsTool {
    /// What the tool replies for these parameters and cache.
    pub open spec fn reply(self, cache: CacheView) -> Result<super::ToolOutputView, Seq<char>> {
        let fmt = text_or_default(self.format, "markdown"@);
        let lim = effective_limit(self.limit);
        match self.category {
            Some(name) => match category_for_key(lowercase(name@)) {
                None => Err(invalid_category_reply(name@)),
                Some(c) => render_reply(first_n(cache.search_result(self.query@, Some(c)), lim), fmt),
            },
            None => render_reply(first_n(cache.search_result(self.query@, None), lim), fmt),
        }
    }

    /// Searches the cached news by keyword in title and description.
    pub fn execute(&self, cache: &NewsCache) -> (r: Result<ToolOutput, ToolError>)
        requires
            cache@.wf(),
        ensures
            reply_view(r) == self.reply(cache@),
    {
        let limit = clamp_limit(self.limit);
        let category: Option<NewsCategory> = match &self.category {
            Some(name) => match NewsCategory::parse(name.as_str()) {
                Ok(c) => Some(c),
                Err(_) => return Err(invalid_category_error(name.as_str())),
            },
            None => None,
        };
        let found = match category {
            Some(c) => cache.search(self.query.as_str(), Some(&c)),
            None => cache.search(self.query.as_str(), None),
        };
        let articles = match found {
            Ok(v) => v,
            Err(_) => Vec::new(),
        };
        let limited = keep_first(articles, limit);
        let format = match &self.format {
            Some(f) => f.clone(),
            None => "markdown".to_owned(),
        };
        render_articles(limited, format.as_str())
    }
}

} // verus!
