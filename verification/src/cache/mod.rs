//! In-memory caches: news articles by category, and fetched article content by URL.

pub mod article_cache;
pub mod category_keys;
pub mod news_cache;

use vstd::prelude::*;

pub use article_cache::{ArticleCache, CachedArticle};
pub use news_cache::{NewsArticle, NewsCache, NewsCategory};

verus! {

/// Create a new news cache with the given configuration
pub fn create_cache(max_articles_per_category: usize) -> (r: NewsCache)
    ensures
        r@ == news_cache::CacheView::empty(max_articles_per_category as nat),
        r@.wf(),
{
    NewsCache::new(max_articles_per_category)
}

/// Create a new article content cache
pub fn create_article_cache(max_articles: usize) -> (r: ArticleCache)
    ensures
        r@.entries == Seq::<(Seq<char>, CachedArticle)>::empty(),
        r@.capacity == max_articles,
        r@.wf(),
{
    ArticleCache::new(max_articles)
}

} // verus!
