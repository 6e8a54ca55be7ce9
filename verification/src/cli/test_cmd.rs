//! The self-tests that the test command runs.

use vstd::prelude::*;

use crate::cache::news_cache::{matching, NewsArticle, NewsCache, NewsCategory, CATEGORY_COUNT};
use crate::cli::commands::TestCommand;
use crate::error::Error;
use crate::text::{chars_of, eq_lit, lowercase, push_str, string_of};

verus! {

/// A group of self-tests.
#[derive(Debug, Clone, Copy, PartialEq, Eq, Structural)]
pub enum TestKind {
    /// Cache operations
    Cache,
    /// Poller configuration
    Poll,
    /// Tool registry
    Tools,
}

/// The self-tests that a test type asks for, in order.
pub open spec fn tests_for(t: Seq<char>) -> Option<Seq<TestKind>> {
    if t == "cache"@ {
        Some(seq![TestKind::Cache])
    } else if t == "poll"@ {
        Some(seq![TestKind::Poll])
    } else if t == "tools"@ {
        Some(seq![TestKind::Tools])
    } else if t == "all"@ {
        Some(seq![TestKind::Cache, TestKind::Poll, TestKind::Tools])
    } else {
        None
    }
}


/// Run the test command: the self-tests to run for its test type (`cache`,
/// `poll`, `tools`, or `all` for the three in that order), or a configuration
/// error for any other type.
pub fn test_command(cmd: &TestCommand) -> (r: Result<Vec<TestKind>, Error>)
    ensures
        tests_for(cmd.test_type@) matches Some(ts) ==> r matches Ok(v) && v@ == ts,
        tests_for(cmd.test_type@) is None ==> (r matches Err(e) && e matches Error::Config {
            field,
            message,
            expected,
        } && field@ == "test_type"@ && message@ == "Invalid test type: "@ + cmd.test_type@
            && expected is None),
{
    let t = chars_of(cmd.test_type.as_str());
    if eq_lit(&t, "cache") {
        Ok(vec![TestKind::Cache])
    } else if eq_lit(&t, "poll") {
        Ok(vec![TestKind::Poll])
    } else if eq_lit(&t, "tools") {
        Ok(vec![TestKind::Tools])
    } else if eq_lit(&t, "all") {
        Ok(vec![TestKind::Cache, TestKind::Poll, TestKind::Tools])
    } else {
        let mut m: Vec<char> = Vec::new();
        push_str(&mut m, "Invalid test type: ");
        push_str(&mut m, cmd.test_type.as_str());
        let message = string_of(&m);
        Err(Error::config("test_type", message.as_str()))
    }
}

/// What the cache self-test counted.
#[derive(Debug, Clone, Copy, PartialEq, Eq, Structural)]
pub struct CacheSelfTest {
    /// Articles read back after setting two
    pub retrieved: usize,
    /// Articles that a search for `Test` found among them
    pub search_results: usize,
    /// Categories listed with their counts
    pub categories: usize,
}

/// Whether `a` is a sample article of the self-test with this title and description.
pub open spec fn is_sample(a: NewsArticle, title: Seq<char>, description: Seq<char>) -> bool {
    &&& a.title@ == title
    &&& a.description matches Some(d) && d@ == description
    &&& a.category == NewsCategory::Technology
}

fn sample_article(title: &str, description: &str, link: &str) -> (r: NewsArticle)
    ensures
        is_sample(r, title@, description@),
{
    NewsArticle::new(
        title.to_owned(),
        Some(description.to_owned()),
        link.to_owned(),
        "Test Source".to_owned(),
        NewsCategory::Technology,
        None,
        None,
    )
}

/// The cache self-test: set two articles in the Technology category of a new
/// cache, read them back, search them for `Test`, and list the categories.
/// Two articles come back, the search finds those of the two that match, and
/// every category is listed.
pub fn test_cache() -> (r: Result<CacheSelfTest, Error>)
    ensures
        r matches Ok(t) && t.retrieved == 2 && t.categories == CATEGORY_COUNT && exists|s: Seq<NewsArticle>|
            s.len() == 2 && is_sample(s[0], "Test Article 1"@, "Description 1"@) && is_sample(
                s[1],
                "Test Article 2"@,
                "Description 2"@,
            ) && t.search_results == matching(s, lowercase("Test"@)).len(),
{
    let mut cache = NewsCache::new(100);
    let mut articles: Vec<NewsArticle> = Vec::new();
    articles.push(sample_article("Test Article 1", "Description 1", "https://example.com/1"));
    articles.push(sample_article("Test Article 2", "Description 2", "https://example.com/2"));
    let ghost set = articles@;
    cache.set_category_news(NewsCategory::Technology, articles)?;
    let retrieved = cache.get_category_news(&NewsCategory::Technology)?;
    assert(retrieved@ == set);
    let found = cache.search("Test", Some(&NewsCategory::Technology))?;
    let categories = cache.get_all_categories()?;
    assert(set.len() == 2 && is_sample(set[0], "Test Article 1"@, "Description 1"@));
    Ok(CacheSelfTest { retrieved: retrieved.len(), search_results: found.len(), categories: categories.len() })
}

} // verus!
