//! RSS/Atom feeds: parsing with `feed-rs` and turning entries into articles.

use vstd::prelude::*;

use crate::cache::news_cache::{NewsArticle, NewsCategory};
use crate::error::Error;
use crate::service::{newest_first, sort_newest_first};
pub use crate::service::feed_text::{feed_is_safe_to_parse, feed_text_is_safe};
use crate::text::{push_str, string_of};
use crate::time::{chrono_represents, Timestamp};
use chrono::{DateTime, Utc};
use feed_rs::model::Text;
use feed_rs::parser;
use vstd::string::StringSliceAdditionalSpecFns;

verus! {

/// The fields of a feed entry that articles are made from.
#[derive(Debug, Clone)]
pub struct FeedEntry {
    /// Entry title
    pub title: Option<String>,
    /// Entry summary
    pub summary: Option<String>,
    /// Entry content: `Some(body)` where the entry has content, whose body may be absent
    pub content_body: Option<Option<String>>,
    /// The first link's target
    pub link: Option<String>,
    /// Publication time
    pub published: Option<Timestamp>,
    /// Update time
    pub updated: Option<Timestamp>,
    /// The first author's name
    pub author: Option<String>,
}

/// The timestamp of a pair of whole seconds and nanoseconds.
pub open spec fn stamp_of(p: Option<(i64, u32)>) -> Option<Timestamp> {
    match p {
        Some((secs, nanos)) => Some(Timestamp { secs, nanos }),
        None => None,
    }
}

fn to_stamp(p: Option<(i64, u32)>) -> (r: Option<Timestamp>)
    ensures
        r == stamp_of(p),
{
    match p {
        Some((secs, nanos)) => Some(Timestamp { secs, nanos }),
        None => None,
    }
}

impl FeedEntry {
    /// An entry with the given fields, its times given as whole seconds since
    /// the Unix epoch and nanoseconds past them.
    pub fn new(
        title: Option<String>,
        summary: Option<String>,
        content_body: Option<Option<String>>,
        link: Option<String>,
        published: Option<(i64, u32)>,
        updated: Option<(i64, u32)>,
        author: Option<String>,
    ) -> (r: Self)
        ensures
            r == (FeedEntry {
                title,
                summary,
                content_body,
                link,
                published: stamp_of(published),
                updated: stamp_of(updated),
                author,
            }),
    {
        FeedEntry {
            title,
            summary,
            content_body,
            link,
            published: to_stamp(published),
            updated: to_stamp(updated),
            author,
        }
    }
}

/// The fields of a feed that articles are made from.
#[derive(Debug, Clone)]
pub struct ParsedFeed {
    /// Feed title
    pub title: Option<String>,
    /// Entries, in document order
    pub entries: Vec<FeedEntry>,
}

impl ParsedFeed {
    /// A feed with the given title and entries.
    pub fn new(title: Option<String>, entries: Vec<FeedEntry>) -> (r: Self)
        ensures
            r.title == title,
            r.entries@ == entries@,
    {
        ParsedFeed { title, entries }
    }
}

/// The text of an optional string.
pub open spec fn opt_text(o: Option<String>) -> Option<Seq<char>> {
    match o {
        Some(s) => Some(s@),
        None => None,
    }
}

/// What a feed entry holds, as text.
pub ghost struct FeedEntryView {
    pub title: Option<Seq<char>>,
    pub summary: Option<Seq<char>>,
    pub content_body: Option<Option<Seq<char>>>,
    pub link: Option<Seq<char>>,
    pub published: Option<Timestamp>,
    pub updated: Option<Timestamp>,
    pub author: Option<Seq<char>>,
}

/// What a parsed feed holds, as text.
pub ghost struct ParsedFeedView {
    pub title: Option<Seq<char>>,
    pub entries: Seq<FeedEntryView>,
}

impl View for FeedEntry {
    type V = FeedEntryView;

    open spec fn view(&self) -> FeedEntryView {
        FeedEntryView {
            title: opt_text(self.title),
            summary: opt_text(self.summary),
            content_body: match self.content_body {
                Some(b) => Some(opt_text(b)),
                None => None,
            },
            link: opt_text(self.link),
            published: self.published,
            updated: self.updated,
            author: opt_text(self.author),
        }
    }
}

impl View for ParsedFeed {
    type V = ParsedFeedView;

    open spec fn view(&self) -> ParsedFeedView {
        ParsedFeedView {
            title: opt_text(self.title),
            entries: self.entries@.map_values(|e: FeedEntry| e@),
        }
    }
}

/// What `feed_rs::parser::parse` makes of `content`: the fields of the feed
/// and its entries that articles are made from, or the text of its error.
pub uninterp spec fn feed_parse(content: Seq<u8>) -> Result<ParsedFeedView, Seq<char>>;

/// Whether every publication and update time of the feed's entries lies in
/// the range that `chrono` represents.
pub open spec fn feed_times_represented(f: ParsedFeedView) -> bool {
    forall|i: int|
        0 <= i < f.entries.len() ==> {
            &&& (#[trigger] f.entries[i]).published matches Some(t) ==> chrono_represents(t.secs)
            &&& f.entries[i].updated matches Some(t) ==> chrono_represents(t.secs)
        }
}

/// Parses RSS/Atom/JSON feed text with `feed_rs::parser::parse` and keeps,
/// for the feed, its title, and for each entry, its title, summary, content
/// body, first link, publication and update times, and first author's name.
/// Trusted: the result is named [`feed_parse`]; the feed grammar is not
/// stated. The times come from `chrono` `DateTime`s, so `chrono` represents
/// them. The parser makes up ids for entries without one, at random; no id is
/// kept. The `requires` leaves out the texts on which the parse can panic
/// (see [`feed_text_is_safe`]): `quick-xml` asserts when a declaration switches
/// the encoding after its first 64 bytes; `feed-rs` slices an author's text one
/// byte on either side of an e-mail address (`parser::util::parse_person_name_email`),
/// and unwraps the `u64` parse of Media RSS and iTunes durations and times
/// (`parser::util::parse_npt`).
#[verifier::external_body]
fn parse_feed_text(content: &str) -> (r: Result<ParsedFeed, String>)
    requires
        feed_text_is_safe(content@),
    ensures
        match r {
            Ok(f) => feed_parse(content.spec_bytes()) == Ok::<ParsedFeedView, Seq<char>>(f@)
                && feed_times_represented(f@),
            Err(e) => feed_parse(content.spec_bytes()) == Err::<ParsedFeedView, Seq<char>>(e@),
        },
{
    let ts = |d: DateTime<Utc>| (d.timestamp(), d.timestamp_subsec_nanos());
    let text = |t: Text| t.content;
    parser::parse(content.as_bytes()).map(|feed| ParsedFeed::new(
        feed.title.map(text),
        feed.entries.into_iter().map(|e| FeedEntry::new(
            e.title.map(text),
            e.summary.map(text),
            e.content.map(|c| c.body),
            e.links.into_iter().next().map(|l| l.href),
            e.published.map(ts),
            e.updated.map(ts),
            e.authors.into_iter().next().and_then(|a| a.name),
        )).collect(),
    )).map_err(|e| e.to_string())
}

/// The link of an entry's article (empty where the entry has no link).
pub open spec fn entry_link(e: FeedEntryView) -> Seq<char> {
    match e.link {
        Some(l) => l,
        None => Seq::empty(),
    }
}

/// The description of an entry's article: its summary, else its content body
/// (empty where the content has no body).
pub open spec fn entry_description(e: FeedEntryView) -> Option<Seq<char>> {
    match e.summary {
        Some(s) => Some(s),
        None => match e.content_body {
            Some(Some(b)) => Some(b),
            Some(None) => Some(Seq::empty()),
            None => None,
        },
    }
}

/// Whether `a` is the article made from entry `e` of a feed titled `feed_title`.
pub open spec fn is_article_of_entry(
    a: NewsArticle,
    e: FeedEntryView,
    feed_title: Option<Seq<char>>,
    category: NewsCategory,
) -> bool {
    &&& a.title@ == match e.title {
        Some(t) => t,
        None => "Untitled"@,
    }
    &&& opt_text(a.description) == entry_description(e)
    &&& a.link@ == entry_link(e)
    &&& a.source@ == match feed_title {
        Some(t) => t,
        None => "Unknown Source"@,
    }
    &&& a.category == category
    &&& a.published_at == match e.published {
        Some(p) => Some(p),
        None => e.updated,
    }
    &&& opt_text(a.author) == e.author
}

/// An article's description is its entry's summary whenever the entry has
/// one, whatever content body it also has; only an entry without a summary
/// gives its content body (empty where the body has no text), and an entry
/// with neither gives no description.
pub proof fn law_summary_before_content(
    a: NewsArticle,
    e: FeedEntryView,
    feed_title: Option<Seq<char>>,
    category: NewsCategory,
)
    requires
        is_article_of_entry(a, e, feed_title, category),
    ensures
        e.summary matches Some(s) ==> a.description is Some && a.description.unwrap()@ == s,
        e.summary is None && e.content_body is Some && e.content_body.unwrap() is Some
            ==> a.description is Some && a.description.unwrap()@ == e.content_body.unwrap().unwrap(),
        e.summary is None && e.content_body == Some(None::<Seq<char>>) ==> a.description is Some
            && a.description.unwrap()@.len() == 0,
        e.summary is None && e.content_body is None ==> a.description is None,
{
}

/// The other fields of an entry's article: the entry's title (`Untitled`
/// without one), its link, the feed's title as source (`Unknown Source`
/// without one), the category asked for, the publication time (else the
/// update time) and the author.
pub proof fn law_article_fields_of_entry(
    a: NewsArticle,
    e: FeedEntryView,
    feed_title: Option<Seq<char>>,
    category: NewsCategory,
)
    requires
        is_article_of_entry(a, e, feed_title, category),
    ensures
        e.title is Some ==> a.title@ == e.title.unwrap(),
        e.title is None ==> a.title@ == "Untitled"@,
        e.link is Some ==> a.link@ == e.link.unwrap(),
        feed_title is Some ==> a.source@ == feed_title.unwrap(),
        feed_title is None ==> a.source@ == "Unknown Source"@,
        a.category == category,
        e.published is Some ==> a.published_at == e.published,
        e.published is None ==> a.published_at == e.updated,
        e.author is Some ==> a.author is Some && a.author.unwrap()@ == e.author.unwrap(),
        e.author is None ==> a.author is None,
{
}

/// The entries that have a non-empty link, in order.
pub open spec fn linked_entries(es: Seq<FeedEntryView>) -> Seq<FeedEntryView>
    decreases es.len(),
{
    if es.len() == 0 {
        Seq::empty()
    } else if entry_link(es.last()).len() > 0 {
        linked_entries(es.drop_last()).push(es.last())
    } else {
        linked_entries(es.drop_last())
    }
}

/// Whether `arts` are the articles made from the linked entries of `feed`, in order.
pub open spec fn articles_of_feed(arts: Seq<NewsArticle>, feed: ParsedFeedView, category: NewsCategory) -> bool {
    let es = linked_entries(feed.entries);
    arts.len() == es.len() && forall|k: int|
        0 <= k < arts.len() ==> is_article_of_entry(#[trigger] arts[k], es[k], feed.title, category)
}

fn text_or(o: &Option<String>, default: &str) -> (r: String)
    ensures
        r@ == match opt_text(*o) {
            Some(t) => t,
            None => default@,
        },
{
    match o {
        Some(s) => s.clone(),
        None => default.to_owned(),
    }
}

fn clone_opt(o: &Option<String>) -> (r: Option<String>)
    ensures
        opt_text(r) == opt_text(*o),
{
    match o {
        Some(s) => Some(s.clone()),
        None => None,
    }
}

/// The article made from one entry, or `None` where the entry has no link.
pub fn entry_to_article(entry: &FeedEntry, feed_title: &Option<String>, category: NewsCategory) -> (r: Option<NewsArticle>)
    ensures
        r is Some <==> entry_link(entry@).len() > 0,
        r matches Some(a) ==> is_article_of_entry(a, entry@, opt_text(*feed_title), category),
{
    let link = text_or(&entry.link, "");
    proof {
        reveal_strlit("");
    }
    if link.as_str().is_empty() {
        return None;
    }
    let title = text_or(&entry.title, "Untitled");
    let description = match &entry.summary {
        Some(s) => Some(s.clone()),
        None => match &entry.content_body {
            Some(b) => Some(text_or(b, "")),
            None => None,
        },
    };
    let source = text_or(feed_title, "Unknown Source");
    let published_at = match entry.published {
        Some(p) => Some(p),
        None => entry.updated,
    };
    let author = clone_opt(&entry.author);
    assert(""@ == Seq::<char>::empty());
    assert(opt_text(description) == entry_description(entry@));
    assert(title@ == match entry@.title { Some(t) => t, None => "Untitled"@ });
    assert(link@ == entry_link(entry@));
    assert(opt_text(author) == entry@.author);
    Some(NewsArticle::new(title, description, link, source, category, published_at, author))
}

/// The articles made from the entries of a parsed feed, in feed order,
/// skipping entries without a link.
pub fn articles_from_feed(feed: &ParsedFeed, category: NewsCategory) -> (r: Vec<NewsArticle>)
    ensures
        articles_of_feed(r@, feed@, category),
{
    let ghost es = feed@.entries;
    let mut arts: Vec<NewsArticle> = Vec::new();
    let mut i: usize = 0;
    assert(es.take(0) == Seq::<FeedEntryView>::empty());
    while i < feed.entries.len()
        invariant
            i <= feed.entries.len(),
            es == feed@.entries,
            arts@.len() == linked_entries(es.take(i as int)).len(),
            forall|k: int| 0 <= k < arts@.len() ==> is_article_of_entry(#[trigger] arts@[k], linked_entries(es.take(i as int))[k], feed@.title, category),
        decreases feed.entries.len() - i,
    {
        assert(es.take(i + 1).drop_last() == es.take(i as int));
        assert(es.take(i + 1).last() == feed.entries@[i as int]@);
        let ghost before = arts@;
        match entry_to_article(&feed.entries[i], &feed.title, category) {
            Some(a) => {
                arts.push(a);
                assert forall|k: int| 0 <= k < arts@.len() implies is_article_of_entry(
                    #[trigger] arts@[k],
                    linked_entries(es.take(i + 1))[k],
                    feed@.title,
                    category,
                ) by {
                    if k < before.len() {
                        assert(arts@[k] == before[k]);
                    }
                }
            },
            None => {},
        }
        i = i + 1;
    }
    assert(es.take(feed.entries.len() as int) == es);
    arts
}

/// Whether `chrono` represents the publication time of every article.
pub open spec fn published_times_represented(arts: Seq<NewsArticle>) -> bool {
    forall|k: int|
        0 <= k < arts.len() ==> ((#[trigger] arts[k]).published_at matches Some(t) ==> chrono_represents(
            t.secs,
        ))
}

proof fn lemma_linked_entry_is_entry(es: Seq<FeedEntryView>, k: int)
    requires
        0 <= k < linked_entries(es).len(),
    ensures
        exists|j: int| 0 <= j < es.len() && es[j] == linked_entries(es)[k],
    decreases es.len(),
{
    let rest = es.drop_last();
    if k < linked_entries(rest).len() {
        lemma_linked_entry_is_entry(rest, k);
        let j = choose|j: int| 0 <= j < rest.len() && rest[j] == linked_entries(rest)[k];
        assert(es[j] == rest[j]);
    } else {
        assert(es[es.len() - 1] == linked_entries(es)[k]);
    }
}

/// The articles made from a feed whose times `chrono` represents have
/// publication times that `chrono` represents.
pub proof fn lemma_feed_article_times(arts: Seq<NewsArticle>, f: ParsedFeedView, category: NewsCategory)
    requires
        articles_of_feed(arts, f, category),
        feed_times_represented(f),
    ensures
        published_times_represented(arts),
{
    assert forall|k: int| 0 <= k < arts.len() implies ((#[trigger] arts[k]).published_at matches Some(
        t,
    ) ==> chrono_represents(t.secs)) by {
        let es = linked_entries(f.entries);
        lemma_linked_entry_is_entry(f.entries, k);
        let j = choose|j: int| 0 <= j < f.entries.len() && f.entries[j] == es[k];
        assert(is_article_of_entry(arts[k], es[k], f.title, category));
        assert(f.entries[j] == es[k]);
    }
}

/// Parse RSS/Atom feed content into articles of a category. Entries without
/// a link are skipped; a feed that does not parse gives an RSS error
/// `"Failed to parse feed: "` followed by the parser's message.
///
/// The contract covers the texts of [`feed_text_is_safe`], which callers test
/// with [`feed_is_safe_to_parse`]; a text outside it is one on which `feed-rs`
/// may panic, and the server parses it unverified in `app/fetch.rs`
/// (`parse_feed_with_media`), then hands the entries to [`articles_from_feed`].
pub fn parse_feed(content: &str, category: NewsCategory) -> (r: Result<Vec<NewsArticle>, Error>)
    requires
        feed_text_is_safe(content@),
    ensures
        match feed_parse(content.spec_bytes()) {
            Ok(f) => r matches Ok(arts) && articles_of_feed(arts@, f, category)
                && feed_times_represented(f) && published_times_represented(arts@),
            Err(msg) => r matches Err(e) && e matches Error::RssParse { message, url } && message@
                == "Failed to parse feed: "@ + msg && url is None,
        },
{
    match parse_feed_text(content) {
        Ok(feed) => {
            let arts = articles_from_feed(&feed, category);
            proof {
                lemma_feed_article_times(arts@, feed@, category);
            }
            Ok(arts)
        },
        Err(msg) => {
            let mut v: Vec<char> = Vec::new();
            push_str(&mut v, "Failed to parse feed: ");
            push_str(&mut v, msg.as_str());
            let m = string_of(&v);
            Err(Error::rss(m.as_str()))
        },
    }
}

/// The articles of the feeds that were fetched and parsed, in feed order
/// (failed feeds skipped).
pub open spec fn fetched_articles(results: Seq<Result<Vec<NewsArticle>, Error>>) -> Seq<NewsArticle>
    decreases results.len(),
{
    if results.len() == 0 {
        Seq::empty()
    } else {
        fetched_articles(results.drop_last()) + match results.last() {
            Ok(v) => v@,
            Err(_) => Seq::empty(),
        }
    }
}

/// Merges the results of fetching a category's feeds: the articles of every
/// feed that succeeded, sorted newest first (feeds that failed are skipped).
pub fn merge_feed_results(results: Vec<Result<Vec<NewsArticle>, Error>>) -> (r: Vec<NewsArticle>)
    ensures
        r@ == newest_first(fetched_articles(results@)),
{
    let ghost rs = results@;
    let mut all: Vec<NewsArticle> = Vec::new();
    let mut rest = results;
    let n = rest.len();
    let mut i: usize = 0;
    assert(rs.take(0) == Seq::<Result<Vec<NewsArticle>, Error>>::empty());
    assert(rs.skip(0) == rs);
    while i < n
        invariant
            i <= n == rs.len(),
            rest@ == rs.skip(i as int),
            all@ == fetched_articles(rs.take(i as int)),
        decreases n - i,
    {
        assert(rs.take(i + 1).drop_last() == rs.take(i as int));
        assert(rs.take(i + 1).last() == rs[i as int]);
        let item = rest.remove(0);
        assert(rest@ == rs.skip(i + 1));
        match item {
            Ok(mut v) => {
                all.append(&mut v);
            },
            Err(_) => {
                assert(all@ + Seq::<NewsArticle>::empty() == all@);
            },
        }
        i = i + 1;
    }
    assert(rs.take(n as int) == rs);
    sort_newest_first(all)
}

} // verus!
