//! Feed sources of each category and the text formats of article lists.

use vstd::prelude::*;

use crate::cache::news_cache::NewsArticle;
use crate::cache::NewsCategory;
use crate::text::{decimal, push_decimal, push_str, string_of};
use crate::time::{chrono_represents, format_utc, strftime_plain, utc_format, Timestamp};

verus! {

/// The RSS feed URLs of a category. Hacker News and the hot lists are not
/// read from RSS feeds and have none.
pub open spec fn feed_urls_of(c: NewsCategory) -> Seq<Seq<char>> {
    match c {
        NewsCategory::Technology => seq!["https://techcrunch.com/feed/"@, "https://feeds.arstechnica.com/arstechnica/index"@, "https://www.theverge.com/rss/index.xml"@],
        NewsCategory::Science => seq!["https://www.sciencedaily.com/rss/all.xml"@],
        NewsCategory::HackerNews => Seq::empty(),
        NewsCategory::Instant => seq!["https://www.chinanews.com.cn/rss/scroll-news.xml"@],
        NewsCategory::Headlines => seq!["https://www.chinanews.com.cn/rss/importnews.xml"@],
        NewsCategory::Politics => seq!["https://www.chinanews.com.cn/rss/china.xml"@],
        NewsCategory::EastWest => seq!["https://www.chinanews.com.cn/rss/dxw.xml"@],
        NewsCategory::Society => seq!["https://www.chinanews.com.cn/rss/society.xml"@],
        NewsCategory::Finance => seq!["https://www.chinanews.com.cn/rss/finance.xml"@],
        NewsCategory::Life => seq!["https://www.chinanews.com.cn/rss/life.xml"@],
        NewsCategory::Wellness => seq!["https://www.chinanews.com.cn/rss/jk.xml"@],
        NewsCategory::GreaterBayArea => seq!["https://www.chinanews.com.cn/rss/dwq.xml"@],
        NewsCategory::Chinese => seq!["https://www.chinanews.com.cn/rss/chinese.xml"@],
        NewsCategory::Video => seq!["https://www.chinanews.com.cn/rss/sp.xml"@],
        NewsCategory::Photo => seq!["https://www.chinanews.com.cn/rss/photo.xml"@],
        NewsCategory::Creative => seq!["https://www.chinanews.com.cn/rss/chuangyi.xml"@],
        NewsCategory::Live => seq!["https://www.chinanews.com.cn/rss/zhibo.xml"@],
        NewsCategory::Education => seq!["https://www.chinanews.com.cn/rss/edu.xml"@],
        NewsCategory::Law => seq!["https://www.chinanews.com.cn/rss/fz.xml"@],
        NewsCategory::UnitedFront => seq!["https://www.chinanews.com.cn/rss/tx.xml"@],
        NewsCategory::EthnicUnity => seq!["https://www.chinanews.com.cn/rss/mz.xml"@],
        NewsCategory::Theory => seq!["https://www.chinanews.com.cn/rss/theory.xml"@],
        NewsCategory::Asean => seq!["https://www.chinanews.com.cn/rss/aseaninfo.xml"@],
        NewsCategory::WeiboHot => Seq::empty(),
        NewsCategory::BaiduHot => Seq::empty(),
        NewsCategory::ZhihuHot => Seq::empty(),
        NewsCategory::DouyinHot => Seq::empty(),
        NewsCategory::BilibiliHot => Seq::empty(),
        NewsCategory::TiebaHot => Seq::empty(),
        NewsCategory::ToutiaoHot => Seq::empty(),
        NewsCategory::WallstreetcnHot => Seq::empty(),
        NewsCategory::ClsHot => Seq::empty(),
        NewsCategory::ThepaperHot => Seq::empty(),
        NewsCategory::IfengHot => Seq::empty(),
    }
}

/// The texts of a list of string slices.
pub open spec fn str_views(v: Seq<&str>) -> Seq<Seq<char>> {
    v.map_values(|s: &str| s@)
}

/// RSS feed URLs for each category
pub fn get_feed_urls(category: &NewsCategory) -> (r: Vec<&'static str>)
    ensures
        str_views(r@) == feed_urls_of(*category),
{
    let r = match category {
            NewsCategory::Technology => vec!["https://techcrunch.com/feed/", "https://feeds.arstechnica.com/arstechnica/index", "https://www.theverge.com/rss/index.xml"],
            NewsCategory::Science => vec!["https://www.sciencedaily.com/rss/all.xml"],
            NewsCategory::HackerNews => vec![],
            NewsCategory::Instant => vec!["https://www.chinanews.com.cn/rss/scroll-news.xml"],
            NewsCategory::Headlines => vec!["https://www.chinanews.com.cn/rss/importnews.xml"],
            NewsCategory::Politics => vec!["https://www.chinanews.com.cn/rss/china.xml"],
            NewsCategory::EastWest => vec!["https://www.chinanews.com.cn/rss/dxw.xml"],
            NewsCategory::Society => vec!["https://www.chinanews.com.cn/rss/society.xml"],
            NewsCategory::Finance => vec!["https://www.chinanews.com.cn/rss/finance.xml"],
            NewsCategory::Life => vec!["https://www.chinanews.com.cn/rss/life.xml"],
            NewsCategory::Wellness => vec!["https://www.chinanews.com.cn/rss/jk.xml"],
            NewsCategory::GreaterBayArea => vec!["https://www.chinanews.com.cn/rss/dwq.xml"],
            NewsCategory::Chinese => vec!["https://www.chinanews.com.cn/rss/chinese.xml"],
            NewsCategory::Video => vec!["https://www.chinanews.com.cn/rss/sp.xml"],
            NewsCategory::Photo => vec!["https://www.chinanews.com.cn/rss/photo.xml"],
            NewsCategory::Creative => vec!["https://www.chinanews.com.cn/rss/chuangyi.xml"],
            NewsCategory::Live => vec!["https://www.chinanews.com.cn/rss/zhibo.xml"],
            NewsCategory::Education => vec!["https://www.chinanews.com.cn/rss/edu.xml"],
            NewsCategory::Law => vec!["https://www.chinanews.com.cn/rss/fz.xml"],
            NewsCategory::UnitedFront => vec!["https://www.chinanews.com.cn/rss/tx.xml"],
            NewsCategory::EthnicUnity => vec!["https://www.chinanews.com.cn/rss/mz.xml"],
            NewsCategory::Theory => vec!["https://www.chinanews.com.cn/rss/theory.xml"],
            NewsCategory::Asean => vec!["https://www.chinanews.com.cn/rss/aseaninfo.xml"],
            NewsCategory::WeiboHot => vec![],
            NewsCategory::BaiduHot => vec![],
            NewsCategory::ZhihuHot => vec![],
            NewsCategory::DouyinHot => vec![],
            NewsCategory::BilibiliHot => vec![],
            NewsCategory::TiebaHot => vec![],
            NewsCategory::ToutiaoHot => vec![],
            NewsCategory::WallstreetcnHot => vec![],
            NewsCategory::ClsHot => vec![],
            NewsCategory::ThepaperHot => vec![],
            NewsCategory::IfengHot => vec![],
    };
    assert(str_views(r@) =~= feed_urls_of(*category));
    r
}

/// The text of the UTC minute `secs` seconds after the Unix epoch, as article
/// lists and the health report show it: `chrono`'s `"%Y-%m-%d %H:%M UTC"`.
pub open spec fn minute_text(secs: i64) -> Seq<char> {
    utc_format(secs, "%Y-%m-%d %H:%M UTC"@)
}

/// The minute pattern holds only plain specifiers, so `chrono` always accepts it.
pub proof fn lemma_minute_pattern_plain()
    ensures
        strftime_plain("%Y-%m-%d %H:%M UTC"@),
{
    reveal_strlit("%Y-%m-%d %H:%M UTC");
}

/// Formats the UTC minute `secs` seconds after the Unix epoch as
/// [`minute_text`] gives it, or gives `None` where `chrono` has no date for it.
pub fn format_minute(secs: i64) -> (r: Option<String>)
    ensures
        r is Some <==> chrono_represents(secs),
        r matches Some(t) ==> t@ == minute_text(secs),
{
    proof {
        lemma_minute_pattern_plain();
    }
    format_utc(secs, "%Y-%m-%d %H:%M UTC")
}

/// The line `prefix + date + "\n"` for a publication time that `chrono` represents, else nothing.
pub open spec fn date_line(prefix: Seq<char>, published_at: Option<Timestamp>) -> Seq<char> {
    match published_at {
        Some(t) => if chrono_represents(t.secs) {
            prefix + minute_text(t.secs) + "\n"@
        } else {
            Seq::empty()
        },
        None => Seq::empty(),
    }
}

/// A publication time that `chrono` represents, as every time read from a feed
/// or stamped by the clock is, always shows its date line.
pub proof fn law_date_line_shows(prefix: Seq<char>, t: Timestamp)
    requires
        chrono_represents(t.secs),
    ensures
        date_line(prefix, Some(t)) == prefix + minute_text(t.secs) + "\n"@,
{
}

/// The lines `prefix + text + suffix` for a present optional text, else nothing.
pub open spec fn opt_line(prefix: Seq<char>, text: Option<String>, suffix: Seq<char>) -> Seq<char> {
    match text {
        Some(t) => prefix + t@ + suffix,
        None => Seq::empty(),
    }
}

/// The Markdown block of one article.
pub open spec fn markdown_entry(a: NewsArticle) -> Seq<char> {
    "## "@ + a.title@ + "\n"@ + opt_line(Seq::empty(), a.description, "\n\n"@) + "- **Source**: "@
        + a.source@ + "\n"@ + "- **Link**: "@ + a.link@ + "\n"@ + date_line(
        "- **Published**: "@,
        a.published_at,
    ) + opt_line("- **Author**: "@, a.author, "\n"@) + "\n---\n\n"@
}

/// The Markdown blocks of the articles, in order.
pub open spec fn markdown_entries(s: Seq<NewsArticle>) -> Seq<char>
    decreases s.len(),
{
    if s.len() == 0 {
        Seq::empty()
    } else {
        markdown_entries(s.drop_last()) + markdown_entry(s.last())
    }
}

/// What [`format_articles_as_markdown`] gives.
pub open spec fn markdown_of(s: Seq<NewsArticle>) -> Seq<char> {
    if s.len() == 0 {
        "No articles found."@
    } else {
        "# News Articles\n\n"@ + markdown_entries(s)
    }
}

/// The plain-text block of the `n`-th article (counting from 1).
pub open spec fn text_entry(a: NewsArticle, n: nat) -> Seq<char> {
    decimal(n) + ". "@ + a.title@ + "\n"@ + opt_line("   "@, a.description, "\n"@)
        + "   Source: "@ + a.source@ + " | Link: "@ + a.link@ + "\n"@ + date_line(
        "   Published: "@,
        a.published_at,
    ) + "\n"@
}

/// The plain-text blocks of the articles, numbered from 1.
pub open spec fn text_entries(s: Seq<NewsArticle>) -> Seq<char>
    decreases s.len(),
{
    if s.len() == 0 {
        Seq::empty()
    } else {
        text_entries(s.drop_last()) + text_entry(s.last(), s.len())
    }
}

/// What [`format_articles_as_text`] gives.
pub open spec fn text_of(s: Seq<NewsArticle>) -> Seq<char> {
    if s.len() == 0 {
        "No articles found."@
    } else {
        text_entries(s)
    }
}

fn push_date_line(out: &mut Vec<char>, prefix: &str, published_at: Option<Timestamp>)
    ensures
        final(out)@ == old(out)@ + date_line(prefix@, published_at),
{
    match published_at {
        Some(t) => {
            match format_minute(t.secs) {
                Some(text) => {
                    push_str(out, prefix);
                    push_str(out, text.as_str());
                    push_str(out, "\n");
                },
                None => {
                    assert(old(out)@ + Seq::<char>::empty() == old(out)@);
                },
            }
        },
        None => {
            assert(old(out)@ + Seq::<char>::empty() == old(out)@);
        },
    }
}

fn push_opt_line(out: &mut Vec<char>, prefix: &str, text: &Option<String>, suffix: &str)
    ensures
        final(out)@ == old(out)@ + opt_line(prefix@, *text, suffix@),
{
    match text {
        Some(t) => {
            push_str(out, prefix);
            push_str(out, t.as_str());
            push_str(out, suffix);
        },
        None => {
            assert(old(out)@ + Seq::<char>::empty() == old(out)@);
        },
    }
}

fn push_markdown_entry(out: &mut Vec<char>, a: &NewsArticle)
    ensures
        final(out)@ == old(out)@ + markdown_entry(*a),
{
    push_str(out, "## ");
    push_str(out, a.title.as_str());
    push_str(out, "\n");
    push_opt_line(out, "", &a.description, "\n\n");
    push_str(out, "- **Source**: ");
    push_str(out, a.source.as_str());
    push_str(out, "\n");
    push_str(out, "- **Link**: ");
    push_str(out, a.link.as_str());
    push_str(out, "\n");
    push_date_line(out, "- **Published**: ", a.published_at);
    push_opt_line(out, "- **Author**: ", &a.author, "\n");
    push_str(out, "\n---\n\n");
    proof {
        reveal_strlit("");
    }
}

/// Format articles for output
pub fn format_articles_as_markdown(articles: &[NewsArticle]) -> (r: String)
    ensures
        r@ == markdown_of(articles@),
{
    if articles.len() == 0 {
        return "No articles found.".to_owned();
    }
    let mut out: Vec<char> = Vec::new();
    push_str(&mut out, "# News Articles\n\n");
    let ghost head = out@;
    let mut i: usize = 0;
    assert(articles@.take(0) == Seq::<NewsArticle>::empty());
    while i < articles.len()
        invariant
            i <= articles.len(),
            head == "# News Articles\n\n"@,
            out@ == head + markdown_entries(articles@.take(i as int)),
        decreases articles.len() - i,
    {
        assert(articles@.take(i + 1).drop_last() == articles@.take(i as int));
        assert(articles@.take(i + 1).last() == articles@[i as int]);
        push_markdown_entry(&mut out, &articles[i]);
        i = i + 1;
    }
    assert(articles@.take(articles.len() as int) == articles@);
    string_of(&out)
}

fn push_text_entry(out: &mut Vec<char>, a: &NewsArticle, n: u64)
    ensures
        final(out)@ == old(out)@ + text_entry(*a, n as nat),
{
    push_decimal(out, n);
    push_str(out, ". ");
    push_str(out, a.title.as_str());
    push_str(out, "\n");
    push_opt_line(out, "   ", &a.description, "\n");
    push_str(out, "   Source: ");
    push_str(out, a.source.as_str());
    push_str(out, " | Link: ");
    push_str(out, a.link.as_str());
    push_str(out, "\n");
    push_date_line(out, "   Published: ", a.published_at);
    push_str(out, "\n");
}

/// Format articles as plain text
pub fn format_articles_as_text(articles: &[NewsArticle]) -> (r: String)
    ensures
        r@ == text_of(articles@),
{
    if articles.len() == 0 {
        return "No articles found.".to_owned();
    }
    let mut out: Vec<char> = Vec::new();
    let mut i: usize = 0;
    assert(articles@.take(0) == Seq::<NewsArticle>::empty());
    while i < articles.len()
        invariant
            i <= articles.len(),
            out@ == text_entries(articles@.take(i as int)),
        decreases articles.len() - i,
    {
        assert(articles@.take(i + 1).drop_last() == articles@.take(i as int));
        assert(articles@.take(i + 1).last() == articles@[i as int]);
        push_text_entry(&mut out, &articles[i], (i as u64) + 1);
        i = i + 1;
    }
    assert(articles@.take(articles.len() as int) == articles@);
    string_of(&out)
}

} // verus!
