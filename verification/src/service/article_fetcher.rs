//! Article fetcher: extracts the main text of an article from its HTML page.
//! The page is fetched outside; the HTML is read with `scraper`.

use vstd::prelude::*;

use crate::text::{join, normalize_whitespace, push_str, string_of, words};

verus! {

/// The texts of the elements of the HTML document `html` that match the CSS
/// selector `selector`, in the order in which `Html::select` walks the parsed
/// document's nodes, each the concatenation of the element's descendant text
/// nodes; `None` where the selector does not parse.
pub uninterp spec fn html_select_texts(html: Seq<char>, selector: Seq<char>) -> Option<Seq<Seq<char>>>;

/// The character sequences of an optional list of strings.
pub open spec fn texts_view(r: Option<Vec<String>>) -> Option<Seq<Seq<char>>> {
    match r {
        Some(v) => Some(v@.map_values(|s: String| s@)),
        None => None,
    }
}

/// Parses `html` with `scraper::Html::parse_document` and `selector` with
/// `scraper::Selector::parse`, and collects the text (`ElementRef::text`) of
/// each element that `Html::select` yields. Trusted: the result is named
/// [`html_select_texts`]; HTML parsing and selector matching are not stated.
#[verifier::external_body]
fn select_texts(html: &str, selector: &str) -> (r: Option<Vec<String>>)
    ensures
        texts_view(r) == html_select_texts(html@, selector@),
{
    let document = scraper::Html::parse_document(html);
    match scraper::Selector::parse(selector) {
        Ok(sel) => Some(document.select(&sel).map(|e| e.text().collect::<String>()).collect()),
        Err(_) => None,
    }
}

/// The length in bytes of the UTF-8 encoding of `s`, as `str::len` reports it.
pub open spec fn byte_len(s: Seq<char>) -> usize {
    vstd::utf8::encode_utf8(s).len() as usize
}

/// The words of `t` joined by single spaces.
pub open spec fn normalized(t: Seq<char>) -> Seq<char> {
    join(words(t), seq![' '])
}

/// The selectors tried in turn for the main content: the `article` and `main`
/// elements, then the usual content containers.
pub open spec fn content_selectors() -> Seq<Seq<char>> {
    seq![
        "article"@,
        "main"@,
        ".article-content"@,
        ".post-content"@,
        ".entry-content"@,
        ".content-body"@,
        ".article-body"@,
        ".post-body"@,
        "#article-content"@,
        "#post-content"@,
        "#content"@,
        ".content"@,
    ]
}

/// The normalized text of the first element of `html` matching `selector`, if any.
pub open spec fn first_match_text(html: Seq<char>, selector: Seq<char>) -> Option<Seq<char>> {
    match html_select_texts(html, selector) {
        Some(ts) => if ts.len() > 0 {
            Some(normalized(ts[0]))
        } else {
            None
        },
        None => None,
    }
}

/// Trying the selectors in order, the first text of more than 200 bytes.
pub open spec fn first_substantial(html: Seq<char>, sels: Seq<Seq<char>>) -> Option<Seq<char>>
    decreases sels.len(),
{
    if sels.len() == 0 {
        None
    } else {
        match first_match_text(html, sels[0]) {
            Some(t) => if byte_len(t) > 200 {
                Some(t)
            } else {
                first_substantial(html, sels.drop_first())
            },
            None => first_substantial(html, sels.drop_first()),
        }
    }
}

/// The normalized texts of more than 50 bytes, in order.
pub open spec fn substantial_paragraphs(ts: Seq<Seq<char>>) -> Seq<Seq<char>>
    decreases ts.len(),
{
    if ts.len() == 0 {
        Seq::empty()
    } else {
        let prev = substantial_paragraphs(ts.drop_last());
        let t = normalized(ts.last());
        if byte_len(t) > 50 {
            prev.push(t)
        } else {
            prev
        }
    }
}

/// The substantial paragraphs of `html`, separated by blank lines.
pub open spec fn paragraph_text(html: Seq<char>) -> Seq<char> {
    match html_select_texts(html, "p"@) {
        Some(ts) => join(substantial_paragraphs(ts), seq!['\n', '\n']),
        None => Seq::empty(),
    }
}

/// The main content of an HTML page: the first substantial text that the
/// content selectors find, else its substantial paragraphs.
pub open spec fn main_content(html: Seq<char>) -> Seq<char> {
    match first_substantial(html, content_selectors()) {
        Some(t) => t,
        None => paragraph_text(html),
    }
}

/// Whether the first element of `html` matching `selector` has a normalized
/// text of more than 200 bytes.
pub open spec fn substantial_at(html: Seq<char>, selector: Seq<char>) -> bool {
    first_match_text(html, selector) matches Some(t) && byte_len(t) > 200
}

/// Trying selectors in turn gives the text of the first one that finds a
/// substantial text.
proof fn lemma_first_substantial_at(html: Seq<char>, sels: Seq<Seq<char>>, k: int)
    requires
        0 <= k < sels.len(),
        substantial_at(html, sels[k]),
        forall|j: int| 0 <= j < k ==> !substantial_at(html, #[trigger] sels[j]),
    ensures
        first_substantial(html, sels) == first_match_text(html, sels[k]),
    decreases k,
{
    if k > 0 {
        assert(!substantial_at(html, sels[0]));
        assert forall|j: int| 0 <= j < k - 1 implies !substantial_at(html, #[trigger] sels.drop_first()[j]) by {
            assert(sels.drop_first()[j] == sels[j + 1]);
        }
        lemma_first_substantial_at(html, sels.drop_first(), k - 1);
    }
}

/// The `k`-th place at which a page's main content is looked for.
pub open spec fn content_strategy(k: int) -> Seq<char> {
    if k == 0 { "article"@ }
    else if k == 1 { "main"@ }
    else if k == 2 { ".article-content"@ }
    else if k == 3 { ".post-content"@ }
    else if k == 4 { ".entry-content"@ }
    else if k == 5 { ".content-body"@ }
    else if k == 6 { ".article-body"@ }
    else if k == 7 { ".post-body"@ }
    else if k == 8 { "#article-content"@ }
    else if k == 9 { "#post-content"@ }
    else if k == 10 { "#content"@ }
    else { ".content"@ }
}

/// The main content of a page is the normalized text of the first element
/// matched by the first of `article`, `main`, `.article-content`,
/// `.post-content`, `.entry-content`, `.content-body`, `.article-body`,
/// `.post-body`, `#article-content`, `#post-content`, `#content` and
/// `.content`, in that order, whose text has more than 200 bytes.
pub proof fn law_main_content_follows_selector_order(html: Seq<char>, k: int)
    requires
        0 <= k < 12,
        substantial_at(
            html,
            content_strategy(k),
        ),
        forall|j: int|
            0 <= j < k ==> !substantial_at(html, #[trigger] content_strategy(j)),
    ensures
        main_content(html) == first_match_text(
            html,
            content_strategy(k),
        ).unwrap(),
{
    let sels = content_selectors();
    assert forall|j: int| 0 <= j < 12 implies #[trigger] sels[j] == content_strategy(j) by {}
    lemma_first_substantial_at(html, sels, k);
}

/// A page on which no content selector finds a substantial text gives its
/// paragraph text.
pub proof fn law_main_content_falls_back_to_paragraphs(html: Seq<char>)
    requires
        forall|j: int| 0 <= j < 12 ==> !substantial_at(html, #[trigger] content_selectors()[j]),
    ensures
        main_content(html) == paragraph_text(html),
{
    lemma_no_substantial(html, content_selectors());
}

proof fn lemma_no_substantial(html: Seq<char>, sels: Seq<Seq<char>>)
    requires
        forall|j: int| 0 <= j < sels.len() ==> !substantial_at(html, #[trigger] sels[j]),
    ensures
        first_substantial(html, sels) is None,
    decreases sels.len(),
{
    if sels.len() > 0 {
        assert(!substantial_at(html, sels[0]));
        assert forall|j: int| 0 <= j < sels.len() - 1 implies !substantial_at(html, #[trigger] sels.drop_first()[j]) by {
            assert(sels.drop_first()[j] == sels[j + 1]);
        }
        lemma_no_substantial(html, sels.drop_first());
    }
}

/// The UTF-8 encoding of a concatenation is the concatenation of the encodings.
proof fn lemma_encode_concat(a: Seq<char>, b: Seq<char>)
    ensures
        vstd::utf8::encode_utf8(a + b) == vstd::utf8::encode_utf8(a) + vstd::utf8::encode_utf8(b),
    decreases a.len(),
{
    if a.len() > 0 {
        assert((a + b)[0] == a[0]);
        assert((a + b).drop_first() == a.drop_first() + b);
        lemma_encode_concat(a.drop_first(), b);
    } else {
        assert(a + b == b);
    }
}

/// A joined text is at least as long in UTF-8 as its first part.
proof fn lemma_join_encodes_first(parts: Seq<Seq<char>>, sep: Seq<char>)
    requires
        parts.len() > 0,
    ensures
        vstd::utf8::encode_utf8(join(parts, sep)).len() >= vstd::utf8::encode_utf8(parts[0]).len(),
    decreases parts.len(),
{
    if parts.len() > 1 {
        lemma_join_encodes_first(parts.drop_last(), sep);
        lemma_encode_concat(join(parts.drop_last(), sep), sep + parts.last());
        assert(join(parts.drop_last(), sep) + sep + parts.last() == join(parts.drop_last(), sep) + (
        sep + parts.last()));
    }
}

/// A text of more than `n` bytes by [`byte_len`] has more than `n` bytes in UTF-8.
proof fn lemma_byte_len_bound(t: Seq<char>, n: int)
    requires
        0 <= n,
        byte_len(t) > n,
    ensures
        vstd::utf8::encode_utf8(t).len() > n,
{
    if vstd::utf8::encode_utf8(t).len() <= usize::MAX {
        assert(byte_len(t) == vstd::utf8::encode_utf8(t).len());
    }
}

/// Every substantial paragraph has more than 50 bytes in UTF-8.
proof fn lemma_substantial_paragraphs(ts: Seq<Seq<char>>)
    ensures
        forall|i: int|
            0 <= i < substantial_paragraphs(ts).len() ==> vstd::utf8::encode_utf8(
                #[trigger] substantial_paragraphs(ts)[i],
            ).len() > 50,
    decreases ts.len(),
{
    if ts.len() > 0 {
        lemma_substantial_paragraphs(ts.drop_last());
        let prev = substantial_paragraphs(ts.drop_last());
        let t = normalized(ts.last());
        if byte_len(t) > 50 {
            lemma_byte_len_bound(t, 50);
            assert forall|i: int| 0 <= i < prev.len() + 1 implies vstd::utf8::encode_utf8(
                #[trigger] prev.push(t)[i],
            ).len() > 50 by {
                if i < prev.len() {
                    assert(prev.push(t)[i] == prev[i]);
                }
            }
        }
    }
}

/// A text found by the selectors has more than 200 bytes in UTF-8.
proof fn lemma_first_substantial(html: Seq<char>, sels: Seq<Seq<char>>)
    ensures
        first_substantial(html, sels) matches Some(t) ==> vstd::utf8::encode_utf8(t).len() > 200,
    decreases sels.len(),
{
    if sels.len() > 0 {
        lemma_first_substantial(html, sels.drop_first());
        match first_match_text(html, sels[0]) {
            Some(t) => if byte_len(t) > 200 {
                lemma_byte_len_bound(t, 200);
            },
            None => {},
        }
    }
}

/// The main content of a page is empty or more than 50 bytes long in UTF-8:
/// a selected text has more than 200 bytes, and paragraph text starts with a
/// paragraph of more than 50.
pub proof fn law_main_content_is_empty_or_substantial(html: Seq<char>)
    ensures
        main_content(html).len() == 0 || vstd::utf8::encode_utf8(main_content(html)).len() > 50,
{
    lemma_first_substantial(html, content_selectors());
    match html_select_texts(html, "p"@) {
        Some(ts) => {
            let parts = substantial_paragraphs(ts);
            lemma_substantial_paragraphs(ts);
            if parts.len() > 0 {
                lemma_join_encodes_first(parts, seq!['\n', '\n']);
                assert(vstd::utf8::encode_utf8(parts[0]).len() > 50);
            }
        },
        None => {},
    }
}

fn content_selector(i: usize) -> (r: &'static str)
    requires
        i < 12,
    ensures
        r@ == content_selectors()[i as int],
{
    match i {
        0 => "article",
        1 => "main",
        2 => ".article-content",
        3 => ".post-content",
        4 => ".entry-content",
        5 => ".content-body",
        6 => ".article-body",
        7 => ".post-body",
        8 => "#article-content",
        9 => "#post-content",
        10 => "#content",
        _ => ".content",
    }
}

fn join_paragraphs(parts: &Vec<String>) -> (r: String)
    ensures
        r@ == join(parts@.map_values(|s: String| s@), seq!['\n', '\n']),
{
    let ghost pv = parts@.map_values(|s: String| s@);
    let mut out: Vec<char> = Vec::new();
    let mut i: usize = 0;
    while i < parts.len()
        invariant
            i <= parts.len(),
            pv == parts@.map_values(|s: String| s@),
            out@ == join(pv.take(i as int), seq!['\n', '\n']),
        decreases parts.len() - i,
    {
        assert(pv.take(i + 1).drop_last() == pv.take(i as int));
        assert(pv.take(i + 1).last() == parts@[i as int]@);
        let ghost before = out@;
        if i > 0 {
            out.push('\n');
            out.push('\n');
            assert(out@ == before + seq!['\n', '\n']);
        } else {
            assert(out@ == Seq::<char>::empty());
        }
        push_str(&mut out, parts[i].as_str());
        i = i + 1;
    }
    assert(pv.take(parts.len() as int) == pv);
    string_of(&out)
}

/// Extract the main content of an HTML page: the whitespace-normalized text of
/// the first element found by the content selectors, in turn, whose text is
/// longer than 200 bytes; failing that, the texts of the paragraphs longer than
/// 50 bytes, separated by blank lines; failing that, the empty string.
pub fn extract_main_content(html: &str) -> (r: String)
    ensures
        r@ == main_content(html@),
{
    let mut i: usize = 0;
    assert(content_selectors().skip(0) == content_selectors());
    while i < 12
        invariant
            i <= 12,
            content_selectors().len() == 12,
            first_substantial(html@, content_selectors()) == first_substantial(
                html@,
                content_selectors().skip(i as int),
            ),
        decreases 12 - i,
    {
        let sel = content_selector(i);
        let ghost rest = content_selectors().skip(i as int);
        assert(rest[0] == content_selectors()[i as int]);
        assert(rest.drop_first() == content_selectors().skip(i + 1));
        match select_texts(html, sel) {
            Some(ts) => {
                if ts.len() > 0 {
                    let t = normalize_whitespace(ts[0].as_str());
                    if t.as_str().len() > 200 {
                        return t;
                    }
                }
            },
            None => {},
        }
        i = i + 1;
    }
    assert(content_selectors().skip(12) == Seq::<Seq<char>>::empty());
    match select_texts(html, "p") {
        None => String::new(),
        Some(ps) => {
            let ghost tv = ps@.map_values(|s: String| s@);
            let mut kept: Vec<String> = Vec::new();
            let mut k: usize = 0;
            while k < ps.len()
                invariant
                    k <= ps.len(),
                    tv == ps@.map_values(|s: String| s@),
                    kept@.map_values(|s: String| s@) == substantial_paragraphs(tv.take(k as int)),
                decreases ps.len() - k,
            {
                assert(tv.take(k + 1).drop_last() == tv.take(k as int));
                assert(tv.take(k + 1).last() == ps@[k as int]@);
                let t = normalize_whitespace(ps[k].as_str());
                if t.as_str().len() > 50 {
                    let ghost before = kept@;
                    kept.push(t);
                    assert(kept@.map_values(|s: String| s@) == before.map_values(|s: String| s@).push(
                        kept@[before.len() as int]@,
                    ));
                }
                k = k + 1;
            }
            assert(tv.take(ps.len() as int) == tv);
            join_paragraphs(&kept)
        },
    }
}

/// Article fetcher: how long a page fetch may take, and how many articles are
/// fetched per category.
#[derive(Debug, Clone, Copy, PartialEq, Eq, Structural)]
pub struct ArticleFetcher {
    /// Timeout of one page fetch, in seconds
    timeout_secs: u64,
    /// Maximum articles to fetch per category
    max_fetch_per_category: usize,
}

impl ArticleFetcher {
    /// Create a new article fetcher
    pub fn new(timeout_secs: u64, max_fetch_per_category: usize) -> (r: Self)
        ensures
            r.spec_timeout_secs() == timeout_secs,
            r.spec_max_fetch_per_category() == max_fetch_per_category,
    {
        ArticleFetcher { timeout_secs, max_fetch_per_category }
    }

    /// Get max fetch per category
    pub fn max_fetch_per_category(&self) -> (r: usize)
        ensures
            r == self.spec_max_fetch_per_category(),
    {
        self.max_fetch_per_category
    }

    /// The timeout of one page fetch, in seconds.
    pub fn timeout_secs(&self) -> (r: u64)
        ensures
            r == self.spec_timeout_secs(),
    {
        self.timeout_secs
    }

    /// The most articles fetched per category.
    pub closed spec fn spec_max_fetch_per_category(&self) -> usize {
        self.max_fetch_per_category
    }

    /// The timeout of one page fetch, in seconds.
    pub closed spec fn spec_timeout_secs(&self) -> u64 {
        self.timeout_secs
    }

    /// Extract main content from HTML
    pub fn extract_content_from_html(&self, html: &str) -> (r: String)
        ensures
            r@ == main_content(html@),
    {
        extract_main_content(html)
    }

    /// The content of a fetched page: none when the response was not a
    /// success or no content could be extracted from its body, else the main
    /// content of the body.
    pub fn content_of_response(&self, success: bool, body: &str) -> (r: Option<String>)
        ensures
            !success ==> r is None,
            success && main_content(body@).len() == 0 ==> r is None,
            success && main_content(body@).len() > 0 ==> (r matches Some(c) && c@ == main_content(body@)),
    {
        if !success {
            return None;
        }
        let content = self.extract_content_from_html(body);
        if content.as_str().is_empty() {
            None
        } else {
            Some(content)
        }
    }
}

} // verus!
