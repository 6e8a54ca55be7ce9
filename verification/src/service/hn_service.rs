//! Hacker News items and the text cleaning applied to them.

use vstd::prelude::*;

use crate::cache::news_cache::{NewsArticle, NewsCategory};
use crate::service::{newest_first, sort_newest_first};
use crate::time::Timestamp;
use crate::text::{
    append_chars, chars_of, decimal, eq_lit, join, push_decimal, push_str,
    replace_all, replace_chars, string_of, trim, trim_chars, views, is_ws, trim_start, trim_end,
};

verus! {

/// The ten HTML entities decoded by [`clean_text`], in the order they are
/// decoded: `&lt;`, `&gt;`, `&amp;`, `&quot;`, `&apos;`, `&nbsp;`, `&mdash;`,
/// `&ndash;`, `&#x27;`, `&#x2F;`.
pub open spec fn decode_entities(s: Seq<char>) -> Seq<char> {
    let s1 = replace_all(s, "&lt;"@, "<"@);
    let s2 = replace_all(s1, "&gt;"@, ">"@);
    let s3 = replace_all(s2, "&amp;"@, "&"@);
    let s4 = replace_all(s3, "&quot;"@, "\""@);
    let s5 = replace_all(s4, "&apos;"@, "'"@);
    let s6 = replace_all(s5, "&nbsp;"@, " "@);
    let s7 = replace_all(s6, "&mdash;"@, "—"@);
    let s8 = replace_all(s7, "&ndash;"@, "-"@);
    let s9 = replace_all(s8, "&#x27;"@, "'"@);
    replace_all(s9, "&#x2F;"@, "/"@)
}

/// The characters of `s` outside tags: a `<` opens a tag, a `>` closes it,
/// and neither is kept. `in_tag` tells whether a tag is open before `s`.
pub open spec fn strip_tags_from(s: Seq<char>, in_tag: bool) -> Seq<char>
    decreases s.len(),
{
    if s.len() == 0 {
        s
    } else if s[0] == '<' {
        strip_tags_from(s.drop_first(), true)
    } else if s[0] == '>' {
        strip_tags_from(s.drop_first(), false)
    } else if !in_tag {
        seq![s[0]] + strip_tags_from(s.drop_first(), false)
    } else {
        strip_tags_from(s.drop_first(), true)
    }
}

/// Scans `s` from the left, giving the completed lines and the line still being read.
pub open spec fn line_scan(s: Seq<char>) -> (Seq<Seq<char>>, Seq<char>)
    decreases s.len(),
{
    if s.len() == 0 {
        (Seq::empty(), Seq::empty())
    } else {
        let prev = line_scan(s.drop_last());
        if s.last() == '\n' {
            (prev.0.push(prev.1), Seq::empty())
        } else {
            (prev.0, prev.1.push(s.last()))
        }
    }
}

/// The pieces of `s` between line feeds (an empty piece where two line feeds meet).
pub open spec fn split_lines(s: Seq<char>) -> Seq<Seq<char>> {
    line_scan(s).0.push(line_scan(s).1)
}

/// The lines trimmed of surrounding whitespace, without those that are then empty.
pub open spec fn trimmed_nonempty(lines: Seq<Seq<char>>) -> Seq<Seq<char>>
    decreases lines.len(),
{
    if lines.len() == 0 {
        Seq::empty()
    } else {
        let prev = trimmed_nonempty(lines.drop_last());
        let t = trim(lines.last());
        if t.len() > 0 {
            prev.push(t)
        } else {
            prev
        }
    }
}

/// `s` with every run of spaces shortened to one space.
pub open spec fn collapse_spaces(s: Seq<char>) -> Seq<char>
    decreases s.len(),
{
    if s.len() == 0 {
        s
    } else {
        let prev = collapse_spaces(s.drop_last());
        if s.last() == ' ' && s.len() >= 2 && s[s.len() - 2] == ' ' {
            prev
        } else {
            prev.push(s.last())
        }
    }
}

/// What [`clean_text`] gives for `s`: entities decoded, tags removed, the
/// non-blank lines trimmed and joined by single spaces, runs of spaces
/// shortened to one, and the result trimmed.
pub open spec fn cleaned(s: Seq<char>) -> Seq<char> {
    trim(
        collapse_spaces(
            join(trimmed_nonempty(split_lines(strip_tags_from(decode_entities(s), false))), seq![' ']),
        ),
    )
}

fn replace_lit(v: &Vec<char>, pat: &str, rep: &str) -> (r: Vec<char>)
    ensures
        r@ == replace_all(v@, pat@, rep@),
{
    let p = chars_of(pat);
    let q = chars_of(rep);
    replace_chars(v, &p, &q)
}

/// Decodes the HTML entities listed at [`decode_entities`].
pub fn decode_entity_chars(v: &Vec<char>) -> (r: Vec<char>)
    ensures
        r@ == decode_entities(v@),
{
    let v1 = replace_lit(v, "&lt;", "<");
    let v2 = replace_lit(&v1, "&gt;", ">");
    let v3 = replace_lit(&v2, "&amp;", "&");
    let v4 = replace_lit(&v3, "&quot;", "\"");
    let v5 = replace_lit(&v4, "&apos;", "'");
    let v6 = replace_lit(&v5, "&nbsp;", " ");
    let v7 = replace_lit(&v6, "&mdash;", "—");
    let v8 = replace_lit(&v7, "&ndash;", "-");
    let v9 = replace_lit(&v8, "&#x27;", "'");
    replace_lit(&v9, "&#x2F;", "/")
}

/// Removes tags (everything from a `<` through the next `>`).
pub fn strip_tag_chars(v: &Vec<char>) -> (r: Vec<char>)
    ensures
        r@ == strip_tags_from(v@, false),
{
    let n = v.len();
    let mut out: Vec<char> = Vec::new();
    let mut in_tag = false;
    let mut i: usize = 0;
    assert(v@.skip(0) == v@);
    while i < n
        invariant
            i <= n == v.len(),
            out@ + strip_tags_from(v@.skip(i as int), in_tag) == strip_tags_from(v@, false),
        decreases n - i,
    {
        let c = v[i];
        assert(v@.skip(i as int).drop_first() == v@.skip(i + 1));
        assert(v@.skip(i as int)[0] == c);
        if c == '<' {
            in_tag = true;
        } else if c == '>' {
            in_tag = false;
        } else if !in_tag {
            assert(out@.push(c) + strip_tags_from(v@.skip(i + 1), false) == out@ + (seq![c]
                + strip_tags_from(v@.skip(i + 1), false)));
            out.push(c);
        }
        i = i + 1;
    }
    assert(v@.skip(n as int) == Seq::<char>::empty());
    assert(out@ + Seq::<char>::empty() == out@);
    out
}

/// Splits at line feeds, trims each line and keeps those that are not empty.
pub fn nonblank_lines(v: &Vec<char>) -> (r: Vec<Vec<char>>)
    ensures
        views(r@) == trimmed_nonempty(split_lines(v@)),
{
    let n = v.len();
    let mut out: Vec<Vec<char>> = Vec::new();
    let mut cur: Vec<char> = Vec::new();
    let mut i: usize = 0;
    assert(v@.take(0) == Seq::<char>::empty());
    while i < n
        invariant
            i <= n == v.len(),
            views(out@) == trimmed_nonempty(line_scan(v@.take(i as int)).0),
            cur@ == line_scan(v@.take(i as int)).1,
        decreases n - i,
    {
        assert(v@.take(i + 1).drop_last() == v@.take(i as int));
        let c = v[i];
        if c == '\n' {
            let ghost done = line_scan(v@.take(i as int)).0;
            assert(done.push(cur@).drop_last() == done);
            let t = trim_chars(&cur);
            if t.len() > 0 {
                let ghost before = out@;
                out.push(t);
                assert(views(out@) =~= views(before).push(t@));
            }
            cur = Vec::new();
        } else {
            cur.push(c);
        }
        i = i + 1;
    }
    assert(v@.take(n as int) == v@);
    let ghost done = line_scan(v@).0;
    assert(done.push(cur@).drop_last() == done);
    let t = trim_chars(&cur);
    if t.len() > 0 {
        let ghost before = out@;
        out.push(t);
        assert(views(out@) =~= views(before).push(t@));
    }
    out
}

/// Joins the pieces with single spaces.
pub fn join_with_space(parts: &Vec<Vec<char>>) -> (r: Vec<char>)
    ensures
        r@ == join(views(parts@), seq![' ']),
{
    let mut out: Vec<char> = Vec::new();
    let mut i: usize = 0;
    while i < parts.len()
        invariant
            i <= parts.len(),
            out@ == join(views(parts@).take(i as int), seq![' ']),
        decreases parts.len() - i,
    {
        let ghost pv = views(parts@);
        assert(pv.take(i + 1).drop_last() == pv.take(i as int));
        assert(pv.take(i + 1).last() == parts@[i as int]@);
        if i > 0 {
            out.push(' ');
        } else {
            assert(out@ == Seq::<char>::empty());
        }
        append_chars(&mut out, &parts[i]);
        i = i + 1;
    }
    assert(views(parts@).take(parts.len() as int) == views(parts@));
    out
}

/// Shortens every run of spaces to one space.
pub fn collapse_space_chars(v: &Vec<char>) -> (r: Vec<char>)
    ensures
        r@ == collapse_spaces(v@),
{
    let n = v.len();
    let mut out: Vec<char> = Vec::new();
    let mut i: usize = 0;
    assert(v@.take(0) == Seq::<char>::empty());
    while i < n
        invariant
            i <= n == v.len(),
            out@ == collapse_spaces(v@.take(i as int)),
        decreases n - i,
    {
        let ghost p = v@.take(i + 1);
        assert(p.drop_last() == v@.take(i as int));
        assert(p.last() == v@[i as int]);
        if v[i] == ' ' && i >= 1 && v[i - 1] == ' ' {
            assert(p[p.len() - 2] == v@[i - 1]);
        } else {
            assert(i >= 1 ==> p[p.len() - 2] == v@[i - 1]);
            out.push(v[i]);
        }
        i = i + 1;
    }
    assert(v@.take(n as int) == v@);
    out
}

/// Cleans feed text: decodes the common HTML entities, removes tags, trims
/// each line and joins the non-blank ones with spaces, shortens runs of spaces
/// to one, and trims the result.
pub fn clean_text(text: &str) -> (r: String)
    ensures
        r@ == cleaned(text@),
{
    let v = chars_of(text);
    let decoded = decode_entity_chars(&v);
    let stripped = strip_tag_chars(&decoded);
    let lines = nonblank_lines(&stripped);
    let joined = join_with_space(&lines);
    let collapsed = collapse_space_chars(&joined);
    let trimmed = trim_chars(&collapsed);
    string_of(&trimmed)
}


/// Whether no character of `s` is a `<`, a `>` or a line feed.
pub open spec fn free_of_tags_and_lines(s: Seq<char>) -> bool {
    forall|i: int| 0 <= i < s.len() ==> #[trigger] s[i] != '<' && s[i] != '>' && s[i] != '\n'
}

/// Whether no two spaces follow each other in `s`.
pub open spec fn no_double_space(s: Seq<char>) -> bool {
    forall|i: int| 0 <= i < s.len() - 1 ==> !(#[trigger] s[i] == ' ' && s[i + 1] == ' ')
}

proof fn lemma_strip_no_angles(s: Seq<char>, in_tag: bool)
    ensures
        forall|i: int| 0 <= i < strip_tags_from(s, in_tag).len() ==> #[trigger] strip_tags_from(s, in_tag)[i]
            != '<' && strip_tags_from(s, in_tag)[i] != '>',
    decreases s.len(),
{
    if s.len() > 0 {
        let out = strip_tags_from(s, in_tag);
        let next_tag = if s[0] == '<' { true } else if s[0] == '>' { false } else { in_tag };
        let rest = strip_tags_from(s.drop_first(), next_tag);
        lemma_strip_no_angles(s.drop_first(), next_tag);
        if s[0] != '<' && s[0] != '>' && !in_tag {
            assert(out == seq![s[0]] + rest);
            assert forall|i: int| 0 <= i < out.len() implies #[trigger] out[i] != '<' && out[i] != '>' by {
                if i > 0 {
                    assert(out[i] == rest[i - 1]);
                }
            }
        } else {
            assert(out == rest);
            assert forall|i: int| 0 <= i < out.len() implies #[trigger] out[i] != '<' && out[i] != '>' by {
                assert(out[i] == rest[i]);
            }
        }
    }
}

proof fn lemma_lines_free(s: Seq<char>)
    requires
        forall|i: int| 0 <= i < s.len() ==> #[trigger] s[i] != '<' && s[i] != '>',
    ensures
        forall|k: int| 0 <= k < line_scan(s).0.len() ==> free_of_tags_and_lines(#[trigger] line_scan(s).0[k]),
        free_of_tags_and_lines(line_scan(s).1),
    decreases s.len(),
{
    if s.len() > 0 {
        let t = s.drop_last();
        assert forall|i: int| 0 <= i < t.len() implies #[trigger] t[i] != '<' && t[i] != '>' by {
            assert(t[i] == s[i]);
        }
        lemma_lines_free(t);
        let prev = line_scan(t);
        if s.last() == '\n' {
            assert forall|k: int| 0 <= k < line_scan(s).0.len() implies free_of_tags_and_lines(
                #[trigger] line_scan(s).0[k],
            ) by {
                if k < prev.0.len() {
                    assert(line_scan(s).0[k] == prev.0[k]);
                }
            }
        } else {
            assert(s[s.len() - 1] == s.last());
            assert forall|i: int| 0 <= i < line_scan(s).1.len() implies #[trigger] line_scan(s).1[i] != '<'
                && line_scan(s).1[i] != '>' && line_scan(s).1[i] != '\n' by {
                if i < prev.1.len() {
                    assert(line_scan(s).1[i] == prev.1[i]);
                }
            }
        }
    }
}

/// A trimmed text is a piece of the text, and starts and ends with no whitespace.
proof fn lemma_trim_piece(s: Seq<char>)
    ensures
        exists|a: int, b: int| 0 <= a <= b <= s.len() && trim(s) == s.subrange(a, b),
        trim(s).len() > 0 ==> !is_ws(trim(s)[0]) && !is_ws(trim(s).last()),
        trim(trim(s)) == trim(s),
{
    lemma_trim_start_piece(s);
    let a = choose|a: int| 0 <= a <= s.len() && trim_start(s) == s.subrange(a, s.len() as int);
    let u = trim_start(s);
    lemma_trim_end_piece(u);
    let b = choose|b: int| 0 <= b <= u.len() && trim_end(u) == u.subrange(0, b);
    assert(trim(s) == s.subrange(a, a + b));
    let t = trim(s);
    if t.len() > 0 {
        assert(t[0] == u[0]);
    }
    lemma_trim_start_keeps(t);
    lemma_trim_end_keeps(t);
}

proof fn lemma_trim_start_piece(s: Seq<char>)
    ensures
        exists|a: int| 0 <= a <= s.len() && trim_start(s) == s.subrange(a, s.len() as int),
        trim_start(s).len() > 0 ==> !is_ws(trim_start(s)[0]),
    decreases s.len(),
{
    if s.len() > 0 && is_ws(s[0]) {
        lemma_trim_start_piece(s.drop_first());
        let a = choose|a: int| 0 <= a <= s.drop_first().len() && trim_start(s.drop_first()) == s.drop_first().subrange(
            a,
            s.drop_first().len() as int,
        );
        assert(s.drop_first().subrange(a, s.drop_first().len() as int) == s.subrange(a + 1, s.len() as int));
    } else {
        assert(s == s.subrange(0, s.len() as int));
    }
}

proof fn lemma_trim_end_piece(s: Seq<char>)
    ensures
        exists|b: int| 0 <= b <= s.len() && trim_end(s) == s.subrange(0, b),
        trim_end(s).len() > 0 ==> !is_ws(trim_end(s).last()),
    decreases s.len(),
{
    if s.len() > 0 && is_ws(s.last()) {
        lemma_trim_end_piece(s.drop_last());
        let b = choose|b: int| 0 <= b <= s.drop_last().len() && trim_end(s.drop_last()) == s.drop_last().subrange(0, b);
        assert(s.drop_last().subrange(0, b) == s.subrange(0, b));
    } else {
        assert(s == s.subrange(0, s.len() as int));
    }
}

proof fn lemma_trim_start_keeps(s: Seq<char>)
    requires
        s.len() > 0 ==> !is_ws(s[0]),
    ensures
        trim_start(s) == s,
{
}

proof fn lemma_trim_end_keeps(s: Seq<char>)
    requires
        s.len() > 0 ==> !is_ws(s.last()),
    ensures
        trim_end(s) == s,
{
}

proof fn lemma_trimmed_free(lines: Seq<Seq<char>>)
    requires
        forall|k: int| 0 <= k < lines.len() ==> free_of_tags_and_lines(#[trigger] lines[k]),
    ensures
        forall|k: int| 0 <= k < trimmed_nonempty(lines).len() ==> free_of_tags_and_lines(
            #[trigger] trimmed_nonempty(lines)[k],
        ),
    decreases lines.len(),
{
    if lines.len() > 0 {
        let rest = lines.drop_last();
        assert forall|k: int| 0 <= k < rest.len() implies free_of_tags_and_lines(#[trigger] rest[k]) by {
            assert(rest[k] == lines[k]);
        }
        lemma_trimmed_free(rest);
        let l = lines.last();
        assert(free_of_tags_and_lines(lines[lines.len() - 1]));
        lemma_trim_piece(l);
        let (a, b) = choose|a: int, b: int| 0 <= a <= b <= l.len() && trim(l) == l.subrange(a, b);
        assert forall|i: int| 0 <= i < trim(l).len() implies #[trigger] trim(l)[i] != '<' && trim(l)[i] != '>'
            && trim(l)[i] != '\n' by {
            assert(trim(l)[i] == l[a + i]);
        }
        let prev = trimmed_nonempty(rest);
        assert forall|k: int| 0 <= k < trimmed_nonempty(lines).len() implies free_of_tags_and_lines(
            #[trigger] trimmed_nonempty(lines)[k],
        ) by {
            if k < prev.len() {
                assert(trimmed_nonempty(lines)[k] == prev[k]);
            }
        }
    }
}

proof fn lemma_join_free(parts: Seq<Seq<char>>)
    requires
        forall|k: int| 0 <= k < parts.len() ==> free_of_tags_and_lines(#[trigger] parts[k]),
    ensures
        free_of_tags_and_lines(join(parts, seq![' '])),
    decreases parts.len(),
{
    if parts.len() == 1 {
        assert(free_of_tags_and_lines(parts[0]));
    } else if parts.len() > 1 {
        let rest = parts.drop_last();
        assert forall|k: int| 0 <= k < rest.len() implies free_of_tags_and_lines(#[trigger] rest[k]) by {
            assert(rest[k] == parts[k]);
        }
        lemma_join_free(rest);
        let a = join(rest, seq![' ']);
        let l = parts.last();
        assert(free_of_tags_and_lines(parts[parts.len() - 1]));
        let j = join(parts, seq![' ']);
        assert forall|i: int| 0 <= i < j.len() implies #[trigger] j[i] != '<' && j[i] != '>' && j[i] != '\n' by {
            if i < a.len() {
                assert(j[i] == a[i]);
            } else if i == a.len() {
                assert(j[i] == ' ');
            } else {
                assert(j[i] == l[i - a.len() - 1]);
            }
        }
    }
}

proof fn lemma_collapse(s: Seq<char>)
    requires
        free_of_tags_and_lines(s),
    ensures
        free_of_tags_and_lines(collapse_spaces(s)),
        no_double_space(collapse_spaces(s)),
        s.len() > 0 ==> collapse_spaces(s).len() > 0 && collapse_spaces(s).last() == s.last(),
    decreases s.len(),
{
    if s.len() > 0 {
        let t = s.drop_last();
        assert forall|i: int| 0 <= i < t.len() implies #[trigger] t[i] != '<' && t[i] != '>' && t[i] != '\n' by {
            assert(t[i] == s[i]);
        }
        lemma_collapse(t);
        let prev = collapse_spaces(t);
        let c = collapse_spaces(s);
        assert(s[s.len() - 1] == s.last());
        if s.len() >= 2 {
            assert(t.last() == s[s.len() - 2]);
        }
        if !(s.last() == ' ' && s.len() >= 2 && s[s.len() - 2] == ' ') {
            assert forall|i: int| 0 <= i < c.len() implies #[trigger] c[i] != '<' && c[i] != '>' && c[i] != '\n' by {
                if i < prev.len() {
                    assert(c[i] == prev[i]);
                }
            }
            assert forall|i: int| 0 <= i < c.len() - 1 implies !(#[trigger] c[i] == ' ' && c[i + 1] == ' ') by {
                if i + 1 < prev.len() {
                    assert(c[i] == prev[i] && c[i + 1] == prev[i + 1]);
                } else {
                    assert(c[i] == prev.last());
                }
            }
        }
    }
}

/// Whether `s` holds no `&`.
pub open spec fn amp_free(s: Seq<char>) -> bool {
    forall|i: int| 0 <= i < s.len() ==> s[i] != '&'
}

/// Whether `s` holds no `;`.
pub open spec fn semicolon_free(s: Seq<char>) -> bool {
    forall|i: int| 0 <= i < s.len() ==> s[i] != ';'
}

proof fn lemma_amp_free_concat(x: Seq<char>, y: Seq<char>)
    requires
        amp_free(x),
        amp_free(y),
    ensures
        amp_free(x + y),
{
    assert forall|i: int| 0 <= i < (x + y).len() implies (x + y)[i] != '&' by {
        if i < x.len() {
            assert((x + y)[i] == x[i]);
        } else {
            assert((x + y)[i] == y[i - x.len()]);
        }
    }
}

/// Replacing a pattern that starts with `&` leaves a text without `&` as it is.
proof fn lemma_replace_keeps(s: Seq<char>, p: Seq<char>, r: Seq<char>)
    requires
        amp_free(s),
        p.len() > 0,
        p[0] == '&',
    ensures
        replace_all(s, p, r) == s,
    decreases s.len(),
{
    if s.len() > 0 {
        if p.len() <= s.len() {
            assert(s.take(p.len() as int)[0] == s[0]);
        }
        assert forall|i: int| 0 <= i < s.drop_first().len() implies s.drop_first()[i] != '&' by {
            assert(s.drop_first()[i] == s[i + 1]);
        }
        lemma_replace_keeps(s.drop_first(), p, r);
        assert(seq![s[0]] + s.drop_first() == s);
    }
}

/// Replacing a pattern that differs at position `w` from the text `t` that
/// follows an `&`-free `a` leaves `a + t` as it is, when `t` has no other `&`.
proof fn lemma_replace_passes(a: Seq<char>, t: Seq<char>, p: Seq<char>, r: Seq<char>, w: int)
    requires
        amp_free(a),
        t.len() > 0,
        t[0] == '&',
        amp_free(t.drop_first()),
        p.len() > 0,
        p[0] == '&',
        0 < w < p.len(),
        w < t.len() ==> t[w] != p[w],
    ensures
        replace_all(a + t, p, r) == a + t,
    decreases a.len(),
{
    let s = a + t;
    if a.len() > 0 {
        assert(s[0] == a[0]);
        if p.len() <= s.len() {
            assert(s.take(p.len() as int)[0] == s[0]);
        }
        assert(s.drop_first() == a.drop_first() + t);
        assert forall|i: int| 0 <= i < a.drop_first().len() implies a.drop_first()[i] != '&' by {
            assert(a.drop_first()[i] == a[i + 1]);
        }
        lemma_replace_passes(a.drop_first(), t, p, r, w);
        assert(seq![s[0]] + s.drop_first() == s);
    } else {
        assert(s == t);
        if p.len() <= t.len() {
            assert(t.take(p.len() as int)[w] == t[w]);
        }
        lemma_replace_keeps(t.drop_first(), p, r);
        assert(seq![t[0]] + t.drop_first() == t);
    }
}

/// Replacing `e` in `a + e + b`, with `a` free of `&` and `e` starting with
/// one, replaces that occurrence and goes on after it.
proof fn lemma_replace_hits(a: Seq<char>, e: Seq<char>, b: Seq<char>, r: Seq<char>)
    requires
        amp_free(a),
        e.len() > 0,
        e[0] == '&',
    ensures
        replace_all(a + (e + b), e, r) == a + r + replace_all(b, e, r),
    decreases a.len(),
{
    let s = a + (e + b);
    if a.len() > 0 {
        assert(s[0] == a[0]);
        if e.len() <= s.len() {
            assert(s.take(e.len() as int)[0] == s[0]);
        }
        assert(s.drop_first() == a.drop_first() + (e + b));
        assert forall|i: int| 0 <= i < a.drop_first().len() implies a.drop_first()[i] != '&' by {
            assert(a.drop_first()[i] == a[i + 1]);
        }
        lemma_replace_hits(a.drop_first(), e, b, r);
        assert(seq![s[0]] + (a.drop_first() + r + replace_all(b, e, r)) == a + r + replace_all(b, e, r));
    } else {
        assert(s == e + b);
        assert((e + b).take(e.len() as int) == e);
        assert((e + b).skip(e.len() as int) == b);
        assert(a + r + replace_all(b, e, r) == r + replace_all(b, e, r));
    }
}

proof fn lemma_decode_one_0(a: Seq<char>, b: Seq<char>)
    requires
        amp_free(a),
        amp_free(b),
    ensures
        decode_entities(a + "&lt;"@ + b) == a + "<"@ + b,
{
    reveal_strlit("&lt;");
    reveal_strlit("<");
    reveal_strlit("&gt;");
    reveal_strlit(">");
    reveal_strlit("&amp;");
    reveal_strlit("&");
    reveal_strlit("&quot;");
    reveal_strlit("\"");
    reveal_strlit("&apos;");
    reveal_strlit("'");
    reveal_strlit("&nbsp;");
    reveal_strlit(" ");
    reveal_strlit("&mdash;");
    reveal_strlit("—");
    reveal_strlit("&ndash;");
    reveal_strlit("-");
    reveal_strlit("&#x27;");
    reveal_strlit("'");
    reveal_strlit("&#x2F;");
    reveal_strlit("/");
    let t = "&lt;"@ + b;
    assert(t.drop_first() == "&lt;"@.drop_first() + b);
    assert(amp_free("&lt;"@.drop_first()));
    lemma_amp_free_concat("&lt;"@.drop_first(), b);
    assert(a + "&lt;"@ + b == a + t);
    lemma_replace_hits(a, "&lt;"@, b, "<"@);
    lemma_replace_keeps(b, "&lt;"@, "<"@);
    assert(amp_free("<"@));
    lemma_amp_free_concat(a, "<"@);
    lemma_amp_free_concat(a + "<"@, b);
    lemma_replace_keeps(a + "<"@ + b, "&gt;"@, ">"@);
    lemma_replace_keeps(a + "<"@ + b, "&amp;"@, "&"@);
    lemma_replace_keeps(a + "<"@ + b, "&quot;"@, "\""@);
    lemma_replace_keeps(a + "<"@ + b, "&apos;"@, "'"@);
    lemma_replace_keeps(a + "<"@ + b, "&nbsp;"@, " "@);
    lemma_replace_keeps(a + "<"@ + b, "&mdash;"@, "—"@);
    lemma_replace_keeps(a + "<"@ + b, "&ndash;"@, "-"@);
    lemma_replace_keeps(a + "<"@ + b, "&#x27;"@, "'"@);
    lemma_replace_keeps(a + "<"@ + b, "&#x2F;"@, "/"@);
}

proof fn lemma_decode_one_1(a: Seq<char>, b: Seq<char>)
    requires
        amp_free(a),
        amp_free(b),
    ensures
        decode_entities(a + "&gt;"@ + b) == a + ">"@ + b,
{
    reveal_strlit("&lt;");
    reveal_strlit("<");
    reveal_strlit("&gt;");
    reveal_strlit(">");
    reveal_strlit("&amp;");
    reveal_strlit("&");
    reveal_strlit("&quot;");
    reveal_strlit("\"");
    reveal_strlit("&apos;");
    reveal_strlit("'");
    reveal_strlit("&nbsp;");
    reveal_strlit(" ");
    reveal_strlit("&mdash;");
    reveal_strlit("—");
    reveal_strlit("&ndash;");
    reveal_strlit("-");
    reveal_strlit("&#x27;");
    reveal_strlit("'");
    reveal_strlit("&#x2F;");
    reveal_strlit("/");
    let t = "&gt;"@ + b;
    assert(t.drop_first() == "&gt;"@.drop_first() + b);
    assert(amp_free("&gt;"@.drop_first()));
    lemma_amp_free_concat("&gt;"@.drop_first(), b);
    assert(a + "&gt;"@ + b == a + t);
    lemma_replace_passes(a, t, "&lt;"@, "<"@, 1);
    lemma_replace_hits(a, "&gt;"@, b, ">"@);
    lemma_replace_keeps(b, "&gt;"@, ">"@);
    assert(amp_free(">"@));
    lemma_amp_free_concat(a, ">"@);
    lemma_amp_free_concat(a + ">"@, b);
    lemma_replace_keeps(a + ">"@ + b, "&amp;"@, "&"@);
    lemma_replace_keeps(a + ">"@ + b, "&quot;"@, "\""@);
    lemma_replace_keeps(a + ">"@ + b, "&apos;"@, "'"@);
    lemma_replace_keeps(a + ">"@ + b, "&nbsp;"@, " "@);
    lemma_replace_keeps(a + ">"@ + b, "&mdash;"@, "—"@);
    lemma_replace_keeps(a + ">"@ + b, "&ndash;"@, "-"@);
    lemma_replace_keeps(a + ">"@ + b, "&#x27;"@, "'"@);
    lemma_replace_keeps(a + ">"@ + b, "&#x2F;"@, "/"@);
}

proof fn lemma_decode_one_2(a: Seq<char>, b: Seq<char>)
    requires
        amp_free(a),
        amp_free(b),
        semicolon_free(b),
    ensures
        decode_entities(a + "&amp;"@ + b) == a + "&"@ + b,
{
    reveal_strlit("&lt;");
    reveal_strlit("<");
    reveal_strlit("&gt;");
    reveal_strlit(">");
    reveal_strlit("&amp;");
    reveal_strlit("&");
    reveal_strlit("&quot;");
    reveal_strlit("\"");
    reveal_strlit("&apos;");
    reveal_strlit("'");
    reveal_strlit("&nbsp;");
    reveal_strlit(" ");
    reveal_strlit("&mdash;");
    reveal_strlit("—");
    reveal_strlit("&ndash;");
    reveal_strlit("-");
    reveal_strlit("&#x27;");
    reveal_strlit("'");
    reveal_strlit("&#x2F;");
    reveal_strlit("/");
    let t = "&amp;"@ + b;
    assert(t.drop_first() == "&amp;"@.drop_first() + b);
    assert(amp_free("&amp;"@.drop_first()));
    lemma_amp_free_concat("&amp;"@.drop_first(), b);
    assert(a + "&amp;"@ + b == a + t);
    lemma_replace_passes(a, t, "&lt;"@, "<"@, 1);
    lemma_replace_passes(a, t, "&gt;"@, ">"@, 1);
    lemma_replace_hits(a, "&amp;"@, b, "&"@);
    lemma_replace_keeps(b, "&amp;"@, "&"@);
    let u = "&"@ + b;
    assert(u.drop_first() == b);
    assert(a + "&"@ + b == a + u);
    assert(5 < u.len() ==> u[5] == b[4]);
    lemma_replace_passes(a, u, "&quot;"@, "\""@, 5);
    assert(5 < u.len() ==> u[5] == b[4]);
    lemma_replace_passes(a, u, "&apos;"@, "'"@, 5);
    assert(5 < u.len() ==> u[5] == b[4]);
    lemma_replace_passes(a, u, "&nbsp;"@, " "@, 5);
    assert(6 < u.len() ==> u[6] == b[5]);
    lemma_replace_passes(a, u, "&mdash;"@, "—"@, 6);
    assert(6 < u.len() ==> u[6] == b[5]);
    lemma_replace_passes(a, u, "&ndash;"@, "-"@, 6);
    assert(5 < u.len() ==> u[5] == b[4]);
    lemma_replace_passes(a, u, "&#x27;"@, "'"@, 5);
    assert(5 < u.len() ==> u[5] == b[4]);
    lemma_replace_passes(a, u, "&#x2F;"@, "/"@, 5);
}

proof fn lemma_decode_one_3(a: Seq<char>, b: Seq<char>)
    requires
        amp_free(a),
        amp_free(b),
    ensures
        decode_entities(a + "&quot;"@ + b) == a + "\""@ + b,
{
    reveal_strlit("&lt;");
    reveal_strlit("<");
    reveal_strlit("&gt;");
    reveal_strlit(">");
    reveal_strlit("&amp;");
    reveal_strlit("&");
    reveal_strlit("&quot;");
    reveal_strlit("\"");
    reveal_strlit("&apos;");
    reveal_strlit("'");
    reveal_strlit("&nbsp;");
    reveal_strlit(" ");
    reveal_strlit("&mdash;");
    reveal_strlit("—");
    reveal_strlit("&ndash;");
    reveal_strlit("-");
    reveal_strlit("&#x27;");
    reveal_strlit("'");
    reveal_strlit("&#x2F;");
    reveal_strlit("/");
    let t = "&quot;"@ + b;
    assert(t.drop_first() == "&quot;"@.drop_first() + b);
    assert(amp_free("&quot;"@.drop_first()));
    lemma_amp_free_concat("&quot;"@.drop_first(), b);
    assert(a + "&quot;"@ + b == a + t);
    lemma_replace_passes(a, t, "&lt;"@, "<"@, 1);
    lemma_replace_passes(a, t, "&gt;"@, ">"@, 1);
    lemma_replace_passes(a, t, "&amp;"@, "&"@, 1);
    lemma_replace_hits(a, "&quot;"@, b, "\""@);
    lemma_replace_keeps(b, "&quot;"@, "\""@);
    assert(amp_free("\""@));
    lemma_amp_free_concat(a, "\""@);
    lemma_amp_free_concat(a + "\""@, b);
    lemma_replace_keeps(a + "\""@ + b, "&apos;"@, "'"@);
    lemma_replace_keeps(a + "\""@ + b, "&nbsp;"@, " "@);
    lemma_replace_keeps(a + "\""@ + b, "&mdash;"@, "—"@);
    lemma_replace_keeps(a + "\""@ + b, "&ndash;"@, "-"@);
    lemma_replace_keeps(a + "\""@ + b, "&#x27;"@, "'"@);
    lemma_replace_keeps(a + "\""@ + b, "&#x2F;"@, "/"@);
}

proof fn lemma_decode_one_4(a: Seq<char>, b: Seq<char>)
    requires
        amp_free(a),
        amp_free(b),
    ensures
        decode_entities(a + "&apos;"@ + b) == a + "'"@ + b,
{
    reveal_strlit("&lt;");
    reveal_strlit("<");
    reveal_strlit("&gt;");
    reveal_strlit(">");
    reveal_strlit("&amp;");
    reveal_strlit("&");
    reveal_strlit("&quot;");
    reveal_strlit("\"");
    reveal_strlit("&apos;");
    reveal_strlit("'");
    reveal_strlit("&nbsp;");
    reveal_strlit(" ");
    reveal_strlit("&mdash;");
    reveal_strlit("—");
    reveal_strlit("&ndash;");
    reveal_strlit("-");
    reveal_strlit("&#x27;");
    reveal_strlit("'");
    reveal_strlit("&#x2F;");
    reveal_strlit("/");
    let t = "&apos;"@ + b;
    assert(t.drop_first() == "&apos;"@.drop_first() + b);
    assert(amp_free("&apos;"@.drop_first()));
    lemma_amp_free_concat("&apos;"@.drop_first(), b);
    assert(a + "&apos;"@ + b == a + t);
    lemma_replace_passes(a, t, "&lt;"@, "<"@, 1);
    lemma_replace_passes(a, t, "&gt;"@, ">"@, 1);
    lemma_replace_passes(a, t, "&amp;"@, "&"@, 2);
    lemma_replace_passes(a, t, "&quot;"@, "\""@, 1);
    lemma_replace_hits(a, "&apos;"@, b, "'"@);
    lemma_replace_keeps(b, "&apos;"@, "'"@);
    assert(amp_free("'"@));
    lemma_amp_free_concat(a, "'"@);
    lemma_amp_free_concat(a + "'"@, b);
    lemma_replace_keeps(a + "'"@ + b, "&nbsp;"@, " "@);
    lemma_replace_keeps(a + "'"@ + b, "&mdash;"@, "—"@);
    lemma_replace_keeps(a + "'"@ + b, "&ndash;"@, "-"@);
    lemma_replace_keeps(a + "'"@ + b, "&#x27;"@, "'"@);
    lemma_replace_keeps(a + "'"@ + b, "&#x2F;"@, "/"@);
}

proof fn lemma_decode_one_5(a: Seq<char>, b: Seq<char>)
    requires
        amp_free(a),
        amp_free(b),
    ensures
        decode_entities(a + "&nbsp;"@ + b) == a + " "@ + b,
{
    reveal_strlit("&lt;");
    reveal_strlit("<");
    reveal_strlit("&gt;");
    reveal_strlit(">");
    reveal_strlit("&amp;");
    reveal_strlit("&");
    reveal_strlit("&quot;");
    reveal_strlit("\"");
    reveal_strlit("&apos;");
    reveal_strlit("'");
    reveal_strlit("&nbsp;");
    reveal_strlit(" ");
    reveal_strlit("&mdash;");
    reveal_strlit("—");
    reveal_strlit("&ndash;");
    reveal_strlit("-");
    reveal_strlit("&#x27;");
    reveal_strlit("'");
    reveal_strlit("&#x2F;");
    reveal_strlit("/");
    let t = "&nbsp;"@ + b;
    assert(t.drop_first() == "&nbsp;"@.drop_first() + b);
    assert(amp_free("&nbsp;"@.drop_first()));
    lemma_amp_free_concat("&nbsp;"@.drop_first(), b);
    assert(a + "&nbsp;"@ + b == a + t);
    lemma_replace_passes(a, t, "&lt;"@, "<"@, 1);
    lemma_replace_passes(a, t, "&gt;"@, ">"@, 1);
    lemma_replace_passes(a, t, "&amp;"@, "&"@, 1);
    lemma_replace_passes(a, t, "&quot;"@, "\""@, 1);
    lemma_replace_passes(a, t, "&apos;"@, "'"@, 1);
    lemma_replace_hits(a, "&nbsp;"@, b, " "@);
    lemma_replace_keeps(b, "&nbsp;"@, " "@);
    assert(amp_free(" "@));
    lemma_amp_free_concat(a, " "@);
    lemma_amp_free_concat(a + " "@, b);
    lemma_replace_keeps(a + " "@ + b, "&mdash;"@, "—"@);
    lemma_replace_keeps(a + " "@ + b, "&ndash;"@, "-"@);
    lemma_replace_keeps(a + " "@ + b, "&#x27;"@, "'"@);
    lemma_replace_keeps(a + " "@ + b, "&#x2F;"@, "/"@);
}

proof fn lemma_decode_one_6(a: Seq<char>, b: Seq<char>)
    requires
        amp_free(a),
        amp_free(b),
    ensures
        decode_entities(a + "&mdash;"@ + b) == a + "—"@ + b,
{
    reveal_strlit("&lt;");
    reveal_strlit("<");
    reveal_strlit("&gt;");
    reveal_strlit(">");
    reveal_strlit("&amp;");
    reveal_strlit("&");
    reveal_strlit("&quot;");
    reveal_strlit("\"");
    reveal_strlit("&apos;");
    reveal_strlit("'");
    reveal_strlit("&nbsp;");
    reveal_strlit(" ");
    reveal_strlit("&mdash;");
    reveal_strlit("—");
    reveal_strlit("&ndash;");
    reveal_strlit("-");
    reveal_strlit("&#x27;");
    reveal_strlit("'");
    reveal_strlit("&#x2F;");
    reveal_strlit("/");
    let t = "&mdash;"@ + b;
    assert(t.drop_first() == "&mdash;"@.drop_first() + b);
    assert(amp_free("&mdash;"@.drop_first()));
    lemma_amp_free_concat("&mdash;"@.drop_first(), b);
    assert(a + "&mdash;"@ + b == a + t);
    lemma_replace_passes(a, t, "&lt;"@, "<"@, 1);
    lemma_replace_passes(a, t, "&gt;"@, ">"@, 1);
    lemma_replace_passes(a, t, "&amp;"@, "&"@, 1);
    lemma_replace_passes(a, t, "&quot;"@, "\""@, 1);
    lemma_replace_passes(a, t, "&apos;"@, "'"@, 1);
    lemma_replace_passes(a, t, "&nbsp;"@, " "@, 1);
    lemma_replace_hits(a, "&mdash;"@, b, "—"@);
    lemma_replace_keeps(b, "&mdash;"@, "—"@);
    assert(amp_free("—"@));
    lemma_amp_free_concat(a, "—"@);
    lemma_amp_free_concat(a + "—"@, b);
    lemma_replace_keeps(a + "—"@ + b, "&ndash;"@, "-"@);
    lemma_replace_keeps(a + "—"@ + b, "&#x27;"@, "'"@);
    lemma_replace_keeps(a + "—"@ + b, "&#x2F;"@, "/"@);
}

proof fn lemma_decode_one_7(a: Seq<char>, b: Seq<char>)
    requires
        amp_free(a),
        amp_free(b),
    ensures
        decode_entities(a + "&ndash;"@ + b) == a + "-"@ + b,
{
    reveal_strlit("&lt;");
    reveal_strlit("<");
    reveal_strlit("&gt;");
    reveal_strlit(">");
    reveal_strlit("&amp;");
    reveal_strlit("&");
    reveal_strlit("&quot;");
    reveal_strlit("\"");
    reveal_strlit("&apos;");
    reveal_strlit("'");
    reveal_strlit("&nbsp;");
    reveal_strlit(" ");
    reveal_strlit("&mdash;");
    reveal_strlit("—");
    reveal_strlit("&ndash;");
    reveal_strlit("-");
    reveal_strlit("&#x27;");
    reveal_strlit("'");
    reveal_strlit("&#x2F;");
    reveal_strlit("/");
    let t = "&ndash;"@ + b;
    assert(t.drop_first() == "&ndash;"@.drop_first() + b);
    assert(amp_free("&ndash;"@.drop_first()));
    lemma_amp_free_concat("&ndash;"@.drop_first(), b);
    assert(a + "&ndash;"@ + b == a + t);
    lemma_replace_passes(a, t, "&lt;"@, "<"@, 1);
    lemma_replace_passes(a, t, "&gt;"@, ">"@, 1);
    lemma_replace_passes(a, t, "&amp;"@, "&"@, 1);
    lemma_replace_passes(a, t, "&quot;"@, "\""@, 1);
    lemma_replace_passes(a, t, "&apos;"@, "'"@, 1);
    lemma_replace_passes(a, t, "&nbsp;"@, " "@, 2);
    lemma_replace_passes(a, t, "&mdash;"@, "—"@, 1);
    lemma_replace_hits(a, "&ndash;"@, b, "-"@);
    lemma_replace_keeps(b, "&ndash;"@, "-"@);
    assert(amp_free("-"@));
    lemma_amp_free_concat(a, "-"@);
    lemma_amp_free_concat(a + "-"@, b);
    lemma_replace_keeps(a + "-"@ + b, "&#x27;"@, "'"@);
    lemma_replace_keeps(a + "-"@ + b, "&#x2F;"@, "/"@);
}

proof fn lemma_decode_one_8(a: Seq<char>, b: Seq<char>)
    requires
        amp_free(a),
        amp_free(b),
    ensures
        decode_entities(a + "&#x27;"@ + b) == a + "'"@ + b,
{
    reveal_strlit("&lt;");
    reveal_strlit("<");
    reveal_strlit("&gt;");
    reveal_strlit(">");
    reveal_strlit("&amp;");
    reveal_strlit("&");
    reveal_strlit("&quot;");
    reveal_strlit("\"");
    reveal_strlit("&apos;");
    reveal_strlit("'");
    reveal_strlit("&nbsp;");
    reveal_strlit(" ");
    reveal_strlit("&mdash;");
    reveal_strlit("—");
    reveal_strlit("&ndash;");
    reveal_strlit("-");
    reveal_strlit("&#x27;");
    reveal_strlit("'");
    reveal_strlit("&#x2F;");
    reveal_strlit("/");
    let t = "&#x27;"@ + b;
    assert(t.drop_first() == "&#x27;"@.drop_first() + b);
    assert(amp_free("&#x27;"@.drop_first()));
    lemma_amp_free_concat("&#x27;"@.drop_first(), b);
    assert(a + "&#x27;"@ + b == a + t);
    lemma_replace_passes(a, t, "&lt;"@, "<"@, 1);
    lemma_replace_passes(a, t, "&gt;"@, ">"@, 1);
    lemma_replace_passes(a, t, "&amp;"@, "&"@, 1);
    lemma_replace_passes(a, t, "&quot;"@, "\""@, 1);
    lemma_replace_passes(a, t, "&apos;"@, "'"@, 1);
    lemma_replace_passes(a, t, "&nbsp;"@, " "@, 1);
    lemma_replace_passes(a, t, "&mdash;"@, "—"@, 1);
    lemma_replace_passes(a, t, "&ndash;"@, "-"@, 1);
    lemma_replace_hits(a, "&#x27;"@, b, "'"@);
    lemma_replace_keeps(b, "&#x27;"@, "'"@);
    assert(amp_free("'"@));
    lemma_amp_free_concat(a, "'"@);
    lemma_amp_free_concat(a + "'"@, b);
    lemma_replace_keeps(a + "'"@ + b, "&#x2F;"@, "/"@);
}

proof fn lemma_decode_one_9(a: Seq<char>, b: Seq<char>)
    requires
        amp_free(a),
        amp_free(b),
    ensures
        decode_entities(a + "&#x2F;"@ + b) == a + "/"@ + b,
{
    reveal_strlit("&lt;");
    reveal_strlit("<");
    reveal_strlit("&gt;");
    reveal_strlit(">");
    reveal_strlit("&amp;");
    reveal_strlit("&");
    reveal_strlit("&quot;");
    reveal_strlit("\"");
    reveal_strlit("&apos;");
    reveal_strlit("'");
    reveal_strlit("&nbsp;");
    reveal_strlit(" ");
    reveal_strlit("&mdash;");
    reveal_strlit("—");
    reveal_strlit("&ndash;");
    reveal_strlit("-");
    reveal_strlit("&#x27;");
    reveal_strlit("'");
    reveal_strlit("&#x2F;");
    reveal_strlit("/");
    let t = "&#x2F;"@ + b;
    assert(t.drop_first() == "&#x2F;"@.drop_first() + b);
    assert(amp_free("&#x2F;"@.drop_first()));
    lemma_amp_free_concat("&#x2F;"@.drop_first(), b);
    assert(a + "&#x2F;"@ + b == a + t);
    lemma_replace_passes(a, t, "&lt;"@, "<"@, 1);
    lemma_replace_passes(a, t, "&gt;"@, ">"@, 1);
    lemma_replace_passes(a, t, "&amp;"@, "&"@, 1);
    lemma_replace_passes(a, t, "&quot;"@, "\""@, 1);
    lemma_replace_passes(a, t, "&apos;"@, "'"@, 1);
    lemma_replace_passes(a, t, "&nbsp;"@, " "@, 1);
    lemma_replace_passes(a, t, "&mdash;"@, "—"@, 1);
    lemma_replace_passes(a, t, "&ndash;"@, "-"@, 1);
    lemma_replace_passes(a, t, "&#x27;"@, "'"@, 4);
    lemma_replace_hits(a, "&#x2F;"@, b, "/"@);
    lemma_replace_keeps(b, "&#x2F;"@, "/"@);
    assert(amp_free("/"@));
    lemma_amp_free_concat(a, "/"@);
    lemma_amp_free_concat(a + "/"@, b);
}

/// Each of the ten entities, standing in a text with no other `&`, is decoded
/// to its character and the rest of the text is kept: `&lt;` to `<`, `&gt;` to
/// `>`, `&quot;` to `"`, `&apos;` and `&#x27;` to `'`, `&nbsp;` to a space,
/// `&mdash;` to `—`, `&ndash;` to `-` and `&#x2F;` to `/`; `&amp;` gives `&`
/// where no `;` follows in the text (else the `&` it gives may start an entity
/// that is decoded in turn).
pub proof fn law_each_entity_is_decoded(a: Seq<char>, b: Seq<char>)
    requires
        amp_free(a),
        amp_free(b),
    ensures
        decode_entities(a + "&lt;"@ + b) == a + "<"@ + b,
        decode_entities(a + "&gt;"@ + b) == a + ">"@ + b,
        semicolon_free(b) ==> decode_entities(a + "&amp;"@ + b) == a + "&"@ + b,
        decode_entities(a + "&quot;"@ + b) == a + "\""@ + b,
        decode_entities(a + "&apos;"@ + b) == a + "'"@ + b,
        decode_entities(a + "&nbsp;"@ + b) == a + " "@ + b,
        decode_entities(a + "&mdash;"@ + b) == a + "—"@ + b,
        decode_entities(a + "&ndash;"@ + b) == a + "-"@ + b,
        decode_entities(a + "&#x27;"@ + b) == a + "'"@ + b,
        decode_entities(a + "&#x2F;"@ + b) == a + "/"@ + b,
{
    lemma_decode_one_0(a, b);
    lemma_decode_one_1(a, b);
    if semicolon_free(b) {
        lemma_decode_one_2(a, b);
    }
    lemma_decode_one_3(a, b);
    lemma_decode_one_4(a, b);
    lemma_decode_one_5(a, b);
    lemma_decode_one_6(a, b);
    lemma_decode_one_7(a, b);
    lemma_decode_one_8(a, b);
    lemma_decode_one_9(a, b);
}

proof fn lemma_decode_escaped_0(a: Seq<char>, b: Seq<char>)
    requires
        amp_free(a),
        amp_free(b),
    ensures
        decode_entities(a + "&amp;lt;"@ + b) == a + "&lt;"@ + b,
{
    reveal_strlit("&lt;");
    reveal_strlit("<");
    reveal_strlit("&gt;");
    reveal_strlit(">");
    reveal_strlit("&amp;");
    reveal_strlit("&");
    reveal_strlit("&quot;");
    reveal_strlit("\"");
    reveal_strlit("&apos;");
    reveal_strlit("'");
    reveal_strlit("&nbsp;");
    reveal_strlit(" ");
    reveal_strlit("&mdash;");
    reveal_strlit("—");
    reveal_strlit("&ndash;");
    reveal_strlit("-");
    reveal_strlit("&#x27;");
    reveal_strlit("'");
    reveal_strlit("&#x2F;");
    reveal_strlit("/");
    reveal_strlit("&amp;lt;");
    reveal_strlit("lt;");
    let t = "&amp;lt;"@ + b;
    assert(t.drop_first() == "&amp;lt;"@.drop_first() + b);
    assert(amp_free("&amp;lt;"@.drop_first()));
    lemma_amp_free_concat("&amp;lt;"@.drop_first(), b);
    assert(a + "&amp;lt;"@ + b == a + t);
    lemma_replace_passes(a, t, "&lt;"@, "<"@, 1);
    lemma_replace_passes(a, t, "&gt;"@, ">"@, 1);
    let rest = "lt;"@ + b;
    assert(amp_free("lt;"@));
    lemma_amp_free_concat("lt;"@, b);
    assert(t == "&amp;"@ + rest);
    lemma_replace_hits(a, "&amp;"@, rest, "&"@);
    lemma_replace_keeps(rest, "&amp;"@, "&"@);
    let u = "&lt;"@ + b;
    assert(a + "&"@ + rest == a + u);
    assert(u.drop_first() == "&lt;"@.drop_first() + b);
    assert(amp_free("&lt;"@.drop_first()));
    lemma_amp_free_concat("&lt;"@.drop_first(), b);
    lemma_replace_passes(a, u, "&quot;"@, "\""@, 1);
    lemma_replace_passes(a, u, "&apos;"@, "'"@, 1);
    lemma_replace_passes(a, u, "&nbsp;"@, " "@, 1);
    lemma_replace_passes(a, u, "&mdash;"@, "—"@, 1);
    lemma_replace_passes(a, u, "&ndash;"@, "-"@, 1);
    lemma_replace_passes(a, u, "&#x27;"@, "'"@, 1);
    lemma_replace_passes(a, u, "&#x2F;"@, "/"@, 1);
}

proof fn lemma_decode_escaped_1(a: Seq<char>, b: Seq<char>)
    requires
        amp_free(a),
        amp_free(b),
    ensures
        decode_entities(a + "&amp;gt;"@ + b) == a + "&gt;"@ + b,
{
    reveal_strlit("&lt;");
    reveal_strlit("<");
    reveal_strlit("&gt;");
    reveal_strlit(">");
    reveal_strlit("&amp;");
    reveal_strlit("&");
    reveal_strlit("&quot;");
    reveal_strlit("\"");
    reveal_strlit("&apos;");
    reveal_strlit("'");
    reveal_strlit("&nbsp;");
    reveal_strlit(" ");
    reveal_strlit("&mdash;");
    reveal_strlit("—");
    reveal_strlit("&ndash;");
    reveal_strlit("-");
    reveal_strlit("&#x27;");
    reveal_strlit("'");
    reveal_strlit("&#x2F;");
    reveal_strlit("/");
    reveal_strlit("&amp;gt;");
    reveal_strlit("gt;");
    let t = "&amp;gt;"@ + b;
    assert(t.drop_first() == "&amp;gt;"@.drop_first() + b);
    assert(amp_free("&amp;gt;"@.drop_first()));
    lemma_amp_free_concat("&amp;gt;"@.drop_first(), b);
    assert(a + "&amp;gt;"@ + b == a + t);
    lemma_replace_passes(a, t, "&lt;"@, "<"@, 1);
    lemma_replace_passes(a, t, "&gt;"@, ">"@, 1);
    let rest = "gt;"@ + b;
    assert(amp_free("gt;"@));
    lemma_amp_free_concat("gt;"@, b);
    assert(t == "&amp;"@ + rest);
    lemma_replace_hits(a, "&amp;"@, rest, "&"@);
    lemma_replace_keeps(rest, "&amp;"@, "&"@);
    let u = "&gt;"@ + b;
    assert(a + "&"@ + rest == a + u);
    assert(u.drop_first() == "&gt;"@.drop_first() + b);
    assert(amp_free("&gt;"@.drop_first()));
    lemma_amp_free_concat("&gt;"@.drop_first(), b);
    lemma_replace_passes(a, u, "&quot;"@, "\""@, 1);
    lemma_replace_passes(a, u, "&apos;"@, "'"@, 1);
    lemma_replace_passes(a, u, "&nbsp;"@, " "@, 1);
    lemma_replace_passes(a, u, "&mdash;"@, "—"@, 1);
    lemma_replace_passes(a, u, "&ndash;"@, "-"@, 1);
    lemma_replace_passes(a, u, "&#x27;"@, "'"@, 1);
    lemma_replace_passes(a, u, "&#x2F;"@, "/"@, 1);
}

/// Entities are decoded once, `&lt;` and `&gt;` before `&amp;`: an escaped
/// `&amp;lt;` or `&amp;gt;` in a text with no other `&` comes out as `&lt;`
/// or `&gt;`, not as `<` or `>`.
pub proof fn law_entities_decoded_once(a: Seq<char>, b: Seq<char>)
    requires
        amp_free(a),
        amp_free(b),
    ensures
        decode_entities(a + "&amp;lt;"@ + b) == a + "&lt;"@ + b,
        decode_entities(a + "&amp;gt;"@ + b) == a + "&gt;"@ + b,
{
    lemma_decode_escaped_0(a, b);
    lemma_decode_escaped_1(a, b);
}

/// Whether `t` holds no whitespace and no `<` or `>`: text that cleaning keeps.
pub open spec fn plain_word(t: Seq<char>) -> bool {
    forall|i: int| 0 <= i < t.len() ==> !is_ws(#[trigger] t[i]) && t[i] != '<' && t[i] != '>'
}

proof fn lemma_plain_drop_first(t: Seq<char>)
    requires
        plain_word(t),
        t.len() > 0,
    ensures
        plain_word(t.drop_first()),
{
    assert forall|i: int| 0 <= i < t.drop_first().len() implies !is_ws(#[trigger] t.drop_first()[i])
        && t.drop_first()[i] != '<' && t.drop_first()[i] != '>' by {
        assert(t.drop_first()[i] == t[i + 1]);
    }
}

proof fn lemma_plain_drop_last(t: Seq<char>)
    requires
        plain_word(t),
        t.len() > 0,
    ensures
        plain_word(t.drop_last()),
{
    assert forall|i: int| 0 <= i < t.drop_last().len() implies !is_ws(#[trigger] t.drop_last()[i])
        && t.drop_last()[i] != '<' && t.drop_last()[i] != '>' by {
        assert(t.drop_last()[i] == t[i]);
    }
}

proof fn lemma_plain_strip(t: Seq<char>)
    requires
        plain_word(t),
    ensures
        strip_tags_from(t, false) == t,
    decreases t.len(),
{
    if t.len() > 0 {
        assert(!is_ws(t[0]) && t[0] != '<' && t[0] != '>');
        lemma_plain_drop_first(t);
        lemma_plain_strip(t.drop_first());
        assert(seq![t[0]] + t.drop_first() == t);
    }
}

proof fn lemma_plain_lines(t: Seq<char>)
    requires
        plain_word(t),
    ensures
        line_scan(t) == (Seq::<Seq<char>>::empty(), t),
    decreases t.len(),
{
    if t.len() > 0 {
        assert(!is_ws(t[t.len() - 1]));
        lemma_plain_drop_last(t);
        lemma_plain_lines(t.drop_last());
        assert(t.drop_last().push(t.last()) == t);
    }
}

proof fn lemma_plain_collapse(t: Seq<char>)
    requires
        plain_word(t),
    ensures
        collapse_spaces(t) == t,
    decreases t.len(),
{
    if t.len() > 0 {
        assert(!is_ws(t[t.len() - 1]));
        lemma_plain_drop_last(t);
        lemma_plain_collapse(t.drop_last());
        assert(t.drop_last().push(t.last()) == t);
    }
}

proof fn lemma_plain_trim(t: Seq<char>)
    requires
        plain_word(t),
        t.len() > 0,
    ensures
        trim(t) == t,
{
    assert(!is_ws(t[0]));
    assert(!is_ws(t[t.len() - 1]));
    assert(trim_start(t) == t);
    assert(trim_end(t) == t);
}

/// A text whose entities decode to a non-empty text without whitespace,
/// `<` or `>` is cleaned to exactly that decoded text.
pub proof fn law_plain_text_cleans_to_its_decoding(s: Seq<char>)
    requires
        plain_word(decode_entities(s)),
        decode_entities(s).len() > 0,
    ensures
        cleaned(s) == decode_entities(s),
{
    let t = decode_entities(s);
    lemma_plain_strip(t);
    lemma_plain_lines(t);
    lemma_plain_trim(t);
    let lines = split_lines(t);
    assert(lines == seq![t]);
    assert(lines.drop_last() == Seq::<Seq<char>>::empty());
    assert(lines.last() == t);
    assert(trimmed_nonempty(Seq::<Seq<char>>::empty()) == Seq::<Seq<char>>::empty());
    assert(Seq::<Seq<char>>::empty().push(t) == seq![t]);
    assert(trimmed_nonempty(lines) == seq![t]);
    assert(join(seq![t], seq![' ']) == t);
    lemma_plain_collapse(t);
}

/// Cleaning a word holding an entity, with no other `&`, whitespace, `<` or
/// `>`, decodes the entity in place: `I&#x27;ve` cleans to `I've`, and so for
/// `&apos;`, `&quot;`, `&#x2F;`, `&mdash;` and `&ndash;`.
pub proof fn law_cleaning_decodes_entities_in_words(a: Seq<char>, b: Seq<char>)
    requires
        amp_free(a),
        amp_free(b),
        plain_word(a),
        plain_word(b),
    ensures
        cleaned(a + "&#x27;"@ + b) == a + "'"@ + b,
        cleaned(a + "&apos;"@ + b) == a + "'"@ + b,
        cleaned(a + "&quot;"@ + b) == a + "\""@ + b,
        cleaned(a + "&#x2F;"@ + b) == a + "/"@ + b,
        cleaned(a + "&mdash;"@ + b) == a + "—"@ + b,
        cleaned(a + "&ndash;"@ + b) == a + "-"@ + b,
{
    law_each_entity_is_decoded(a, b);
    reveal_strlit("'");
    reveal_strlit("\"");
    reveal_strlit("/");
    reveal_strlit("—");
    reveal_strlit("-");
    lemma_plain_join(a, "'"@, b);
    lemma_plain_join(a, "\""@, b);
    lemma_plain_join(a, "/"@, b);
    lemma_plain_join(a, "—"@, b);
    lemma_plain_join(a, "-"@, b);
    law_plain_text_cleans_to_its_decoding(a + "&#x27;"@ + b);
    law_plain_text_cleans_to_its_decoding(a + "&apos;"@ + b);
    law_plain_text_cleans_to_its_decoding(a + "&quot;"@ + b);
    law_plain_text_cleans_to_its_decoding(a + "&#x2F;"@ + b);
    law_plain_text_cleans_to_its_decoding(a + "&mdash;"@ + b);
    law_plain_text_cleans_to_its_decoding(a + "&ndash;"@ + b);
}

proof fn lemma_plain_join(a: Seq<char>, c: Seq<char>, b: Seq<char>)
    requires
        plain_word(a),
        plain_word(b),
        c.len() == 1,
        !is_ws(c[0]) && c[0] != '<' && c[0] != '>',
    ensures
        plain_word(a + c + b),
        (a + c + b).len() > 0,
{
    let t = a + c + b;
    assert forall|i: int| 0 <= i < t.len() implies !is_ws(#[trigger] t[i]) && t[i] != '<' && t[i] != '>' by {
        if i < a.len() {
            assert(t[i] == a[i]);
        } else if i == a.len() {
            assert(t[i] == c[0]);
        } else {
            assert(t[i] == b[i - a.len() - 1]);
        }
    }
}

/// What `clean_text` gives has no `<`, `>` or line feed, no two spaces in a
/// row, and no whitespace at either end.
pub proof fn law_clean_text_shape(s: Seq<char>)
    ensures
        free_of_tags_and_lines(cleaned(s)),
        no_double_space(cleaned(s)),
        trim(cleaned(s)) == cleaned(s),
{
    let st = strip_tags_from(decode_entities(s), false);
    lemma_strip_no_angles(decode_entities(s), false);
    lemma_lines_free(st);
    let ls = split_lines(st);
    assert forall|k: int| 0 <= k < ls.len() implies free_of_tags_and_lines(#[trigger] ls[k]) by {
        if k < line_scan(st).0.len() {
            assert(ls[k] == line_scan(st).0[k]);
        } else {
            assert(ls[k] == line_scan(st).1);
        }
    }
    lemma_trimmed_free(ls);
    let j = join(trimmed_nonempty(ls), seq![' ']);
    lemma_join_free(trimmed_nonempty(ls));
    lemma_collapse(j);
    let c = collapse_spaces(j);
    lemma_trim_piece(c);
    let (a, b) = choose|a: int, b: int| 0 <= a <= b <= c.len() && trim(c) == c.subrange(a, b);
    let r = trim(c);
    assert forall|i: int| 0 <= i < r.len() implies #[trigger] r[i] != '<' && r[i] != '>' && r[i] != '\n' by {
        assert(r[i] == c[a + i]);
    }
    assert forall|i: int| 0 <= i < r.len() - 1 implies !(#[trigger] r[i] == ' ' && r[i + 1] == ' ') by {
        assert(r[i] == c[a + i] && r[i + 1] == c[a + i + 1]);
    }
}

/// Raw HN item returned by the Firebase API (absent fields are empty or zero).
#[derive(Debug, Clone)]
pub struct HnItem {
    /// Item id
    pub id: u64,
    /// Title
    pub title: String,
    /// Text (HTML)
    pub text: String,
    /// URL of the story
    pub url: String,
    /// Author
    pub by: String,
    /// Unix timestamp
    pub time: i64,
    /// Score
    pub score: i64,
    /// Item type: "story", "job", "comment", etc.
    pub item_type: String,
}

/// Whether an item becomes an article: it has a title and is a story.
pub open spec fn is_story(item: HnItem) -> bool {
    item.title@.len() > 0 && item.item_type@ == "story"@
}

/// The link of an item's article: its URL, or else its discussion page.
pub open spec fn hn_link(item: HnItem) -> Seq<char> {
    if item.url@.len() > 0 {
        item.url@
    } else {
        "https://news.ycombinator.com/item?id="@ + decimal(item.id as nat)
    }
}

/// Whether `a` is the article made from the story `item`.
pub open spec fn is_article_of_item(a: NewsArticle, item: HnItem) -> bool {
    &&& a.title@ == cleaned(item.title@)
    &&& if item.text@.len() > 0 {
        a.description matches Some(d) && d@ == cleaned(item.text@)
    } else {
        a.description is None
    }
    &&& a.link@ == hn_link(item)
    &&& a.source@ == "Hacker News"@
    &&& a.category == NewsCategory::HackerNews
    &&& a.published_at == if crate::time::chrono_represents(item.time) {
        Some(Timestamp { secs: item.time, nanos: 0 })
    } else {
        None
    }
    &&& if item.by@.len() > 0 {
        a.author matches Some(b) && b@ == item.by@
    } else {
        a.author is None
    }
}

/// The story items, in order.
pub open spec fn story_items(items: Seq<HnItem>) -> Seq<HnItem>
    decreases items.len(),
{
    if items.len() == 0 {
        Seq::empty()
    } else if is_story(items.last()) {
        story_items(items.drop_last()).push(items.last())
    } else {
        story_items(items.drop_last())
    }
}

/// Whether `arts` are the articles made from `stories`, one for one.
pub open spec fn articles_of_items(arts: Seq<NewsArticle>, stories: Seq<HnItem>) -> bool {
    arts.len() == stories.len() && forall|k: int|
        0 <= k < arts.len() ==> is_article_of_item(#[trigger] arts[k], stories[k])
}

fn is_story_item(item: &HnItem) -> (r: bool)
    ensures
        r == is_story(*item),
{
    if item.title.as_str().is_empty() {
        return false;
    }
    let t = chars_of(item.item_type.as_str());
    eq_lit(&t, "story")
}

/// The article made from an HN item, if the item is a story with a title:
/// title and text cleaned, the link its URL or else its discussion page,
/// the author its poster if any.
pub fn item_to_article(item: &HnItem) -> (r: Option<NewsArticle>)
    ensures
        r is Some <==> is_story(*item),
        r matches Some(a) ==> is_article_of_item(a, *item),
{
    if !is_story_item(item) {
        return None;
    }
    let title = clean_text(item.title.as_str());
    let description = if !item.text.as_str().is_empty() {
        Some(clean_text(item.text.as_str()))
    } else {
        None
    };
    let link = if !item.url.as_str().is_empty() {
        item.url.clone()
    } else {
        let mut v: Vec<char> = Vec::new();
        push_str(&mut v, "https://news.ycombinator.com/item?id=");
        push_decimal(&mut v, item.id);
        string_of(&v)
    };
    let published_at = if crate::time::timestamp_in_range(item.time) {
        Some(Timestamp { secs: item.time, nanos: 0 })
    } else {
        None
    };
    let author = if !item.by.as_str().is_empty() {
        Some(item.by.clone())
    } else {
        None
    };
    Some(
        NewsArticle::new(
            title,
            description,
            link,
            "Hacker News".to_owned(),
            NewsCategory::HackerNews,
            published_at,
            author,
        ),
    )
}

/// The articles made from the story items, newest first.
pub fn stories_from_items(items: Vec<HnItem>) -> (r: Vec<NewsArticle>)
    ensures
        exists|arts: Seq<NewsArticle>|
            articles_of_items(arts, story_items(items@)) && r@ == newest_first(arts),
{
    let mut arts: Vec<NewsArticle> = Vec::new();
    let mut i: usize = 0;
    assert(items@.take(0) == Seq::<HnItem>::empty());
    while i < items.len()
        invariant
            i <= items.len(),
            articles_of_items(arts@, story_items(items@.take(i as int))),
        decreases items.len() - i,
    {
        assert(items@.take(i + 1).drop_last() == items@.take(i as int));
        assert(items@.take(i + 1).last() == items@[i as int]);
        let ghost before = arts@;
        match item_to_article(&items[i]) {
            Some(a) => {
                arts.push(a);
                assert forall|k: int| 0 <= k < arts@.len() implies is_article_of_item(
                    #[trigger] arts@[k],
                    story_items(items@.take(i + 1))[k],
                ) by {
                    if k < before.len() {
                        assert(arts@[k] == before[k]);
                    }
                }
            },
            None => {},
        }
        i = i + 1;
    }
    assert(items@.take(items.len() as int) == items@);
    sort_newest_first(arts)
}

/// The first `limit` story ids (all of them when there are fewer).
pub fn story_ids_to_fetch(ids: &Vec<u64>, limit: usize) -> (r: Vec<u64>)
    ensures
        r@ == ids@.take(if limit < ids.len() { limit as int } else { ids.len() as int }),
{
    let n = if limit < ids.len() { limit } else { ids.len() };
    let mut r: Vec<u64> = Vec::new();
    let mut i: usize = 0;
    while i < n
        invariant
            i <= n <= ids.len(),
            r@ == ids@.take(i as int),
        decreases n - i,
    {
        r.push(ids[i]);
        assert(ids@.take(i as int).push(ids@[i as int]) == ids@.take(i + 1));
        i = i + 1;
    }
    r
}

/// The base URL of the Hacker News API.
pub open spec fn hn_api_base() -> Seq<char> {
    "https://hacker-news.firebaseio.com/v0"@
}

/// The story lists of Hacker News.
#[derive(Debug, Clone, Copy, PartialEq, Eq, Structural)]
pub enum HnFeed {
    /// Top stories
    Top,
    /// Best stories
    Best,
    /// Newest stories
    New,
    /// Ask HN stories
    Ask,
    /// Show HN stories
    Show,
}

/// The API endpoint of a story list.
pub open spec fn feed_endpoint(f: HnFeed) -> Seq<char> {
    match f {
        HnFeed::Top => "topstories"@,
        HnFeed::Best => "beststories"@,
        HnFeed::New => "newstories"@,
        HnFeed::Ask => "askstories"@,
        HnFeed::Show => "showstories"@,
    }
}

impl HnFeed {
    /// The API endpoint of this story list.
    pub fn endpoint(&self) -> (r: &'static str)
        ensures
            r@ == feed_endpoint(*self),
    {
        match self {
            HnFeed::Top => "topstories",
            HnFeed::Best => "beststories",
            HnFeed::New => "newstories",
            HnFeed::Ask => "askstories",
            HnFeed::Show => "showstories",
        }
    }
}

/// The URL of the ids of a story list: `<base>/<endpoint>.json`.
pub fn story_ids_url(feed: HnFeed) -> (r: String)
    ensures
        r@ == hn_api_base() + "/"@ + feed_endpoint(feed) + ".json"@,
{
    let mut v: Vec<char> = Vec::new();
    push_str(&mut v, "https://hacker-news.firebaseio.com/v0");
    push_str(&mut v, "/");
    push_str(&mut v, feed.endpoint());
    push_str(&mut v, ".json");
    string_of(&v)
}

/// The URL of an item: `<base>/item/<id>.json`.
pub fn item_url(id: u64) -> (r: String)
    ensures
        r@ == hn_api_base() + "/item/"@ + decimal(id as nat) + ".json"@,
{
    let mut v: Vec<char> = Vec::new();
    push_str(&mut v, "https://hacker-news.firebaseio.com/v0");
    push_str(&mut v, "/item/");
    push_decimal(&mut v, id);
    push_str(&mut v, ".json");
    string_of(&v)
}

} // verus!
