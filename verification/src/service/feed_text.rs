//! Which feed texts `feed-rs` reads to the end: the conditions under which
//! none of the `unwrap`s and assertions on its parsing path (and on that of
//! `quick-xml` under it) can fail, stated over the text's characters.

use vstd::prelude::*;

use crate::text::{chars_of, contains_seq, matches_at, occurs_at, str_contains};

verus! {

/// Whether `c` is an ASCII character.
pub open spec fn is_ascii_char(c: char) -> bool {
    (c as u32) < 0x80
}

/// Whether `c` is one of the ASCII digits `0`-`9`.
pub open spec fn is_ascii_digit(c: char) -> bool {
    0x30 <= (c as u32) <= 0x39
}

/// Whether `c` is ASCII or lies in a block without decimal digits (Latin,
/// Greek, Cyrillic, Armenian and Hebrew; punctuation, symbols and arrows;
/// CJK symbols, kana and ideographs; Hangul syllables; the fullwidth forms
/// other than the fullwidth digits). A character outside these may be what a
/// Unicode `\d` matches.
pub open spec fn digit_free_or_ascii(c: char) -> bool {
    let u = c as u32;
    ||| u < 0x600
    ||| 0x2000 <= u <= 0x2BFF
    ||| 0x3000 <= u <= 0x9FFF
    ||| 0xAC00 <= u <= 0xD7A3
    ||| 0xFF01 <= u <= 0xFF0F
    ||| 0xFF1A <= u <= 0xFFEF
}

/// The characters that an e-mail address, as `feed-rs` finds one in an
/// author's text, is made of: ASCII letters and digits, `.`, `_`, `%`, `+`,
/// `-`, `@` and the `:` of `mailto:`.
pub open spec fn email_char(c: char) -> bool {
    let u = c as u32;
    ||| 0x61 <= u <= 0x7a
    ||| 0x41 <= u <= 0x5a
    ||| 0x30 <= u <= 0x39
    ||| c == '.' || c == '_' || c == '%' || c == '+' || c == '-' || c == '@' || c == ':'
}

/// The start of the run of e-mail characters that ends just before `i`.
pub open spec fn run_start(s: Seq<char>, i: int) -> int
    decreases i,
{
    if 0 < i <= s.len() && email_char(s[i - 1]) {
        run_start(s, i - 1)
    } else {
        i
    }
}

/// The end of the run of e-mail characters that starts at `i`.
pub open spec fn run_end(s: Seq<char>, i: int) -> int
    decreases s.len() - i,
{
    if 0 <= i < s.len() && email_char(s[i]) {
        run_end(s, i + 1)
    } else {
        i
    }
}

/// Whether `<![CDATA[` starts at `p`.
pub open spec fn cdata_open_at(s: Seq<char>, p: int) -> bool {
    &&& 0 <= p && p + 9 <= s.len()
    &&& s[p] == '<' && s[p + 1] == '!' && s[p + 2] == '[' && s[p + 3] == 'C'
    &&& s[p + 4] == 'D' && s[p + 5] == 'A' && s[p + 6] == 'T' && s[p + 7] == 'A'
    &&& s[p + 8] == '['
}

/// Whether the character that the parsed text shows just before position `a`
/// is a single-byte one: the raw character there is ASCII and ends neither a
/// character reference (`;`), a JSON escape (`\`), a comment, processing
/// instruction or CDATA section (`-->`, `?>`, `]]>`), nor the `[(` of the
/// delimiters that may open an address; a CDATA section opening there is
/// looked through.
pub open spec fn left_plain(s: Seq<char>, a: int) -> bool
    decreases a,
{
    if a <= 0 || a > s.len() {
        true
    } else {
        let c = s[a - 1];
        &&& is_ascii_char(c) && c != ';' && c != '\\'
        &&& c == '>' ==> !(a >= 2 && (s[a - 2] == '-' || s[a - 2] == '?' || s[a - 2] == ']'))
        &&& c == '(' ==> !(a >= 2 && s[a - 2] == '[')
        &&& c == '[' && cdata_open_at(s, a - 9) ==> left_plain(s, a - 9)
    }
}

/// Whether the character that the parsed text shows at position `b` is a
/// single-byte one or the end of the text: the raw character there is ASCII
/// and starts neither a reference (`&`), a JSON escape (`\`), a comment,
/// processing instruction or CDATA section (`<!`, `<?`), nor the `>]` of the
/// delimiters that may close an address; a CDATA section closing there is
/// looked through.
pub open spec fn right_plain(s: Seq<char>, b: int) -> bool
    decreases s.len() - b,
{
    if b < 0 || b >= s.len() {
        true
    } else {
        let c = s[b];
        &&& is_ascii_char(c) && c != '&' && c != '\\'
        &&& c == '<' ==> b + 1 < s.len() && s[b + 1] != '!' && s[b + 1] != '?'
        &&& c == '>' ==> !(b + 1 < s.len() && s[b + 1] == ']')
        &&& c == ']' && b + 2 < s.len() && s[b + 1] == ']' && s[b + 2] == '>' ==> right_plain(
            s,
            b + 3,
        )
    }
}

/// Whether the run of e-mail characters around the `@` at `k` has single-byte
/// neighbours in the parsed text, so that `feed-rs`, which cuts an author's
/// name one byte before and after the address it finds, cuts at character
/// boundaries.
pub open spec fn at_sign_framed(s: Seq<char>, k: int) -> bool {
    left_plain(s, run_start(s, k)) && right_plain(s, run_end(s, k))
}

/// Whether every `@` of the text is framed (see [`at_sign_framed`]).
pub open spec fn at_signs_framed(s: Seq<char>) -> bool {
    forall|k: int| 0 <= k < s.len() && #[trigger] s[k] == '@' ==> at_sign_framed(s, k)
}

/// Whether `'="UTF-8"'`, or one of its three spellings with `utf-8` or single
/// quotes, starts at `p`.
pub open spec fn utf8_label_at(s: Seq<char>, p: int) -> bool {
    ||| occurs_at(s, p, "=\"UTF-8\""@)
    ||| occurs_at(s, p, "=\"utf-8\""@)
    ||| occurs_at(s, p, "='UTF-8'"@)
    ||| occurs_at(s, p, "='utf-8'"@)
}

/// Whether the XML declaration that starts at `i` names no encoding but UTF-8:
/// each `encoding` before the `?>` that closes it is followed by a UTF-8 label.
pub open spec fn decl_names_utf8(s: Seq<char>, i: int) -> bool {
    forall|j: int|
        #![trigger occurs_at(s, j, "encoding"@)]
        i <= j && occurs_at(s, j, "encoding"@) && (forall|t: int|
            i <= t && t + 2 <= j ==> !occurs_at(s, t, "?>"@)) ==> utf8_label_at(s, j + 8)
}

/// Whether the text keeps `quick-xml`'s decoder on UTF-8: it does not open
/// with the byte pattern of UTF-16 (`\0<\0?` or `<\0?\0`), and no XML
/// declaration in it switches to another encoding. (`quick-xml` asserts that
/// such a switch comes within the first 64 bytes.)
pub open spec fn keeps_utf8(s: Seq<char>) -> bool {
    &&& !(s.len() >= 4 && s[0] == '\u{0}' && s[1] == '<' && s[2] == '\u{0}' && s[3] == '?')
    &&& !(s.len() >= 4 && s[0] == '<' && s[1] == '\u{0}' && s[2] == '?' && s[3] == '\u{0}')
    &&& forall|i: int| #[trigger] occurs_at(s, i, "<?xml"@) ==> decl_names_utf8(s, i)
}

/// Whether no character reference or JSON escape in the text stands for `@`
/// (`&#64;`, `&#x40;`, or one with leading zeros; `\u0040`).
pub open spec fn no_escaped_at_sign(s: Seq<char>) -> bool {
    &&& !contains_seq(s, "&#64;"@)
    &&& !contains_seq(s, "&#x40;"@)
    &&& !contains_seq(s, "&#0"@)
    &&& !contains_seq(s, "&#x0"@)
    &&& !contains_seq(s, "\\u0040"@)
}

/// Whether the text declares the Media RSS or the iTunes namespace, the two
/// whose time attributes and durations `feed-rs` reads as numbers.
pub open spec fn declares_durations(s: Seq<char>) -> bool {
    contains_seq(s, "http://search.yahoo.com/mrss/"@) || contains_seq(
        s,
        "http://www.itunes.com/dtds/podcast-1.0.dtd"@,
    )
}

/// The number of ASCII digits just before position `i`.
pub open spec fn trailing_digits(s: Seq<char>, i: int) -> nat
    decreases i,
{
    if 0 < i <= s.len() && is_ascii_digit(s[i - 1]) {
        trailing_digits(s, i - 1) + 1
    } else {
        0
    }
}

/// Whether an ASCII digit directly follows an occurrence of `pat`.
pub open spec fn digit_after(s: Seq<char>, pat: Seq<char>) -> bool {
    exists|i: int|
        #![trigger occurs_at(s, i, pat)]
        occurs_at(s, i, pat) && i + pat.len() < s.len() && is_ascii_digit(s[i + pat.len()])
}

/// Whether every run of digits in the parsed text is a run of at most 15
/// ASCII digits of the raw text: no character reference, no character that
/// may be a non-ASCII digit, no run of 16 ASCII digits, and no digit directly
/// after a comment, processing instruction or CDATA boundary, across which the
/// parser joins text.
pub open spec fn digit_runs_plain(s: Seq<char>) -> bool {
    &&& !contains_seq(s, "&#"@)
    &&& forall|i: int| 0 <= i < s.len() ==> digit_free_or_ascii(#[trigger] s[i])
    &&& forall|i: int| 0 <= i <= s.len() ==> #[trigger] trailing_digits(s, i) <= 15
    &&& !digit_after(s, "-->"@)
    &&& !digit_after(s, "?>"@)
    &&& !digit_after(s, "]]>"@)
    &&& !digit_after(s, "<![CDATA["@)
}

/// Whether `feed_rs::parser::parse` reads the text `s` without panicking, by
/// what its source shows:
/// - `quick-xml` stays on UTF-8 ([`keeps_utf8`]);
/// - there is no document type declaration (`<!DOCTYPE`), which the parser
///   skips inside text;
/// - every `@` has single-byte neighbours ([`at_signs_framed`], and none is
///   written as a reference), for the name-and-address split of authors;
/// - where the Media RSS or iTunes namespace is declared, every digit run is
///   plain ([`digit_runs_plain`]), for the `u64` parse of durations and times.
pub open spec fn feed_text_is_safe(s: Seq<char>) -> bool {
    &&& keeps_utf8(s)
    &&& !contains_seq(s, "<!D"@) && !contains_seq(s, "<!d"@)
    &&& no_escaped_at_sign(s)
    &&& at_signs_framed(s)
    &&& declares_durations(s) ==> digit_runs_plain(s)
}

fn is_ascii_ch(c: char) -> (r: bool)
    ensures
        r == is_ascii_char(c),
{
    (c as u32) < 0x80
}

fn is_digit_ch(c: char) -> (r: bool)
    ensures
        r == is_ascii_digit(c),
{
    let u = c as u32;
    0x30 <= u && u <= 0x39
}

fn is_email_ch(c: char) -> (r: bool)
    ensures
        r == email_char(c),
{
    let u = c as u32;
    (0x61 <= u && u <= 0x7a) || (0x41 <= u && u <= 0x5a) || (0x30 <= u && u <= 0x39) || c == '.'
        || c == '_' || c == '%' || c == '+' || c == '-' || c == '@' || c == ':'
}

fn cdata_opens(v: &Vec<char>, p: usize) -> (r: bool)
    ensures
        r == cdata_open_at(v@, p as int),
{
    p <= v.len() && 9 <= v.len() - p && v[p] == '<' && v[p + 1] == '!' && v[p + 2] == '['
        && v[p + 3] == 'C' && v[p + 4] == 'D' && v[p + 5] == 'A' && v[p + 6] == 'T' && v[p + 7]
        == 'A' && v[p + 8] == '['
}

fn left_plain_at(v: &Vec<char>, a: usize) -> (r: bool)
    requires
        a <= v.len(),
    ensures
        r == left_plain(v@, a as int),
    decreases a,
{
    if a == 0 {
        return true;
    }
    let c = v[a - 1];
    if !is_ascii_ch(c) || c == ';' || c == '\\' {
        return false;
    }
    if c == '>' && a >= 2 && (v[a - 2] == '-' || v[a - 2] == '?' || v[a - 2] == ']') {
        return false;
    }
    if c == '(' && a >= 2 && v[a - 2] == '[' {
        return false;
    }
    if c == '[' && a >= 9 && cdata_opens(v, a - 9) {
        return left_plain_at(v, a - 9);
    }
    true
}

fn right_plain_at(v: &Vec<char>, b: usize) -> (r: bool)
    requires
        b <= v.len(),
    ensures
        r == right_plain(v@, b as int),
    decreases v.len() - b,
{
    if b == v.len() {
        return true;
    }
    let c = v[b];
    if !is_ascii_ch(c) || c == '&' || c == '\\' {
        return false;
    }
    if c == '<' && !(b + 1 < v.len() && v[b + 1] != '!' && v[b + 1] != '?') {
        return false;
    }
    if c == '>' && b + 1 < v.len() && v[b + 1] == ']' {
        return false;
    }
    if c == ']' && v.len() - b > 2 && v[b + 1] == ']' && v[b + 2] == '>' {
        return right_plain_at(v, b + 3);
    }
    true
}

/// Tests [`at_signs_framed`].
fn at_signs_framed_in(v: &Vec<char>) -> (r: bool)
    ensures
        r == at_signs_framed(v@),
{
    let mut k: usize = 0;
    while k < v.len()
        invariant
            k <= v.len(),
            forall|j: int| 0 <= j < k && #[trigger] v@[j] == '@' ==> at_sign_framed(v@, j),
        decreases v.len() - k,
    {
        if v[k] == '@' {
            let mut a: usize = k;
            while a > 0 && is_email_ch(v[a - 1])
                invariant
                    a <= k < v.len(),
                    run_start(v@, a as int) == run_start(v@, k as int),
                decreases a,
            {
                a = a - 1;
            }
            let mut b: usize = k;
            while b < v.len() && is_email_ch(v[b])
                invariant
                    k <= b <= v.len(),
                    run_end(v@, b as int) == run_end(v@, k as int),
                decreases v.len() - b,
            {
                b = b + 1;
            }
            if !left_plain_at(v, a) || !right_plain_at(v, b) {
                assert(v@[k as int] == '@');
                return false;
            }
        }
        k = k + 1;
    }
    true
}

/// Tests [`decl_names_utf8`] for the declaration at `i`.
fn decl_names_utf8_at(v: &Vec<char>, i: usize, enc: &Vec<char>, close: &Vec<char>) -> (r: bool)
    requires
        i <= v.len(),
        enc@ == "encoding"@,
        close@ == "?>"@,
    ensures
        r == decl_names_utf8(v@, i as int),
{
    proof {
        reveal_strlit("encoding");
        reveal_strlit("?>");
    }
    let l1 = chars_of("=\"UTF-8\"");
    let l2 = chars_of("=\"utf-8\"");
    let l3 = chars_of("='UTF-8'");
    let l4 = chars_of("='utf-8'");
    let mut j: usize = i;
    while j < v.len()
        invariant
            i <= j <= v.len(),
            enc@ == "encoding"@,
            close@ == "?>"@,
            l1@ == "=\"UTF-8\""@,
            l2@ == "=\"utf-8\""@,
            l3@ == "='UTF-8'"@,
            l4@ == "='utf-8'"@,
            forall|t: int| i <= t < j ==> !occurs_at(v@, t, "?>"@),
            forall|t: int|
                i <= t < j && #[trigger] occurs_at(v@, t, "encoding"@) ==> utf8_label_at(v@, t + 8),
        decreases v.len() - j,
    {
        proof {
            reveal_strlit("encoding");
            reveal_strlit("?>");
        }
        if matches_at(v, j, close) {
            assert forall|t: int|
                #![trigger occurs_at(v@, t, "encoding"@)]
                i <= t && occurs_at(v@, t, "encoding"@) && (forall|u: int|
                    i <= u && u + 2 <= t ==> !occurs_at(v@, u, "?>"@)) implies utf8_label_at(
                v@,
                t + 8,
            ) by {
                if t >= j + 2 {
                    assert(!occurs_at(v@, j as int, "?>"@));
                } else if t >= j {
                    assert(v@[t] == v@.subrange(t, t + 8)[0]);
                    assert(v@[t] == v@.subrange(j as int, j + 2)[t - j]);
                }
            }
            return true;
        }
        if matches_at(v, j, enc) {
            let p = j + 8;
            if !(matches_at(v, p, &l1) || matches_at(v, p, &l2) || matches_at(v, p, &l3)
                || matches_at(v, p, &l4)) {
                assert(occurs_at(v@, j as int, "encoding"@));
                return false;
            }
        }
        j = j + 1;
    }
    assert forall|t: int|
        #![trigger occurs_at(v@, t, "encoding"@)]
        i <= t && occurs_at(v@, t, "encoding"@) && (forall|u: int|
            i <= u && u + 2 <= t ==> !occurs_at(v@, u, "?>"@)) implies utf8_label_at(v@, t + 8) by {
    }
    true
}

/// Tests [`keeps_utf8`].
fn keeps_utf8_in(v: &Vec<char>) -> (r: bool)
    ensures
        r == keeps_utf8(v@),
{
    let n = v.len();
    if n >= 4 && v[0] == '\u{0}' && v[1] == '<' && v[2] == '\u{0}' && v[3] == '?' {
        return false;
    }
    if n >= 4 && v[0] == '<' && v[1] == '\u{0}' && v[2] == '?' && v[3] == '\u{0}' {
        return false;
    }
    let open = chars_of("<?xml");
    let enc = chars_of("encoding");
    let close = chars_of("?>");
    let mut i: usize = 0;
    while i < v.len()
        invariant
            i <= v.len(),
            open@ == "<?xml"@,
            enc@ == "encoding"@,
            close@ == "?>"@,
            forall|t: int| 0 <= t < i && #[trigger] occurs_at(v@, t, "<?xml"@) ==> decl_names_utf8(v@, t),
        decreases v.len() - i,
    {
        if matches_at(v, i, &open) {
            if !decl_names_utf8_at(v, i, &enc, &close) {
                return false;
            }
        }
        i = i + 1;
    }
    proof {
        reveal_strlit("<?xml");
    }
    true
}

/// Tests [`digit_after`].
fn digit_after_in(v: &Vec<char>, pat: &Vec<char>) -> (r: bool)
    ensures
        r == digit_after(v@, pat@),
{
    let mut i: usize = 0;
    while i < v.len()
        invariant
            i <= v.len(),
            forall|t: int|
                #![trigger occurs_at(v@, t, pat@)]
                0 <= t < i ==> !(occurs_at(v@, t, pat@) && t + pat@.len() < v@.len()
                    && is_ascii_digit(v@[t + pat@.len()])),
        decreases v.len() - i,
    {
        if matches_at(v, i, pat) && pat.len() < v.len() - i && is_digit_ch(v[i + pat.len()]) {
            return true;
        }
        i = i + 1;
    }
    false
}

/// Tests [`digit_runs_plain`].
fn digit_runs_plain_in(content: &str, v: &Vec<char>) -> (r: bool)
    requires
        v@ == content@,
    ensures
        r == digit_runs_plain(v@),
{
    if str_contains(content, "&#") {
        return false;
    }
    let mut i: usize = 0;
    let mut run: usize = 0;
    while i < v.len()
        invariant
            i <= v.len(),
            run == trailing_digits(v@, i as int),
            forall|t: int| 0 <= t < i ==> digit_free_or_ascii(#[trigger] v@[t]),
            forall|t: int| 0 <= t <= i ==> #[trigger] trailing_digits(v@, t) <= 15,
        decreases v.len() - i,
    {
        let c = v[i];
        let u = c as u32;
        if !(u < 0x600 || (0x2000 <= u && u <= 0x2BFF) || (0x3000 <= u && u <= 0x9FFF) || (0xAC00
            <= u && u <= 0xD7A3) || (0xFF01 <= u && u <= 0xFF0F) || (0xFF1A <= u && u <= 0xFFEF)) {
            return false;
        }
        if is_digit_ch(c) {
            if run == 15 {
                assert(trailing_digits(v@, i + 1) == 16);
                return false;
            }
            run = run + 1;
        } else {
            run = 0;
        }
        i = i + 1;
    }
    let comment_end = chars_of("-->");
    let pi_end = chars_of("?>");
    let cdata_end = chars_of("]]>");
    let cdata_start = chars_of("<![CDATA[");
    !digit_after_in(v, &comment_end) && !digit_after_in(v, &pi_end) && !digit_after_in(
        v,
        &cdata_end,
    ) && !digit_after_in(v, &cdata_start)
}

/// Tests whether a feed text can be handed to the parser (see
/// [`feed_text_is_safe`]).
pub fn feed_is_safe_to_parse(content: &str) -> (r: bool)
    ensures
        r == feed_text_is_safe(content@),
{
    let v = chars_of(content);
    if !keeps_utf8_in(&v) {
        return false;
    }
    if str_contains(content, "<!D") || str_contains(content, "<!d") {
        return false;
    }
    if str_contains(content, "&#64;") || str_contains(content, "&#x40;") || str_contains(
        content,
        "&#0",
    ) || str_contains(content, "&#x0") || str_contains(content, "\\u0040") {
        return false;
    }
    if !at_signs_framed_in(&v) {
        return false;
    }
    let durations = str_contains(content, "http://search.yahoo.com/mrss/") || str_contains(
        content,
        "http://www.itunes.com/dtds/podcast-1.0.dtd",
    );
    if durations {
        digit_runs_plain_in(content, &v)
    } else {
        true
    }
}

} // verus!
