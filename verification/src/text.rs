//! Character-level text utilities with exact specifications.

use vstd::prelude::*;

verus! {

broadcast use vstd::string::group_string_axioms;

/// What `str::to_lowercase` gives for a string: its Unicode lowercase mapping.
pub uninterp spec fn lowercase(s: Seq<char>) -> Seq<char>;

/// The ASCII lowercase of a character: `A`..`Z` become `a`..`z`, others stay.
pub open spec fn ascii_lower(c: char) -> char {
    if 'A' <= c && c <= 'Z' {
        ((c as u32) + 32) as char
    } else {
        c
    }
}

/// The ASCII lowercase of a text, character by character.
pub open spec fn ascii_lowercase(s: Seq<char>) -> Seq<char> {
    s.map_values(|c: char| ascii_lower(c))
}

/// Whether a character is ASCII, General Punctuation (U+2000..U+206F) or a
/// CJK Unified Ideograph (U+4E00..U+9FFF): characters whose Unicode lowercase
/// is their ASCII lowercase.
pub open spec fn simple_char(c: char) -> bool {
    (c as u32) < 0x80 || (0x2000 <= (c as u32) && (c as u32) <= 0x206F) || (0x4E00 <= (c as u32)
        && (c as u32) <= 0x9FFF)
}

/// Whether every character of `s` is a [`simple_char`].
pub open spec fn all_simple(s: Seq<char>) -> bool {
    forall|i: int| 0 <= i < s.len() ==> simple_char(#[trigger] s[i])
}

/// Lowercases a string with `str::to_lowercase`. Trusted: the result is the
/// Unicode lowercase mapping of `s`, named [`lowercase`]; of it is stated only
/// that a text made of ASCII, General Punctuation and CJK ideograph
/// characters is lowercased character by character as ASCII is (those
/// ideographs and punctuation have no case, and `to_lowercase` maps each
/// character on its own but for a final capital sigma, which is none of them).
#[verifier::external_body]
pub(crate) fn to_lowercase(s: &str) -> (r: String)
    ensures
        r@ == lowercase(s@),
        all_simple(s@) ==> r@ == ascii_lowercase(s@),
{
    s.to_lowercase()
}

/// Appends one character to a string (`String::push`).
#[verifier::external_body]
pub(crate) fn push_char(s: &mut String, c: char)
    ensures
        final(s)@ == old(s)@.push(c),
{
    s.push(c);
}

/// The characters of a string slice, in order.
pub fn chars_of(s: &str) -> (r: Vec<char>)
    ensures
        r@ == s@,
{
    let mut v: Vec<char> = Vec::new();
    for c in iter: s.chars()
        invariant
            iter.seq() == s@,
            v@ == iter.seq().take(iter.index() as int),
    {
        v.push(c);
    }
    v
}

/// Whether the characters `k` are those of `lit`.
pub fn eq_lit(k: &Vec<char>, lit: &str) -> (r: bool)
    ensures
        r == (k@ == lit@),
{
    let l = chars_of(lit);
    if k.len() != l.len() {
        return false;
    }
    let mut i: usize = 0;
    while i < k.len()
        invariant
            i <= k.len() == l.len(),
            l@ == lit@,
            forall|t: int| 0 <= t < i ==> k@[t] == l@[t],
        decreases k.len() - i,
    {
        if k[i] != l[i] {
            return false;
        }
        i = i + 1;
    }
    assert(k@ == l@);
    true
}

/// Builds a string from a sequence of characters.
pub fn string_of(v: &Vec<char>) -> (r: String)
    ensures
        r@ == v@,
{
    let mut s = String::new();
    let mut i: usize = 0;
    while i < v.len()
        invariant
            i <= v.len(),
            s@ == v@.take(i as int),
        decreases v.len() - i,
    {
        push_char(&mut s, v[i]);
        assert(v@.take(i as int).push(v@[i as int]) == v@.take(i + 1));
        i = i + 1;
    }
    assert(v@.take(v.len() as int) == v@);
    s
}


/// Whether `c` has the Unicode `White_Space` property (what `char::is_whitespace` tests).
pub open spec fn is_ws(c: char) -> bool {
    ||| ('\t' <= c && c <= '\r')
    ||| c == ' '
    ||| c == '\u{85}'
    ||| c == '\u{a0}'
    ||| c == '\u{1680}'
    ||| ('\u{2000}' <= c && c <= '\u{200a}')
    ||| c == '\u{2028}'
    ||| c == '\u{2029}'
    ||| c == '\u{202f}'
    ||| c == '\u{205f}'
    ||| c == '\u{3000}'
}

/// Tests the Unicode `White_Space` property of a character.
pub fn is_whitespace(c: char) -> (r: bool)
    ensures
        r == is_ws(c),
{
    ('\t' <= c && c <= '\r') || c == ' ' || c == '\u{85}' || c == '\u{a0}' || c == '\u{1680}' || (
    '\u{2000}' <= c && c <= '\u{200a}') || c == '\u{2028}' || c == '\u{2029}' || c == '\u{202f}'
        || c == '\u{205f}' || c == '\u{3000}'
}

/// `s` without its leading whitespace.
pub open spec fn trim_start(s: Seq<char>) -> Seq<char>
    decreases s.len(),
{
    if s.len() > 0 && is_ws(s[0]) {
        trim_start(s.drop_first())
    } else {
        s
    }
}

/// `s` without its trailing whitespace.
pub open spec fn trim_end(s: Seq<char>) -> Seq<char>
    decreases s.len(),
{
    if s.len() > 0 && is_ws(s.last()) {
        trim_end(s.drop_last())
    } else {
        s
    }
}

/// `s` without leading and trailing whitespace (what `str::trim` gives).
pub open spec fn trim(s: Seq<char>) -> Seq<char> {
    trim_end(trim_start(s))
}

/// Copies `v[i..j]`.
pub fn copy_range(v: &Vec<char>, i: usize, j: usize) -> (r: Vec<char>)
    requires
        i <= j <= v.len(),
    ensures
        r@ == v@.subrange(i as int, j as int),
{
    let mut r: Vec<char> = Vec::new();
    let mut k = i;
    while k < j
        invariant
            i <= k <= j <= v.len(),
            r@ == v@.subrange(i as int, k as int),
        decreases j - k,
    {
        r.push(v[k]);
        assert(v@.subrange(i as int, k as int).push(v@[k as int]) == v@.subrange(i as int, k + 1));
        k = k + 1;
    }
    r
}

/// Removes leading and trailing whitespace.
pub fn trim_chars(v: &Vec<char>) -> (r: Vec<char>)
    ensures
        r@ == trim(v@),
{
    let n = v.len();
    let mut i: usize = 0;
    assert(v@.skip(0) == v@);
    while i < n && is_whitespace(v[i])
        invariant
            i <= n == v.len(),
            trim_start(v@) == trim_start(v@.skip(i as int)),
        decreases n - i,
    {
        assert(v@.skip(i as int).drop_first() == v@.skip(i + 1));
        i = i + 1;
    }
    assert(trim_start(v@) == v@.subrange(i as int, n as int));
    let mut j: usize = n;
    while j > i && is_whitespace(v[j - 1])
        invariant
            i <= j <= n == v.len(),
            trim_end(v@.subrange(i as int, n as int)) == trim_end(v@.subrange(i as int, j as int)),
        decreases j,
    {
        assert(v@.subrange(i as int, j as int).drop_last() == v@.subrange(i as int, j - 1));
        j = j - 1;
    }
    copy_range(v, i, j)
}

/// Sequences joined with `sep` between consecutive elements (what `join` gives).
pub open spec fn join(parts: Seq<Seq<char>>, sep: Seq<char>) -> Seq<char>
    decreases parts.len(),
{
    if parts.len() == 0 {
        Seq::empty()
    } else if parts.len() == 1 {
        parts[0]
    } else {
        join(parts.drop_last(), sep) + sep + parts.last()
    }
}

/// Scans `s` from the left, giving the completed whitespace-separated words
/// and the word still being read.
pub open spec fn word_scan(s: Seq<char>) -> (Seq<Seq<char>>, Seq<char>)
    decreases s.len(),
{
    if s.len() == 0 {
        (Seq::empty(), Seq::empty())
    } else {
        let prev = word_scan(s.drop_last());
        let c = s.last();
        if is_ws(c) {
            if prev.1.len() > 0 {
                (prev.0.push(prev.1), Seq::empty())
            } else {
                prev
            }
        } else {
            (prev.0, prev.1.push(c))
        }
    }
}

/// The maximal runs of non-whitespace characters of `s`, in order
/// (what `str::split_whitespace` yields).
pub open spec fn words(s: Seq<char>) -> Seq<Seq<char>> {
    let sc = word_scan(s);
    if sc.1.len() > 0 {
        sc.0.push(sc.1)
    } else {
        sc.0
    }
}

/// The number of whitespace-separated words of `s`.
pub fn word_count(s: &str) -> (r: usize)
    ensures
        r == words(s@).len(),
{
    let v = chars_of(s);
    let n = v.len();
    let mut done: usize = 0;
    let mut in_word = false;
    let mut i: usize = 0;
    assert(v@.take(0) == Seq::<char>::empty());
    while i < n
        invariant
            i <= n == v.len(),
            v@ == s@,
            done + (if in_word { 1int } else { 0int }) <= i,
            done == word_scan(v@.take(i as int)).0.len(),
            in_word == (word_scan(v@.take(i as int)).1.len() > 0),
        decreases n - i,
    {
        assert(v@.take(i + 1).drop_last() == v@.take(i as int));
        if is_whitespace(v[i]) {
            if in_word {
                done = done + 1;
            }
            in_word = false;
        } else {
            in_word = true;
        }
        i = i + 1;
    }
    assert(v@.take(n as int) == v@);
    if in_word {
        done + 1
    } else {
        done
    }
}

/// The words of `s` joined by single spaces (what
/// `s.split_whitespace().collect::<Vec<_>>().join(" ")` gives).
pub fn normalize_whitespace(s: &str) -> (r: String)
    ensures
        r@ == join(words(s@), seq![' ']),
{
    let v = chars_of(s);
    let n = v.len();
    let mut out: Vec<char> = Vec::new();
    let mut cur: Vec<char> = Vec::new();
    let mut ndone: usize = 0;
    let mut i: usize = 0;
    assert(v@.take(0) == Seq::<char>::empty());
    while i < n
        invariant
            i <= n == v.len(),
            v@ == s@,
            ndone <= i,
            ndone == word_scan(v@.take(i as int)).0.len(),
            out@ == join(word_scan(v@.take(i as int)).0, seq![' ']),
            cur@ == word_scan(v@.take(i as int)).1,
        decreases n - i,
    {
        assert(v@.take(i + 1).drop_last() == v@.take(i as int));
        let c = v[i];
        if is_whitespace(c) {
            if cur.len() > 0 {
                let ghost done = word_scan(v@.take(i as int)).0;
                if ndone > 0 {
                    out.push(' ');
                }
                let mut k: usize = 0;
                let ghost out0 = out@;
                while k < cur.len()
                    invariant
                        k <= cur.len(),
                        out@ == out0 + cur@.take(k as int),
                    decreases cur.len() - k,
                {
                    out.push(cur[k]);
                    assert(cur@.take(k as int).push(cur@[k as int]) == cur@.take(k + 1));
                    k = k + 1;
                }
                assert(cur@.take(cur.len() as int) == cur@);
                assert(done.push(cur@).drop_last() == done);
                cur = Vec::new();
                ndone = ndone + 1;
            }
        } else {
            cur.push(c);
        }
        i = i + 1;
    }
    assert(v@.take(n as int) == v@);
    if cur.len() > 0 {
        let ghost done = word_scan(v@).0;
        if ndone > 0 {
            out.push(' ');
        }
        let mut k: usize = 0;
        let ghost out0 = out@;
        while k < cur.len()
            invariant
                k <= cur.len(),
                out@ == out0 + cur@.take(k as int),
            decreases cur.len() - k,
        {
            out.push(cur[k]);
            assert(cur@.take(k as int).push(cur@[k as int]) == cur@.take(k + 1));
            k = k + 1;
        }
        assert(cur@.take(cur.len() as int) == cur@);
        assert(done.push(cur@).drop_last() == done);
    }
    string_of(&out)
}


/// Whether `pat` occurs in `s` starting at position `i`.
pub open spec fn occurs_at(s: Seq<char>, i: int, pat: Seq<char>) -> bool {
    0 <= i && i + pat.len() <= s.len() && s.subrange(i, i + pat.len()) == pat
}

/// Whether `needle` occurs anywhere in `hay` (what `str::contains` tests).
pub open spec fn contains_seq(hay: Seq<char>, needle: Seq<char>) -> bool {
    exists|i: int| occurs_at(hay, i, needle)
}

/// Tests whether `pat` occurs in `s` at position `i`.
pub fn matches_at(s: &Vec<char>, i: usize, pat: &Vec<char>) -> (r: bool)
    ensures
        r == occurs_at(s@, i as int, pat@),
{
    if i > s.len() || pat.len() > s.len() - i {
        return false;
    }
    let m = pat.len();
    let mut k: usize = 0;
    while k < m
        invariant
            k <= m == pat.len(),
            i + m <= s.len(),
            forall|t: int| 0 <= t < k ==> s@[i + t] == pat@[t],
        decreases m - k,
    {
        if s[i + k] != pat[k] {
            assert(s@.subrange(i as int, i + m)[k as int] != pat@[k as int]);
            return false;
        }
        k = k + 1;
    }
    assert(s@.subrange(i as int, i + m) == pat@);
    true
}

/// Tests whether `needle` occurs in `hay`.
pub fn contains_chars(hay: &Vec<char>, needle: &Vec<char>) -> (r: bool)
    ensures
        r == contains_seq(hay@, needle@),
{
    if needle.len() > hay.len() {
        return false;
    }
    if needle.len() == 0 {
        assert(hay@.subrange(0, 0) == needle@);
        assert(occurs_at(hay@, 0, needle@));
        return true;
    }
    let last = hay.len() - needle.len();
    let mut i: usize = 0;
    while i <= last
        invariant
            last + needle.len() == hay.len(),
            needle.len() > 0,
            i <= last + 1,
            forall|t: int| 0 <= t < i ==> !occurs_at(hay@, t, needle@),
        decreases last + 1 - i,
    {
        if matches_at(hay, i, needle) {
            return true;
        }
        i = i + 1;
    }
    assert forall|t: int| !occurs_at(hay@, t, needle@) by {
        if 0 <= t && t + needle@.len() <= hay@.len() {
            assert(t <= last);
        }
    }
    false
}

/// Tests whether the string `needle` occurs in the string `hay`.
pub fn str_contains(hay: &str, needle: &str) -> (r: bool)
    ensures
        r == contains_seq(hay@, needle@),
{
    let h = chars_of(hay);
    let n = chars_of(needle);
    contains_chars(&h, &n)
}

/// Every non-overlapping occurrence of `pat`, scanning from the left, replaced
/// by `rep` (what `str::replace` gives for a non-empty pattern).
pub open spec fn replace_all(s: Seq<char>, pat: Seq<char>, rep: Seq<char>) -> Seq<char>
    decreases s.len(),
{
    if pat.len() == 0 || s.len() == 0 {
        s
    } else if pat.len() <= s.len() && s.take(pat.len() as int) == pat {
        rep + replace_all(s.skip(pat.len() as int), pat, rep)
    } else {
        seq![s[0]] + replace_all(s.drop_first(), pat, rep)
    }
}

/// Appends all of `src` to `dst`.
pub fn append_chars(dst: &mut Vec<char>, src: &Vec<char>)
    ensures
        final(dst)@ == old(dst)@ + src@,
{
    let mut k: usize = 0;
    let ghost d0 = dst@;
    while k < src.len()
        invariant
            k <= src.len(),
            dst@ == d0 + src@.take(k as int),
        decreases src.len() - k,
    {
        dst.push(src[k]);
        assert(src@.take(k as int).push(src@[k as int]) == src@.take(k + 1));
        k = k + 1;
    }
    assert(src@.take(src.len() as int) == src@);
}

/// Replaces every occurrence of `pat` in `s` by `rep`, left to right.
pub fn replace_chars(s: &Vec<char>, pat: &Vec<char>, rep: &Vec<char>) -> (r: Vec<char>)
    ensures
        r@ == replace_all(s@, pat@, rep@),
{
    let n = s.len();
    let m = pat.len();
    let mut out: Vec<char> = Vec::new();
    if m == 0 {
        append_chars(&mut out, s);
        return out;
    }
    let mut i: usize = 0;
    assert(s@.skip(0) == s@);
    while i < n
        invariant
            i <= n == s.len(),
            m == pat.len() > 0,
            out@ + replace_all(s@.skip(i as int), pat@, rep@) == replace_all(s@, pat@, rep@),
        decreases n - i,
    {
        let ghost rest = s@.skip(i as int);
        if matches_at(s, i, pat) {
            assert(rest.take(m as int) == s@.subrange(i as int, i + m));
            assert(rest.skip(m as int) == s@.skip(i + m));
            append_chars(&mut out, rep);
            i = i + m;
        } else {
            assert(!(m <= rest.len() && rest.take(m as int) == pat@)) by {
                if m <= rest.len() {
                    assert(rest.take(m as int) == s@.subrange(i as int, i + m));
                }
            }
            assert(rest.drop_first() == s@.skip(i + 1));
            out.push(s[i]);
            i = i + 1;
        }
    }
    assert(s@.skip(n as int) == Seq::<char>::empty());
    out
}

/// Decimal digit character for `d < 10`.
pub open spec fn digit_char(d: nat) -> char {
    if d == 0 { '0' } else if d == 1 { '1' } else if d == 2 { '2' } else if d == 3 { '3' }
    else if d == 4 { '4' } else if d == 5 { '5' } else if d == 6 { '6' } else if d == 7 { '7' }
    else if d == 8 { '8' } else { '9' }
}

/// The decimal representation of `n`, without leading zeros
/// (what `to_string` gives for an unsigned integer).
pub open spec fn decimal(n: nat) -> Seq<char>
    decreases n,
{
    if n < 10 {
        seq![digit_char(n)]
    } else {
        decimal(n / 10).push(digit_char(n % 10))
    }
}

fn digit(d: u64) -> (c: char)
    requires
        d < 10,
    ensures
        c == digit_char(d as nat),
{
    if d == 0 { '0' } else if d == 1 { '1' } else if d == 2 { '2' } else if d == 3 { '3' }
    else if d == 4 { '4' } else if d == 5 { '5' } else if d == 6 { '6' } else if d == 7 { '7' }
    else if d == 8 { '8' } else { '9' }
}

/// Appends the decimal representation of `n` to `out`.
pub fn push_decimal(out: &mut Vec<char>, n: u64)
    ensures
        final(out)@ == old(out)@ + decimal(n as nat),
    decreases n,
{
    if n < 10 {
        out.push(digit(n));
    } else {
        push_decimal(out, n / 10);
        out.push(digit(n % 10));
    }
}

/// The decimal representation of `n`.
pub fn decimal_string(n: u64) -> (r: String)
    ensures
        r@ == decimal(n as nat),
{
    let mut v: Vec<char> = Vec::new();
    push_decimal(&mut v, n);
    string_of(&v)
}

/// Appends the characters of `s` to `out`.
pub fn push_str(out: &mut Vec<char>, s: &str)
    ensures
        final(out)@ == old(out)@ + s@,
{
    let v = chars_of(s);
    append_chars(out, &v);
}


/// The character sequences held by a sequence of character vectors.
pub open spec fn views(v: Seq<Vec<char>>) -> Seq<Seq<char>> {
    v.map_values(|x: Vec<char>| x@)
}

} // verus!
