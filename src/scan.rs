use vstd::prelude::*;

use crate::text::{chars_of, lines_view, push_char, string_from_range};

verus! {

/// Unicode white space, as `char::is_whitespace` decides it.
pub open spec fn is_space(c: char) -> bool {
    ('\t' <= c <= '\r') || c == ' ' || c == '\u{85}' || c == '\u{A0}' || c == '\u{1680}' || (
    '\u{2000}' <= c <= '\u{200A}') || c == '\u{2028}' || c == '\u{2029}' || c == '\u{202F}' || c
        == '\u{205F}' || c == '\u{3000}'
}

/// ASCII white space, as `char::is_ascii_whitespace` decides it.
pub open spec fn is_ascii_space(c: char) -> bool {
    c == ' ' || c == '\t' || c == '\n' || c == '\u{C}' || c == '\r'
}

/// A word separator: any white space, or ASCII white space only.
pub open spec fn is_separator(c: char, ascii_only: bool) -> bool {
    if ascii_only {
        is_ascii_space(c)
    } else {
        is_space(c)
    }
}

/// Whether `c` is white space.
pub fn space(c: char) -> (r: bool)
    ensures
        r == is_space(c),
{
    ('\t' <= c && c <= '\r') || c == ' ' || c == '\u{85}' || c == '\u{A0}' || c == '\u{1680}' || (
    '\u{2000}' <= c && c <= '\u{200A}') || c == '\u{2028}' || c == '\u{2029}' || c == '\u{202F}'
        || c == '\u{205F}' || c == '\u{3000}'
}

fn separator(c: char, ascii_only: bool) -> (r: bool)
    ensures
        r == is_separator(c, ascii_only),
{
    if ascii_only {
        c == ' ' || c == '\t' || c == '\n' || c == '\u{C}' || c == '\r'
    } else {
        space(c)
    }
}

/// The words of a text: its maximal runs of characters that are not
/// separators, as `split_whitespace` (or `split_ascii_whitespace`) gives
/// them. `cur` is the part of the current word seen so far.
pub open spec fn words_from(s: Seq<char>, cur: Seq<char>, ascii_only: bool) -> Seq<Seq<char>>
    decreases s.len(),
{
    if s.len() == 0 {
        if cur.len() == 0 {
            seq![]
        } else {
            seq![cur]
        }
    } else if is_separator(s[0], ascii_only) {
        (if cur.len() == 0 {
            seq![]
        } else {
            seq![cur]
        }) + words_from(s.drop_first(), seq![], ascii_only)
    } else {
        words_from(s.drop_first(), cur.push(s[0]), ascii_only)
    }
}

/// The words of a text, split at any white space.
pub open spec fn words(s: Seq<char>) -> Seq<Seq<char>> {
    words_from(s, seq![], false)
}

/// The words of a text, split at ASCII white space.
pub open spec fn ascii_words(s: Seq<char>) -> Seq<Seq<char>> {
    words_from(s, seq![], true)
}

/// Splits a text into its words.
pub fn split_words(s: &str, ascii_only: bool) -> (r: Vec<String>)
    ensures
        lines_view(r@) == words_from(s@, seq![], ascii_only),
{
    let v = chars_of(s);
    let mut r: Vec<String> = Vec::new();
    let mut cur: Vec<char> = Vec::new();
    let mut i: usize = 0;
    assert(v@.subrange(0, v@.len() as int) == v@);
    assert(lines_view(r@) =~= Seq::<Seq<char>>::empty());
    while i < v.len()
        invariant
            v@ == s@,
            i <= v.len(),
            lines_view(r@) + words_from(v@.subrange(i as int, v@.len() as int), cur@, ascii_only)
                == words_from(s@, seq![], ascii_only),
        decreases v.len() - i,
    {
        let ghost rest = v@.subrange(i as int, v@.len() as int);
        assert(rest[0] == v@[i as int]);
        assert(rest.drop_first() == v@.subrange(i + 1, v@.len() as int));
        let ghost before = r@;
        if separator(v[i], ascii_only) {
            if cur.len() > 0 {
                let n = cur.len();
                let w = string_from_range(&cur, 0, n);
                assert(cur@.subrange(0, n as int) == cur@);
                r.push(w);
                assert(lines_view(r@) =~= lines_view(before) + seq![w@]);
            } else {
                assert(lines_view(r@) =~= lines_view(before) + Seq::<Seq<char>>::empty());
            }
            cur = Vec::new();
        } else {
            cur.push(v[i]);
        }
        i = i + 1;
    }
    if cur.len() > 0 {
        let ghost before = r@;
        let n = cur.len();
        let w = string_from_range(&cur, 0, n);
        assert(cur@.subrange(0, n as int) == cur@);
        r.push(w);
        assert(lines_view(r@) =~= lines_view(before) + seq![w@]);
    }
    r
}

/// A text without its leading and trailing white space, as `str::trim`
/// gives it.
pub open spec fn trimmed(s: Seq<char>) -> Seq<char>
    decreases s.len(),
{
    if s.len() > 0 && is_space(s[0]) {
        trimmed(s.drop_first())
    } else if s.len() > 0 && is_space(s.last()) {
        trimmed(s.drop_last())
    } else {
        s
    }
}

/// The characters of `v[from..]` without leading and trailing white space.
pub fn trim_from(v: &Vec<char>, from: usize) -> (r: String)
    requires
        from <= v.len(),
    ensures
        r@ == trimmed(v@.subrange(from as int, v@.len() as int)),
{
    let ghost whole = v@.subrange(from as int, v@.len() as int);
    let mut i: usize = from;
    let mut j: usize = v.len();
    while i < j && space(v[i])
        invariant
            from <= i <= j,
            j == v.len(),
            trimmed(v@.subrange(i as int, j as int)) == trimmed(whole),
        decreases j - i,
    {
        assert(v@.subrange(i as int, j as int).drop_first() == v@.subrange(i + 1, j as int));
        i = i + 1;
    }
    while j > i && space(v[j - 1])
        invariant
            from <= i <= j,
            j <= v.len(),
            i < j ==> !is_space(v@[i as int]),
            trimmed(v@.subrange(i as int, j as int)) == trimmed(whole),
        decreases j - i,
    {
        assert(v@.subrange(i as int, j as int).drop_last() == v@.subrange(i as int, j - 1));
        assert(v@.subrange(i as int, j as int)[0] == v@[i as int]);
        j = j - 1;
    }
    proof {
        let t = v@.subrange(i as int, j as int);
        if t.len() > 0 {
            assert(t[0] == v@[i as int]);
            assert(t.last() == v@[j - 1]);
        }
    }
    string_from_range(v, i, j)
}

/// `s` without leading and trailing white space.
pub fn trim(s: &str) -> (r: String)
    ensures
        r@ == trimmed(s@),
{
    let v = chars_of(s);
    assert(v@.subrange(0, v@.len() as int) == v@);
    trim_from(&v, 0)
}

/// Words joined by single spaces.
pub open spec fn joined_words(ws: Seq<Seq<char>>) -> Seq<char>
    decreases ws.len(),
{
    if ws.len() == 0 {
        seq![]
    } else if ws.len() == 1 {
        ws[0]
    } else {
        joined_words(ws.drop_last()) + seq![' '] + ws.last()
    }
}

/// The words joined by single spaces.
pub fn join_words(ws: &Vec<String>) -> (r: String)
    ensures
        r@ == joined_words(lines_view(ws@)),
{
    let ghost w = lines_view(ws@);
    let mut r = String::new();
    let mut i: usize = 0;
    while i < ws.len()
        invariant
            w == lines_view(ws@),
            i <= ws.len(),
            r@ == joined_words(w.subrange(0, i as int)),
        decreases ws.len() - i,
    {
        assert(w.subrange(0, i + 1).drop_last() == w.subrange(0, i as int));
        assert(w.subrange(0, i + 1).last() == ws@[i as int]@);
        if i > 0 {
            push_char(&mut r, ' ');
        } else {
            assert(r@ == Seq::<char>::empty());
        }
        r.append(ws[i].as_str());
        i = i + 1;
    }
    assert(w.subrange(0, ws.len() as int) == w);
    r
}

/// The first position at which `pat` occurs in `s`.
pub open spec fn first_match(s: Seq<char>, pat: Seq<char>) -> Option<nat>
    decreases s.len(),
{
    if pat.is_prefix_of(s) {
        Some(0)
    } else if s.len() == 0 {
        None
    } else {
        match first_match(s.drop_first(), pat) {
            Some(k) => Some(k + 1),
            None => None,
        }
    }
}

fn matches_at(v: &Vec<char>, i: usize, p: &Vec<char>) -> (r: bool)
    requires
        i <= v.len(),
    ensures
        r == p@.is_prefix_of(v@.subrange(i as int, v@.len() as int)),
{
    if p.len() > v.len() - i {
        return false;
    }
    let mut k: usize = 0;
    while k < p.len()
        invariant
            i <= v.len(),
            p.len() <= v.len() - i,
            k <= p.len(),
            forall|j: int| 0 <= j < k ==> p@[j] == v@[i + j],
        decreases p.len() - k,
    {
        if p[k] != v[i + k] {
            return false;
        }
        k = k + 1;
    }
    true
}

/// The first position at or after `from` at which `p` occurs in `v`.
pub fn find_from(v: &Vec<char>, from: usize, p: &Vec<char>) -> (r: Option<usize>)
    requires
        from <= v.len(),
    ensures
        match r {
            Some(k) => first_match(v@.subrange(from as int, v@.len() as int), p@) == Some(
                (k - from) as nat,
            ) && from <= k && k + p@.len() <= v.len(),
            None => first_match(v@.subrange(from as int, v@.len() as int), p@) is None,
        },
{
    let mut i: usize = from;
    while i <= v.len()
        invariant
            from <= i,
            i <= v.len() + 1,
            i <= v.len() ==> first_match(v@.subrange(from as int, v@.len() as int), p@)
                == match first_match(v@.subrange(i as int, v@.len() as int), p@) {
                Some(k) => Some((k + (i - from)) as nat),
                None => None::<nat>,
            },
            i > v.len() ==> first_match(v@.subrange(from as int, v@.len() as int), p@) is None,
        decreases v.len() + 1 - i,
    {
        if matches_at(v, i, p) {
            return Some(i);
        }
        if i == v.len() {
            assert(v@.subrange(i as int, v@.len() as int).len() == 0);
            return None;
        }
        assert(v@.subrange(i as int, v@.len() as int).drop_first() == v@.subrange(
            i + 1,
            v@.len() as int,
        ));
        i = i + 1;
    }
    None
}

} // verus!
