use vstd::prelude::*;

verus! {

/// Display width of one code point: 2 for the wide East Asian blocks, 1 otherwise.
pub open spec fn char_width_spec(c: char) -> nat {
    let code = c as u32;
    if code <= 0x7F {
        1
    } else if (0x1100 <= code <= 0x115F) || (0x2E80 <= code <= 0x2EFF) || (0x3000 <= code <= 0x30FF)
        || (0x4E00 <= code <= 0x9FFF) || (0xAC00 <= code <= 0xD7AF) || (0xF900 <= code <= 0xFAFF)
        || (0xFF00 <= code <= 0xFFEF) {
        2
    } else {
        1
    }
}

/// Display width of a line: the sum of the widths of its code points.
pub open spec fn line_width(s: Seq<char>) -> nat
    decreases s.len(),
{
    if s.len() == 0 {
        0
    } else {
        line_width(s.drop_last()) + char_width_spec(s.last())
    }
}

/// The display width of one code point.
pub fn char_width(c: char) -> (w: usize)
    ensures
        w == char_width_spec(c),
{
    let code = c as u32;
    if code <= 0x7F {
        1
    } else if (0x1100 <= code && code <= 0x115F) || (0x2E80 <= code && code <= 0x2EFF) || (0x3000
        <= code && code <= 0x30FF) || (0x4E00 <= code && code <= 0x9FFF) || (0xAC00 <= code && code
        <= 0xD7AF) || (0xF900 <= code && code <= 0xFAFF) || (0xFF00 <= code && code <= 0xFFEF) {
        2
    } else {
        1
    }
}

/// The display width of `s`, counted without bound on its length.
pub fn line_width_of(s: &str) -> (w: u128)
    ensures
        w == line_width(s@),
        w <= 2 * (usize::MAX as int),
        (forall|i: int| 0 <= i < s@.len() ==> is_printable_ascii(#[trigger] s@[i])) ==> w
            == s@.len(),
{
    proof {
        if forall|i: int| 0 <= i < s@.len() ==> is_printable_ascii(#[trigger] s@[i]) {
            lemma_ascii_width_is_length(s@);
        }
    }
    let v = crate::text::chars_of(s);
    let mut w: u128 = 0;
    let mut i: usize = 0;
    while i < v.len()
        invariant
            v@ == s@,
            i <= v.len(),
            w == line_width(v@.subrange(0, i as int)),
            w <= 2 * i,
        decreases v.len() - i,
    {
        assert(v@.subrange(0, i + 1).drop_last() == v@.subrange(0, i as int));
        w = w + char_width(v[i]) as u128;
        i = i + 1;
    }
    assert(v@.subrange(0, v.len() as int) == v@);
    w
}

/// The display width of a line, in terminal columns.
pub fn unicode_str_width(s: &str) -> (w: usize)
    requires
        s@.len() <= usize::MAX / 2,
    ensures
        w == line_width(s@),
        (forall|i: int| 0 <= i < s@.len() ==> is_printable_ascii(#[trigger] s@[i])) ==> w
            == s@.len(),
{
    proof {
        if forall|i: int| 0 <= i < s@.len() ==> is_printable_ascii(#[trigger] s@[i]) {
            lemma_ascii_width_is_length(s@);
        }
    }
    let mut w: usize = 0;
    let mut n: usize = 0;
    for c in it: s.chars()
        invariant
            s@.len() <= usize::MAX / 2,
            n == it.index(),
            it.seq() == s@,
            w == line_width(s@.subrange(0, n as int)),
            w <= 2 * n,
    {
        assert(s@.subrange(0, n + 1).drop_last() == s@.subrange(0, n as int));
        w = w + char_width(c);
        n = n + 1;
    }
    assert(s@.subrange(0, n as int) == s@);
    w
}

} // verus!

verus! {

/// The width of a concatenation is the sum of the widths.
pub proof fn lemma_width_concat(a: Seq<char>, b: Seq<char>)
    ensures
        line_width(a + b) == line_width(a) + line_width(b),
    decreases b.len(),
{
    if b.len() == 0 {
        assert(a + b == a);
    } else {
        assert((a + b).drop_last() == a + b.drop_last());
        lemma_width_concat(a, b.drop_last());
    }
}

/// A printable ASCII character is one of ' ' through '~'.
pub open spec fn is_printable_ascii(c: char) -> bool {
    ' ' <= c <= '~'
}

/// A line of printable ASCII characters is as wide as it is long.
pub proof fn lemma_ascii_width_is_length(s: Seq<char>)
    requires
        forall|i: int| 0 <= i < s.len() ==> is_printable_ascii(#[trigger] s[i]),
    ensures
        line_width(s) == s.len(),
    decreases s.len(),
{
    if s.len() > 0 {
        let t = s.drop_last();
        assert forall|i: int| 0 <= i < t.len() implies is_printable_ascii(#[trigger] t[i]) by {
            assert(t[i] == s[i]);
        }
        lemma_ascii_width_is_length(t);
        assert(is_printable_ascii(s[s.len() - 1]));
    }
}

} // verus!
