use vstd::prelude::*;

use crate::text::{lines_view, push_char, push_repeated, repeat_char};
use crate::width::{char_width, lemma_width_concat, line_width, line_width_of};

verus! {

/// A line as wide as `target`, filled on the right with spaces; a line already
/// that wide or wider is left as it is.
pub open spec fn padded(s: Seq<char>, target: nat) -> Seq<char> {
    if line_width(s) < target {
        s + repeat_char(' ', (target - line_width(s)) as nat)
    } else {
        s
    }
}

/// The widest line of a block, 0 for an empty block.
pub open spec fn max_width(b: Seq<Seq<char>>) -> nat
    decreases b.len(),
{
    if b.len() == 0 {
        0
    } else {
        let m = max_width(b.drop_last());
        let w = line_width(b.last());
        if w > m {
            w
        } else {
            m
        }
    }
}

/// Every line of the block padded to the width of its widest line.
pub open spec fn normalized(b: Seq<Seq<char>>) -> Seq<Seq<char>> {
    b.map_values(|l: Seq<char>| padded(l, max_width(b)))
}

/// Padding a line no wider than the target makes it exactly that wide;
/// a line at least that wide is left alone.
pub proof fn lemma_padded_width(s: Seq<char>, target: nat)
    ensures
        line_width(s) <= target ==> line_width(padded(s, target)) == target,
        line_width(s) >= target ==> padded(s, target) == s,
{
    if line_width(s) < target {
        let n = (target - line_width(s)) as nat;
        lemma_width_concat(s, repeat_char(' ', n));
        lemma_spaces_width(n);
    }
}

proof fn lemma_spaces_width(n: nat)
    ensures
        line_width(repeat_char(' ', n)) == n,
    decreases n,
{
    if n > 0 {
        assert(repeat_char(' ', n).drop_last() == repeat_char(' ', (n - 1) as nat));
        lemma_spaces_width((n - 1) as nat);
    }
}

/// The widest line is as wide as every line, and is one of them.
pub proof fn lemma_max_width(b: Seq<Seq<char>>)
    ensures
        forall|i: int| 0 <= i < b.len() ==> line_width(#[trigger] b[i]) <= max_width(b),
        b.len() > 0 ==> exists|i: int| 0 <= i < b.len() && line_width(b[i]) == max_width(b),
        b.len() == 0 ==> max_width(b) == 0,
    decreases b.len(),
{
    if b.len() > 0 {
        let t = b.drop_last();
        lemma_max_width(t);
        assert forall|i: int| 0 <= i < b.len() implies line_width(#[trigger] b[i]) <= max_width(
            b,
        ) by {
            if i < b.len() - 1 {
                assert(b[i] == t[i]);
            }
        }
        if line_width(b.last()) <= max_width(t) && t.len() > 0 {
            let j = choose|j: int| 0 <= j < t.len() && line_width(t[j]) == max_width(t);
            assert(b[j] == t[j]);
        } else {
            assert(line_width(b[b.len() - 1]) == max_width(b));
        }
    }
}

/// After normalization every line is as wide as the widest line of the
/// block it came from, and normalizing a second time changes nothing.
pub proof fn lemma_normalize_uniform_and_idempotent(b: Seq<Seq<char>>)
    ensures
        normalized(b).len() == b.len(),
        forall|i: int|
            0 <= i < b.len() ==> line_width(#[trigger] normalized(b)[i]) == max_width(b),
        max_width(normalized(b)) == max_width(b),
        normalized(normalized(b)) == normalized(b),
{
    let m = max_width(b);
    let n = normalized(b);
    lemma_max_width(b);
    assert forall|i: int| 0 <= i < b.len() implies line_width(#[trigger] n[i]) == m by {
        lemma_padded_width(b[i], m);
    }
    lemma_max_width(n);
    if n.len() > 0 {
        let j = choose|j: int| 0 <= j < n.len() && line_width(n[j]) == max_width(n);
    }
    assert forall|i: int| 0 <= i < n.len() implies #[trigger] normalized(n)[i] == n[i] by {
        lemma_padded_width(n[i], m);
    }
    assert(normalized(n) =~= n);
}

/// The width a block is fitted to: the configured width is a floor, never a cap.
pub open spec fn effective_width_spec(configured: nat, b: Seq<Seq<char>>) -> nat {
    if configured >= max_width(b) {
        configured
    } else {
        max_width(b)
    }
}

/// Pads `line` with spaces on the right until it is `target` columns wide.
pub fn pad_to_width(line: &str, target: usize) -> (r: String)
    ensures
        r@ == padded(line@, target as nat),
        line_width(line@) <= target ==> line_width(r@) == target,
{
    pad_line(line, target as u128)
}

pub(crate) fn pad_line(line: &str, target: u128) -> (r: String)
    ensures
        r@ == padded(line@, target as nat),
        line_width(line@) <= target ==> line_width(r@) == target,
{
    proof {
        lemma_padded_width(line@, target as nat);
    }
    let w = line_width_of(line);
    let mut r = String::from_str(line);
    if w < target {
        push_repeated(&mut r, ' ', target - w);
    }
    r
}

/// The longest prefix of `line` that is at most `target` columns wide: code
/// points are taken from the left until the next one would not fit.
pub fn truncate_to_width(line: &str, target: usize) -> (r: String)
    ensures
        r@.len() <= line@.len(),
        r@ == line@.subrange(0, r@.len() as int),
        line_width(r@) <= target,
        r@.len() < line@.len() ==> line_width(line@.subrange(0, (r@.len() + 1) as int)) > target,
        line_width(line@) <= target ==> r@ == line@,
{
    truncate_line(line, target as u128)
}

fn truncate_line(line: &str, target: u128) -> (r: String)
    ensures
        r@.len() <= line@.len(),
        r@ == line@.subrange(0, r@.len() as int),
        line_width(r@) <= target,
        r@.len() < line@.len() ==> line_width(line@.subrange(0, (r@.len() + 1) as int)) > target,
        line_width(line@) <= target ==> r@ == line@,
{
    let mut r = String::new();
    let mut w: u128 = 0;
    let mut done = false;
    for c in it: line.chars()
        invariant
            it.seq() == line@,
            r@.len() <= it.index(),
            r@ == line@.subrange(0, r@.len() as int),
            w == line_width(r@),
            w <= target,
            !done ==> r@.len() == it.index(),
            done ==> r@.len() < line@.len() && line_width(line@.subrange(0, (r@.len() + 1) as int))
                > target,
    {
        if !done {
            let cw = char_width(c) as u128;
            proof {
                assert(line@.subrange(0, (r@.len() + 1) as int) == r@.push(c));
                assert(r@.push(c).drop_last() == r@);
            }
            if cw > target - w {
                done = true;
            } else {
                push_char(&mut r, c);
                w = w + cw;
            }
        }
    }
    proof {
        if r@.len() < line@.len() {
            lemma_prefix_width(line@, (r@.len() + 1) as int);
        } else {
            assert(r@ == line@);
        }
    }
    r
}

/// The width of the widest line of the block.
pub fn block_width(block: &Vec<String>) -> (m: u128)
    ensures
        m == max_width(lines_view(block@)),
        m <= 2 * (usize::MAX as int),
{
    let ghost b = lines_view(block@);
    let mut m: u128 = 0;
    let mut i: usize = 0;
    while i < block.len()
        invariant
            b == lines_view(block@),
            i <= block.len(),
            m == max_width(b.subrange(0, i as int)),
            m <= 2 * (usize::MAX as int),
        decreases block.len() - i,
    {
        let w = line_width_of(block[i].as_str());
        assert(b.subrange(0, i + 1).drop_last() == b.subrange(0, i as int));
        if w > m {
            m = w;
        }
        i = i + 1;
    }
    assert(b.subrange(0, block.len() as int) == b);
    m
}

/// Pads every line of the block to the width of its widest line.
pub fn normalize(block: &Vec<String>) -> (r: Vec<String>)
    ensures
        lines_view(r@) == normalized(lines_view(block@)),
{
    let ghost b = lines_view(block@);
    let m = block_width(block);
    let mut r: Vec<String> = Vec::new();
    let mut i: usize = 0;
    while i < block.len()
        invariant
            b == lines_view(block@),
            m == max_width(b),
            i <= block.len(),
            r@.len() == i,
            forall|j: int| 0 <= j < i ==> (#[trigger] r@[j])@ == padded(b[j], m as nat),
        decreases block.len() - i,
    {
        let p = pad_line(block[i].as_str(), m);
        r.push(p);
        i = i + 1;
    }
    assert(lines_view(r@) =~= normalized(b));
    r
}

/// The larger of the configured width and the width of the widest line.
pub fn effective_width(configured_width: usize, block: &Vec<String>) -> (w: u128)
    ensures
        w == effective_width_spec(configured_width as nat, lines_view(block@)),
{
    let m = block_width(block);
    if configured_width as u128 >= m {
        configured_width as u128
    } else {
        m
    }
}

/// Lines read from an art file, fitted to the effective width: narrower lines
/// are padded, and a line that reaches the width is cut to what fits in it.
pub fn fit_to_width(lines: &Vec<String>, configured_width: usize) -> (r: Vec<String>)
    ensures
        lines_view(r@) == lines_view(lines@).map_values(
            |l: Seq<char>| padded(l, effective_width_spec(configured_width as nat, lines_view(lines@))),
        ),
{
    let ghost b = lines_view(lines@);
    let eff = effective_width(configured_width, lines);
    proof {
        lemma_max_width(b);
    }
    let mut r: Vec<String> = Vec::new();
    let mut i: usize = 0;
    while i < lines.len()
        invariant
            b == lines_view(lines@),
            eff == effective_width_spec(configured_width as nat, b),
            forall|j: int| 0 <= j < b.len() ==> line_width(#[trigger] b[j]) <= max_width(b),
            i <= lines.len(),
            r@.len() == i,
            forall|j: int| 0 <= j < i ==> (#[trigger] r@[j])@ == padded(b[j], eff as nat),
        decreases lines.len() - i,
    {
        assert(line_width(b[i as int]) <= max_width(b));
        let w = line_width_of(lines[i].as_str());
        if w < eff {
            let p = pad_line(lines[i].as_str(), eff);
            r.push(p);
        } else {
            let t = truncate_line(lines[i].as_str(), eff);
            proof {
                lemma_padded_width(b[i as int], eff as nat);
            }
            r.push(t);
        }
        i = i + 1;
    }
    assert(lines_view(r@) =~= b.map_values(|l: Seq<char>| padded(l, eff as nat)));
    r
}

/// A prefix is never wider than the whole line.
pub proof fn lemma_prefix_width(s: Seq<char>, k: int)
    requires
        0 <= k <= s.len(),
    ensures
        line_width(s.subrange(0, k)) <= line_width(s),
{
    assert(s == s.subrange(0, k) + s.subrange(k, s.len() as int));
    lemma_width_concat(s.subrange(0, k), s.subrange(k, s.len() as int));
}

} // verus!
