use vstd::prelude::*;

use crate::block::{block_width, lemma_max_width, lemma_padded_width, max_width, pad_line, padded};
use crate::text::{lines_view, repeat_char};
use crate::width::line_width;

verus! {

/// The spaces between the art column and the info column.
pub open spec fn gap() -> Seq<char> {
    "  "@
}

/// The `i`th line of a column, or an empty line past its end.
pub open spec fn line_or_empty(lines: Seq<Seq<char>>, i: int) -> Seq<char> {
    if 0 <= i < lines.len() {
        lines[i]
    } else {
        seq![]
    }
}

/// The width of the art column: the widest art line and one column of margin.
pub open spec fn art_column_width(art: Seq<Seq<char>>) -> nat {
    max_width(art) + 1
}

/// The art column over `rows` rows: each art line padded to the column
/// width, and blank cells of that width below the art.
pub open spec fn art_cells_spec(art: Seq<Seq<char>>, rows: nat) -> Seq<Seq<char>> {
    Seq::new(rows, |i: int| padded(line_or_empty(art, i), art_column_width(art)))
}

/// Rows joined side by side: a leading space, the art cell, the gap, the info line.
pub open spec fn joined(cells: Seq<Seq<char>>, info: Seq<Seq<char>>) -> Seq<Seq<char>> {
    let rows = if cells.len() >= info.len() {
        cells.len()
    } else {
        info.len()
    };
    Seq::new(rows, |i: int| " "@ + line_or_empty(cells, i) + gap() + line_or_empty(info, i))
}

/// The two-column layout of an art block beside the info lines, as tall as
/// the taller of the two.
pub open spec fn layout(art: Seq<Seq<char>>, info: Seq<Seq<char>>) -> Seq<Seq<char>> {
    let rows = if art.len() >= info.len() {
        art.len()
    } else {
        info.len()
    };
    joined(art_cells_spec(art, rows), info)
}

/// Info lines alone, each after one column of margin.
pub open spec fn indented(info: Seq<Seq<char>>) -> Seq<Seq<char>> {
    info.map_values(|l: Seq<char>| " "@ + l)
}

/// A string holding the characters of a line of the column, or an empty one.
fn line_at(lines: &Vec<String>, i: usize) -> (r: &str)
    ensures
        r@ == line_or_empty(lines_view(lines@), i as int),
{
    if i < lines.len() {
        lines[i].as_str()
    } else {
        proof {
            reveal_strlit("");
        }
        ""
    }
}

/// The art column, `rows` rows tall: every cell as wide as the widest art line
/// plus one.
pub fn art_cells(art: &Vec<String>, rows: usize) -> (r: Vec<String>)
    ensures
        lines_view(r@) == art_cells_spec(lines_view(art@), rows as nat),
{
    let ghost a = lines_view(art@);
    let m = block_width(art);
    let w = m + 1;
    let mut r: Vec<String> = Vec::new();
    let mut i: usize = 0;
    while i < rows
        invariant
            a == lines_view(art@),
            w == art_column_width(a),
            i <= rows,
            r@.len() == i,
            forall|j: int| 0 <= j < i ==> (#[trigger] r@[j])@ == padded(line_or_empty(a, j), w as nat),
        decreases rows - i,
    {
        let line = line_at(art, i);
        let p = pad_line(line, w);
        r.push(p);
        i = i + 1;
    }
    assert(lines_view(r@) =~= art_cells_spec(a, rows as nat));
    r
}

fn join_row(cell: &str, info: &str) -> (r: String)
    ensures
        r@ == " "@ + cell@ + gap() + info@,
{
    let mut r = String::from_str(" ");
    r.append(cell);
    r.append("  ");
    r.append(info);
    r
}

/// The cells and info lines side by side, as many rows as the longer of the two.
pub fn join_columns(cells: &Vec<String>, info: &Vec<String>) -> (r: Vec<String>)
    ensures
        lines_view(r@) == joined(lines_view(cells@), lines_view(info@)),
{
    let rows = if cells.len() >= info.len() {
        cells.len()
    } else {
        info.len()
    };
    let mut r: Vec<String> = Vec::new();
    let mut i: usize = 0;
    while i < rows
        invariant
            i <= rows,
            rows == (if cells.len() >= info.len() {
                cells.len()
            } else {
                info.len()
            }),
            r@.len() == i,
            forall|j: int|
                0 <= j < i ==> (#[trigger] r@[j])@ == " "@ + line_or_empty(lines_view(cells@), j)
                    + gap() + line_or_empty(lines_view(info@), j),
        decreases rows - i,
    {
        let row = join_row(line_at(cells, i), line_at(info, i));
        r.push(row);
        i = i + 1;
    }
    assert(lines_view(r@) =~= joined(lines_view(cells@), lines_view(info@)));
    r
}

/// The info lines alone, each after one column of margin.
pub fn indent_lines(info: &Vec<String>) -> (r: Vec<String>)
    ensures
        lines_view(r@) == indented(lines_view(info@)),
{
    let mut r: Vec<String> = Vec::new();
    let mut i: usize = 0;
    while i < info.len()
        invariant
            i <= info.len(),
            r@.len() == i,
            forall|j: int| 0 <= j < i ==> (#[trigger] r@[j])@ == " "@ + info@[j]@,
        decreases info.len() - i,
    {
        let mut l = String::from_str(" ");
        l.append(info[i].as_str());
        r.push(l);
        i = i + 1;
    }
    assert(lines_view(r@) =~= indented(lines_view(info@)));
    r
}

/// Lays plain art lines beside the info lines.
pub fn compose(art: &Vec<String>, info: &Vec<String>) -> (r: Vec<String>)
    ensures
        lines_view(r@) == layout(lines_view(art@), lines_view(info@)),
{
    let rows = if art.len() >= info.len() {
        art.len()
    } else {
        info.len()
    };
    let cells = art_cells(art, rows);
    join_columns(&cells, info)
}

/// Side by side, the output is as tall as the taller column; every art cell
/// is as wide as the art column, and the cells below a shorter art block are
/// blank.
pub proof fn lemma_layout_shape(art: Seq<Seq<char>>, info: Seq<Seq<char>>)
    ensures
        layout(art, info).len() == (if art.len() >= info.len() {
            art.len()
        } else {
            info.len()
        }),
        forall|i: int|
            0 <= i < layout(art, info).len() ==> #[trigger] layout(art, info)[i] == " "@
                + art_cells_spec(art, layout(art, info).len())[i] + gap() + line_or_empty(info, i),
        forall|i: int|
            0 <= i < layout(art, info).len() ==> line_width(
                #[trigger] art_cells_spec(art, layout(art, info).len())[i],
            ) == art_column_width(art),
        forall|i: int|
            art.len() <= i < layout(art, info).len() ==> #[trigger] art_cells_spec(
                art,
                layout(art, info).len(),
            )[i] == repeat_char(' ', art_column_width(art)),
{
    let n = layout(art, info).len();
    let cells = art_cells_spec(art, n);
    lemma_max_width(art);
    assert forall|i: int| 0 <= i < n implies line_width(#[trigger] cells[i]) == art_column_width(
        art,
    ) by {
        lemma_padded_width(line_or_empty(art, i), art_column_width(art));
        if i < art.len() {
            assert(line_width(art[i]) <= max_width(art));
        } else {
            assert(line_width(line_or_empty(art, i)) == 0);
        }
    }
    assert forall|i: int| art.len() <= i < n implies #[trigger] cells[i] == repeat_char(
        ' ',
        art_column_width(art),
    ) by {
        assert(line_or_empty(art, i) == Seq::<char>::empty());
        assert(line_width(Seq::<char>::empty()) == 0);
        assert(Seq::<char>::empty() + repeat_char(' ', art_column_width(art)) =~= repeat_char(
            ' ',
            art_column_width(art),
        ));
    }
}

} // verus!
