use vstd::prelude::*;

use crate::config::{Config, Theme};
use crate::localization::{
    category_icon, category_label, field_label, icon_of, localize_category, localize_field,
};
use crate::plan::{rows_view, PlanRow, RowView};
use crate::style::{colored_form, colorize, colorize_bold};
use crate::text::{chars_of, push_char, push_repeated, repeat_char};

verus! {

/// Width, in characters, of the dotted label column of a built-in field.
pub const FIELD_LABEL_WIDTH: usize = 14;

/// Width, in characters, of the dotted label column of a custom field.
pub const CUSTOM_LABEL_WIDTH: usize = 16;

/// A run of text with an optional theme color.
#[derive(Debug)]
pub struct Span {
    pub text: String,
    pub color: Option<String>,
    pub bold: bool,
}

/// A span with its strings seen as character sequences.
pub struct SpanView {
    pub text: Seq<char>,
    pub color: Option<Seq<char>>,
    pub bold: bool,
}

impl View for Span {
    type V = SpanView;

    open spec fn view(&self) -> SpanView {
        SpanView {
            text: self.text@,
            color: match self.color {
                Some(c) => Some(c@),
                None => None,
            },
            bold: self.bold,
        }
    }
}

/// The views of a line of spans.
pub open spec fn spans_view(v: Seq<Span>) -> Seq<SpanView> {
    v.map_values(|s: Span| s@)
}

/// The views of a sequence of lines of spans.
pub open spec fn span_lines_view(v: Seq<Vec<Span>>) -> Seq<Seq<SpanView>> {
    v.map_values(|l: Vec<Span>| spans_view(l@))
}

/// A span in a theme color.
pub open spec fn styled(text: Seq<char>, color: Seq<char>, bold: bool) -> SpanView {
    SpanView { text, color: Some(color), bold }
}

/// A span written as it is.
pub open spec fn unstyled(text: Seq<char>) -> SpanView {
    SpanView { text, color: None, bold: false }
}

/// A label followed by a space, then filled with dots up to `width` characters.
pub open spec fn dotted(label: Seq<char>, width: nat) -> Seq<char> {
    let l = label.push(' ');
    if l.len() < width {
        l + repeat_char('.', (width - l.len()) as nat)
    } else {
        l
    }
}

/// The icon before a category header, or nothing when icons are off.
pub open spec fn icon_if(show: bool, icon: Seq<char>) -> Seq<char> {
    if show {
        icon
    } else {
        seq![]
    }
}

/// The line of a field row: an indent, the dotted label and the value.
pub open spec fn field_line(label: Seq<char>, width: nat, value: Seq<char>, theme: Theme) -> Seq<
    SpanView,
> {
    seq![
        unstyled("  "@),
        styled(dotted(label, width), theme.secondary@, false),
        unstyled(" "@),
        styled(value, theme.text@, true),
    ]
}

/// The styled line of one plan row.
pub open spec fn row_spans(row: RowView, config: Config) -> Seq<SpanView> {
    let theme = config.theme;
    match row {
        RowView::Category(c) => seq![
            styled(icon_if(config.show_icons, icon_of(c)), theme.primary@, false),
            styled(category_label(c, config.language), theme.primary@, true),
        ],
        RowView::Field(f, v) => field_line(
            field_label(f, config.language),
            FIELD_LABEL_WIDTH as nat,
            v,
            theme,
        ),
        RowView::CustomHeader => seq![
            styled(icon_if(config.show_icons, "󰆾 "@), theme.primary@, false),
            styled("Custom"@, theme.primary@, true),
        ],
        RowView::Custom(l, v) => field_line(l, CUSTOM_LABEL_WIDTH as nat, v, theme),
        RowView::Blank => seq![],
    }
}

/// The lines above the plan: `user@host`, a rule under it as long as its
/// UTF-8 encoding, and a blank line.
pub open spec fn header_spans(header: Seq<char>, rule_len: nat, theme: Theme) -> Seq<
    Seq<SpanView>,
> {
    seq![
        seq![styled(header, theme.accent@, true)],
        seq![styled(repeat_char('─', rule_len), theme.separator@, false)],
        seq![],
    ]
}

/// Every styled line of the info column.
pub open spec fn info_spans_spec(
    header: Seq<char>,
    rule_len: nat,
    plan: Seq<RowView>,
    config: Config,
) -> Seq<Seq<SpanView>> {
    header_spans(header, rule_len, config.theme) + plan.map_values(
        |r: RowView| row_spans(r, config),
    )
}

fn owned(s: &str) -> (r: String)
    ensures
        r@ == s@,
{
    String::from_str(s)
}

fn span(text: String, color: &String, bold: bool) -> (r: Span)
    ensures
        r@ == styled(text@, color@, bold),
{
    Span { text, color: Some(color.clone()), bold }
}

fn bare(text: &str) -> (r: Span)
    ensures
        r@ == unstyled(text@),
{
    Span { text: owned(text), color: None, bold: false }
}

/// `label`, a space, and dots up to `width` characters.
pub fn dot_label(label: &str, width: usize) -> (r: String)
    ensures
        r@ == dotted(label@, width as nat),
{
    let n = chars_of(label).len();
    let mut r = owned(label);
    push_char(&mut r, ' ');
    if width > 0 && n < width - 1 {
        push_repeated(&mut r, '.', (width - 1 - n) as u128);
    }
    r
}

fn field_spans(label: &str, width: usize, value: &String, theme: &Theme) -> (r: Vec<Span>)
    ensures
        spans_view(r@) == field_line(label@, width as nat, value@, *theme),
{
    let v = vec![
        bare("  "),
        span(dot_label(label, width), &theme.secondary, false),
        bare(" "),
        span(value.clone(), &theme.text, true),
    ];
    assert(spans_view(v@) =~= field_line(label@, width as nat, value@, *theme));
    v
}

fn icon_text(show: bool, icon: &str) -> (r: String)
    ensures
        r@ == icon_if(show, icon@),
{
    if show {
        owned(icon)
    } else {
        String::new()
    }
}

/// The styled line of one plan row.
pub fn row_line(row: &PlanRow, config: &Config) -> (r: Vec<Span>)
    ensures
        spans_view(r@) == row_spans(row@, *config),
{
    let theme = &config.theme;
    match row {
        PlanRow::Category(c) => {
            let v = vec![
                span(icon_text(config.show_icons, category_icon(*c)), &theme.primary, false),
                span(owned(localize_category(*c, config.language)), &theme.primary, true),
            ];
            assert(spans_view(v@) =~= row_spans(row@, *config));
            v
        },
        PlanRow::Field(f, value) => field_spans(
            localize_field(*f, config.language),
            FIELD_LABEL_WIDTH,
            value,
            theme,
        ),
        PlanRow::CustomHeader => {
            let v = vec![
                span(icon_text(config.show_icons, "󰆾 "), &theme.primary, false),
                span(owned("Custom"), &theme.primary, true),
            ];
            assert(spans_view(v@) =~= row_spans(row@, *config));
            v
        },
        PlanRow::Custom(label, value) => field_spans(
            label.as_str(),
            CUSTOM_LABEL_WIDTH,
            value,
            theme,
        ),
        PlanRow::Blank => {
            let v: Vec<Span> = Vec::new();
            assert(spans_view(v@) =~= row_spans(row@, *config));
            v
        },
    }
}

/// The styled lines of the info column: the header, its rule, a blank line,
/// then one line per plan row.
pub fn info_lines(header: &str, plan: &Vec<PlanRow>, config: &Config) -> (r: Vec<Vec<Span>>)
    ensures
        span_lines_view(r@) == info_spans_spec(
            header@,
            header.len() as nat,
            rows_view(plan@),
            *config,
        ),
{
    let theme = &config.theme;
    let mut rule = String::new();
    push_repeated(&mut rule, '─', header.len() as u128);
    let mut r: Vec<Vec<Span>> = vec![
        vec![span(owned(header), &theme.accent, true)],
        vec![span(rule, &theme.separator, false)],
        Vec::new(),
    ];
    let ghost head = header_spans(header@, header.len() as nat, *theme);
    assert(span_lines_view(r@) =~= head) by {
        assert(spans_view(r@[0]@) =~= head[0]);
        assert(spans_view(r@[1]@) =~= head[1]);
        assert(spans_view(r@[2]@) =~= head[2]);
    }
    let mut i: usize = 0;
    while i < plan.len()
        invariant
            i <= plan.len(),
            head == header_spans(header@, header.len() as nat, config.theme),
            span_lines_view(r@) == head + rows_view(plan@).subrange(0, i as int).map_values(
                |x: RowView| row_spans(x, *config),
            ),
        decreases plan.len() - i,
    {
        let l = row_line(&plan[i], config);
        let ghost before = r@;
        r.push(l);
        i = i + 1;
        assert(span_lines_view(r@) =~= head + rows_view(plan@).subrange(0, i as int).map_values(
            |x: RowView| row_spans(x, *config),
        )) by {
            assert(span_lines_view(r@) =~= span_lines_view(before).push(spans_view(l@)));
        }
    }
    assert(rows_view(plan@).subrange(0, plan.len() as int) =~= rows_view(plan@));
    r
}

/// How one span is written: colored when it has a color, as it is otherwise.
pub open spec fn painted_span(s: SpanView, p: Seq<char>) -> bool {
    match s.color {
        Some(_) => colored_form(s.text, p),
        None => p == s.text,
    }
}

/// Pieces written one after another.
pub open spec fn concat(ps: Seq<Seq<char>>) -> Seq<char>
    decreases ps.len(),
{
    if ps.len() == 0 {
        seq![]
    } else {
        concat(ps.drop_last()) + ps.last()
    }
}

/// `pieces` are the spans of a line as written, and `r` is them in order.
pub open spec fn painted_with(spans: Seq<SpanView>, pieces: Seq<Seq<char>>, r: Seq<char>) -> bool {
    &&& pieces.len() == spans.len()
    &&& forall|i: int| 0 <= i < spans.len() ==> painted_span(spans[i], #[trigger] pieces[i])
    &&& r == concat(pieces)
}

/// `r` is a line of spans as written: the texts of the spans in order, each
/// as it is or in its color.
pub open spec fn painted_line(spans: Seq<SpanView>, r: Seq<char>) -> bool {
    exists|pieces: Seq<Seq<char>>| #[trigger] painted_with(spans, pieces, r)
}

/// Writes a line of spans, each colored as its theme color says.
pub fn paint_line(spans: &Vec<Span>) -> (r: String)
    ensures
        painted_line(spans_view(spans@), r@),
{
    let ghost sv = spans_view(spans@);
    let ghost mut pieces: Seq<Seq<char>> = seq![];
    let mut r = String::new();
    let mut i: usize = 0;
    while i < spans.len()
        invariant
            sv == spans_view(spans@),
            i <= spans.len(),
            pieces.len() == i,
            forall|j: int| 0 <= j < i ==> painted_span(sv[j], #[trigger] pieces[j]),
            r@ == concat(pieces),
        decreases spans.len() - i,
    {
        let s = &spans[i];
        assert(sv[i as int] == s@);
        let p = match &s.color {
            Some(c) => {
                if s.bold {
                    colorize_bold(s.text.as_str(), c.as_str())
                } else {
                    colorize(s.text.as_str(), c.as_str())
                }
            },
            None => String::from_str(s.text.as_str()),
        };
        let ghost old_pieces = pieces;
        r.append(p.as_str());
        proof {
            pieces = pieces.push(p@);
            assert(pieces.drop_last() == old_pieces);
            assert forall|j: int| 0 <= j < i + 1 implies painted_span(sv[j], #[trigger] pieces[j]) by {
                if j < i {
                    assert(pieces[j] == old_pieces[j]);
                }
            }
        }
        i = i + 1;
    }
    assert(painted_with(sv, pieces, r@));
    r
}

/// With every category hidden and no custom fields, the info column holds
/// the header lines alone and no field rows.
pub proof fn lemma_hidden_panel_is_header_only(
    config: Config,
    data: crate::facts::SysData,
    outputs: Seq<Option<String>>,
    header: Seq<char>,
    rule_len: nat,
)
    requires
        forall|i: int|
            0 <= i < config.categories@.len() ==> !(#[trigger] config.categories@[i]).enabled,
        config.custom_fields@.len() == 0,
    ensures
        info_spans_spec(header, rule_len, crate::plan::plan_spec(config, data, outputs), config)
            == header_spans(header, rule_len, config.theme),
{
    crate::plan::lemma_hidden_plan_is_empty(config, data, outputs);
    assert(info_spans_spec(header, rule_len, crate::plan::plan_spec(config, data, outputs), config)
        =~= header_spans(header, rule_len, config.theme));
}

} // verus!
