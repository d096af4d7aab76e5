use vstd::prelude::*;

use crate::art::{load_ascii_art, loaded_art, opt_text};
use crate::compose::{art_cells, art_cells_spec, indent_lines, indented, join_columns, joined};
use crate::config::Config;
use crate::facts::SysData;
use crate::lines::{
    header_spans, info_lines, info_spans_spec, paint_line, painted_line, span_lines_view, Span,
    SpanView,
};
use crate::plan::{build_plan, plan_spec};
use crate::style::{colored_form, colorize_bold};
use crate::text::lines_view;

verus! {

/// The number of panel rows: the info lines alone without a logo, the
/// taller of the two columns with one.
pub open spec fn panel_height(art_rows: nat, info_rows: nat) -> nat {
    if art_rows == 0 {
        info_rows
    } else if art_rows >= info_rows {
        art_rows
    } else {
        info_rows
    }
}

/// `out` is the panel as printed from `art` and the styled info lines, where
/// `info` are those lines as written and `cells` the art cells as written: a
/// blank line, then the info lines each after one column of margin (no
/// logo) or the colored art cells beside them, then a blank line.
pub open spec fn rendered_from(
    art: Seq<Seq<char>>,
    styled: Seq<Seq<SpanView>>,
    info: Seq<Seq<char>>,
    cells: Seq<Seq<char>>,
    out: Seq<Seq<char>>,
) -> bool {
    &&& info.len() == styled.len()
    &&& forall|i: int| 0 <= i < info.len() ==> painted_line(styled[i], #[trigger] info[i])
    &&& if art.len() == 0 {
        out == seq![Seq::<char>::empty()] + indented(info) + seq![Seq::<char>::empty()]
    } else {
        let n = if art.len() >= info.len() {
            art.len()
        } else {
            info.len()
        };
        &&& cells.len() == n
        &&& forall|i: int|
            0 <= i < n ==> colored_form(art_cells_spec(art, n)[i], #[trigger] cells[i])
        &&& out == seq![Seq::<char>::empty()] + joined(cells, info) + seq![Seq::<char>::empty()]
    }
}

/// `out` is the panel as printed from `art` and the styled info lines, for
/// some way the terminal colors come out.
pub open spec fn rendered(art: Seq<Seq<char>>, styled: Seq<Seq<SpanView>>, out: Seq<Seq<char>>) -> bool {
    exists|info: Seq<Seq<char>>, cells: Seq<Seq<char>>|
        #[trigger] rendered_from(art, styled, info, cells, out)
}

/// Draws the panel: the logo on the left, the information on the right.
pub struct Renderer<'a> {
    config: &'a Config,
    data: &'a SysData,
    ascii_lines: Vec<String>,
}

impl<'a> Renderer<'a> {
    /// The logo lines this renderer draws.
    pub closed spec fn art(&self) -> Seq<Seq<char>> {
        lines_view(self.ascii_lines@)
    }

    /// The configuration this renderer draws.
    pub closed spec fn config(&self) -> Config {
        *self.config
    }

    /// The facts this renderer draws.
    pub closed spec fn data(&self) -> SysData {
        *self.data
    }

    /// A renderer for `config` and `data`. `art_file` is the contents of the
    /// configured art file, if it could be read; `os_release` that of the
    /// os-release file.
    pub fn new(
        config: &'a Config,
        data: &'a SysData,
        art_file: Option<&str>,
        os_release: Option<&str>,
    ) -> (r: Self)
        ensures
            r.config() == *config,
            r.data() == *data,
            r.art() == loaded_art(config.ascii, opt_text(art_file), opt_text(os_release)),
    {
        let ascii_lines = load_ascii_art(&config.ascii, art_file, os_release);
        Renderer { config, data, ascii_lines }
    }

    /// The styled lines of the info column. `header` is `user@host`;
    /// `custom_outputs[i]` is what the `i`th custom command wrote.
    pub fn styled_info(&self, header: &str, custom_outputs: &Vec<Option<String>>) -> (r: Vec<
        Vec<Span>,
    >)
        ensures
            span_lines_view(r@) == info_spans_spec(
                header@,
                header.len() as nat,
                plan_spec(self.config(), self.data(), custom_outputs@),
                self.config(),
            ),
    {
        let plan = build_plan(self.config, self.data, custom_outputs);
        info_lines(header, &plan, self.config)
    }

    /// The styled lines of the info column for a header and the custom
    /// commands' outputs.
    pub open spec fn info_styled(
        &self,
        header: Seq<char>,
        rule_len: nat,
        outputs: Seq<Option<String>>,
    ) -> Seq<Seq<SpanView>> {
        info_spans_spec(
            header,
            rule_len,
            plan_spec(self.config(), self.data(), outputs),
            self.config(),
        )
    }

    /// The info column, colored: each styled line as written.
    pub fn build_info_lines(&self, header: &str, custom_outputs: &Vec<Option<String>>) -> (r: Vec<
        String,
    >)
        ensures
            r@.len() == 3 + plan_spec(self.config(), self.data(), custom_outputs@).len(),
            r@.len() == self.info_styled(header@, header.len() as nat, custom_outputs@).len(),
            forall|i: int|
                0 <= i < r@.len() ==> painted_line(
                    self.info_styled(header@, header.len() as nat, custom_outputs@)[i],
                    #[trigger] r@[i]@,
                ),
    {
        let styled = self.styled_info(header, custom_outputs);
        let ghost sv = span_lines_view(styled@);
        assert(sv.len() == styled@.len());
        let mut r: Vec<String> = Vec::new();
        let mut i: usize = 0;
        while i < styled.len()
            invariant
                sv == span_lines_view(styled@),
                i <= styled.len(),
                r@.len() == i,
                forall|j: int| 0 <= j < i ==> painted_line(sv[j], #[trigger] r@[j]@),
            decreases styled.len() - i,
        {
            let line = paint_line(&styled[i]);
            r.push(line);
            i = i + 1;
        }
        r
    }

    /// The lines to print: a blank line, the panel, a blank line. Without a
    /// logo each info line follows one column of margin; with one, the logo
    /// column stands beside the info column and the panel is as tall as the
    /// taller of the two.
    pub fn render(&self, header: &str, custom_outputs: &Vec<Option<String>>) -> (r: Vec<String>)
        ensures
            rendered(
                self.art(),
                self.info_styled(header@, header.len() as nat, custom_outputs@),
                lines_view(r@),
            ),
            r@.len() == 2 + panel_height(
                self.art().len(),
                3 + plan_spec(self.config(), self.data(), custom_outputs@).len(),
            ),
            r@[0]@.len() == 0,
            r@[r@.len() - 1]@.len() == 0,
    {
        let ghost styled = self.info_styled(header@, header.len() as nat, custom_outputs@);
        let info = self.build_info_lines(header, custom_outputs);
        let ghost info_v = lines_view(info@);
        let ghost art = lines_view(self.ascii_lines@);
        assert(info_v.len() == info@.len());
        assert(art.len() == self.ascii_lines@.len());
        let ghost mut cells_v: Seq<Seq<char>> = seq![];
        let body = if self.ascii_lines.len() == 0 {
            indent_lines(&info)
        } else {
            let rows = if self.ascii_lines.len() >= info.len() {
                self.ascii_lines.len()
            } else {
                info.len()
            };
            let cells = art_cells(&self.ascii_lines, rows);
            assert(lines_view(cells@).len() == cells@.len());
            let mut painted: Vec<String> = Vec::new();
            let mut i: usize = 0;
            while i < cells.len()
                invariant
                    i <= cells.len(),
                    painted@.len() == i,
                    forall|j: int|
                        0 <= j < i ==> colored_form(
                            lines_view(cells@)[j],
                            #[trigger] painted@[j]@,
                        ),
                decreases cells.len() - i,
            {
                let p = colorize_bold(cells[i].as_str(), self.config.ascii.color.as_str());
                painted.push(p);
                i = i + 1;
            }
            proof {
                cells_v = lines_view(painted@);
                assert forall|j: int| 0 <= j < rows implies colored_form(
                    art_cells_spec(art, rows as nat)[j],
                    #[trigger] cells_v[j],
                ) by {
                    assert(cells_v[j] == painted@[j]@);
                }
            }
            join_columns(&painted, &info)
        };
        assert(lines_view(body@).len() == body@.len());
        let mut r: Vec<String> = Vec::new();
        r.push(String::new());
        let mut i: usize = 0;
        while i < body.len()
            invariant
                i <= body.len(),
                lines_view(r@) == seq![Seq::<char>::empty()] + lines_view(body@).subrange(
                    0,
                    i as int,
                ),
            decreases body.len() - i,
        {
            let ghost before = r@;
            let line = body[i].clone();
            r.push(line);
            i = i + 1;
            assert(lines_view(r@) =~= seq![Seq::<char>::empty()] + lines_view(body@).subrange(
                0,
                i as int,
            )) by {
                assert(lines_view(r@) =~= lines_view(before).push(line@));
            }
        }
        let ghost before = r@;
        r.push(String::new());
        assert(lines_view(r@) =~= seq![Seq::<char>::empty()] + lines_view(body@) + seq![
            Seq::<char>::empty(),
        ]) by {
            assert(lines_view(r@) =~= lines_view(before).push(Seq::<char>::empty()));
            assert(lines_view(body@).subrange(0, body@.len() as int) =~= lines_view(body@));
        }
        assert(rendered_from(art, styled, info_v, cells_v, lines_view(r@)));
        assert(r@[0]@ == lines_view(r@)[0]);
        assert(r@[r@.len() - 1]@ == lines_view(r@)[r@.len() - 1]);
        r
    }
}

/// With every category hidden and no custom fields, the printed panel is
/// drawn from the header lines alone: `user@host`, its rule and a blank line,
/// with no category header and no field row.
pub proof fn lemma_hidden_render_shows_header_only(
    r: Renderer,
    header: Seq<char>,
    rule_len: nat,
    outputs: Seq<Option<String>>,
    out: Seq<Seq<char>>,
)
    requires
        forall|i: int|
            0 <= i < r.config().categories@.len() ==> !(#[trigger] r.config().categories@[i]).enabled,
        r.config().custom_fields@.len() == 0,
        rendered(r.art(), r.info_styled(header, rule_len, outputs), out),
    ensures
        r.info_styled(header, rule_len, outputs) == header_spans(header, rule_len, r.config().theme),
        rendered(r.art(), header_spans(header, rule_len, r.config().theme), out),
{
    crate::lines::lemma_hidden_panel_is_header_only(r.config(), r.data(), outputs, header, rule_len);
}

} // verus!
