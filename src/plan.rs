use vstd::prelude::*;

use crate::config::{CategoryConfig, Config, CustomField};
use crate::facts::{opt_view, SysData};
use crate::registry::{default_fields, default_fields_spec, BuiltinCategory, InfoField};

verus! {

/// One row of the resolved panel, before it is styled.
#[derive(Debug)]
pub enum PlanRow {
    /// The header of a shown category.
    Category(BuiltinCategory),
    /// A built-in field and its value.
    Field(InfoField, String),
    /// The header of the custom section.
    CustomHeader,
    /// A custom field's label and value.
    Custom(String, String),
    /// An empty separator row.
    Blank,
}

/// A plan row with its strings seen as character sequences.
pub enum RowView {
    Category(BuiltinCategory),
    Field(InfoField, Seq<char>),
    CustomHeader,
    Custom(Seq<char>, Seq<char>),
    Blank,
}

impl View for PlanRow {
    type V = RowView;

    open spec fn view(&self) -> RowView {
        match self {
            PlanRow::Category(c) => RowView::Category(*c),
            PlanRow::Field(f, v) => RowView::Field(*f, v@),
            PlanRow::CustomHeader => RowView::CustomHeader,
            PlanRow::Custom(l, v) => RowView::Custom(l@, v@),
            PlanRow::Blank => RowView::Blank,
        }
    }
}

/// The views of a sequence of plan rows.
pub open spec fn rows_view(rows: Seq<PlanRow>) -> Seq<RowView> {
    rows.map_values(|r: PlanRow| r@)
}

/// The fields a category shows: its own list when it names one, in that
/// order, and its defaults otherwise.
pub open spec fn resolved_fields(c: CategoryConfig) -> Seq<InfoField> {
    if c.fields@.len() == 0 {
        default_fields_spec(c.category)
    } else {
        c.fields@
    }
}

/// A row for each field whose fact is known, in order.
pub open spec fn field_rows(fields: Seq<InfoField>, data: SysData) -> Seq<RowView>
    decreases fields.len(),
{
    if fields.len() == 0 {
        seq![]
    } else {
        let rest = field_rows(fields.drop_last(), data);
        match data.lookup(fields.last()) {
            Some(v) => rest.push(RowView::Field(fields.last(), v)),
            None => rest,
        }
    }
}

/// A shown category: its header, its field rows and a blank row. A hidden
/// category gives no rows.
pub open spec fn category_rows(c: CategoryConfig, data: SysData) -> Seq<RowView> {
    if c.enabled {
        seq![RowView::Category(c.category)] + field_rows(resolved_fields(c), data) + seq![
            RowView::Blank,
        ]
    } else {
        seq![]
    }
}

/// The rows of all categories, in configuration order.
pub open spec fn categories_rows(cs: Seq<CategoryConfig>, data: SysData) -> Seq<RowView>
    decreases cs.len(),
{
    if cs.len() == 0 {
        seq![]
    } else {
        categories_rows(cs.drop_last(), data) + category_rows(cs.last(), data)
    }
}

/// A custom field's value: its command's output, or "N/A" when there is none.
pub open spec fn custom_value_spec(output: Option<Seq<char>>) -> Seq<char> {
    match output {
        Some(s) => if s.len() == 0 {
            "N/A"@
        } else {
            s
        },
        None => "N/A"@,
    }
}

/// The output of the `i`th custom command, if it gave one.
pub open spec fn output_at(outputs: Seq<Option<String>>, i: int) -> Option<Seq<char>> {
    if 0 <= i < outputs.len() {
        opt_view(outputs[i])
    } else {
        None
    }
}

/// One row for every custom field, whatever its command gave.
pub open spec fn custom_rows(fields: Seq<CustomField>, outputs: Seq<Option<String>>) -> Seq<
    RowView,
> {
    Seq::new(
        fields.len(),
        |i: int| RowView::Custom(fields[i].label@, custom_value_spec(output_at(outputs, i))),
    )
}

/// The custom section: a header, the custom rows and a blank row; nothing
/// when there are no custom fields.
pub open spec fn custom_section(fields: Seq<CustomField>, outputs: Seq<Option<String>>) -> Seq<
    RowView,
> {
    if fields.len() == 0 {
        seq![]
    } else {
        seq![RowView::CustomHeader] + custom_rows(fields, outputs) + seq![RowView::Blank]
    }
}

/// The whole plan: the categories in configuration order, then the custom section.
pub open spec fn plan_spec(config: Config, data: SysData, outputs: Seq<Option<String>>) -> Seq<
    RowView,
> {
    categories_rows(config.categories@, data) + custom_section(config.custom_fields@, outputs)
}

/// Whether a shown category asks for `field`.
pub open spec fn requested(config: Config, field: InfoField) -> bool {
    exists|i: int|
        0 <= i < config.categories@.len() && (#[trigger] config.categories@[i]).enabled
            && resolved_fields(config.categories@[i]).contains(field)
}

proof fn lemma_rows_view_push(s: Seq<PlanRow>, x: PlanRow)
    ensures
        rows_view(s.push(x)) == rows_view(s).push(x@),
{
    assert(rows_view(s.push(x)) =~= rows_view(s).push(x@));
}

/// The fields a category shows, in the order they are shown.
pub fn resolve_fields(c: &CategoryConfig) -> (r: Vec<InfoField>)
    ensures
        r@ == resolved_fields(*c),
{
    if c.fields.len() == 0 {
        vstd::slice::slice_to_vec(default_fields(c.category))
    } else {
        c.fields.clone()
    }
}

fn contains_field(v: &Vec<InfoField>, field: InfoField) -> (r: bool)
    ensures
        r == v@.contains(field),
{
    let mut i: usize = 0;
    while i < v.len()
        invariant
            i <= v.len(),
            forall|j: int| 0 <= j < i ==> v@[j] != field,
        decreases v.len() - i,
    {
        if v[i] == field {
            assert(v@[i as int] == field);
            return true;
        }
        i = i + 1;
    }
    false
}

/// Whether a shown category asks for `field`: the expensive facts are only
/// gathered when it does.
pub fn requests_field(config: &Config, field: InfoField) -> (r: bool)
    ensures
        r == requested(*config, field),
{
    let cs = &config.categories;
    let mut i: usize = 0;
    while i < cs.len()
        invariant
            cs == &config.categories,
            i <= cs.len(),
            forall|j: int|
                0 <= j < i ==> !((#[trigger] cs@[j]).enabled && resolved_fields(cs@[j]).contains(
                    field,
                )),
        decreases cs.len() - i,
    {
        if cs[i].enabled {
            let fields = resolve_fields(&cs[i]);
            if contains_field(&fields, field) {
                return true;
            }
        }
        i = i + 1;
    }
    false
}

/// The value shown for a custom field, from what its command wrote.
pub fn custom_value(output: Option<String>) -> (r: String)
    ensures
        r@ == custom_value_spec(opt_view(output)),
{
    match output {
        Some(s) => {
            if s.as_str().is_empty() {
                String::from_str("N/A")
            } else {
                s
            }
        },
        None => String::from_str("N/A"),
    }
}

fn field_rows_of(fields: &Vec<InfoField>, data: &SysData, rows: &mut Vec<PlanRow>)
    ensures
        rows_view(final(rows)@) == rows_view(old(rows)@) + field_rows(fields@, *data),
{
    let ghost start = rows_view(rows@);
    let mut i: usize = 0;
    while i < fields.len()
        invariant
            i <= fields.len(),
            rows_view(rows@) == start + field_rows(fields@.subrange(0, i as int), *data),
        decreases fields.len() - i,
    {
        let f = fields[i];
        let ghost pre = fields@.subrange(0, i + 1);
        assert(pre.drop_last() == fields@.subrange(0, i as int));
        assert(pre.last() == f);
        match data.get(f) {
            Some(v) => {
                let row = PlanRow::Field(f, v);
                proof {
                    lemma_rows_view_push(rows@, row);
                }
                rows.push(row);
            },
            None => {},
        }
        i = i + 1;
        assert(rows_view(rows@) =~= start + field_rows(pre, *data));
    }
    assert(fields@.subrange(0, fields.len() as int) == fields@);
}

/// Resolves the configuration against the facts: the rows of the panel, in
/// order. `custom_outputs[i]` is what the `i`th custom command wrote, if anything.
pub fn build_plan(config: &Config, data: &SysData, custom_outputs: &Vec<Option<String>>) -> (r:
    Vec<PlanRow>)
    ensures
        rows_view(r@) == plan_spec(*config, *data, custom_outputs@),
{
    let mut rows: Vec<PlanRow> = Vec::new();
    let cs = &config.categories;
    let mut i: usize = 0;
    while i < cs.len()
        invariant
            cs == &config.categories,
            i <= cs.len(),
            rows_view(rows@) == categories_rows(cs@.subrange(0, i as int), *data),
        decreases cs.len() - i,
    {
        let c = &cs[i];
        let ghost before = rows_view(rows@);
        let ghost pre = cs@.subrange(0, i + 1);
        assert(pre.drop_last() == cs@.subrange(0, i as int));
        assert(pre.last() == *c);
        if c.enabled {
            proof {
                lemma_rows_view_push(rows@, PlanRow::Category(c.category));
            }
            rows.push(PlanRow::Category(c.category));
            let fields = resolve_fields(c);
            field_rows_of(&fields, data, &mut rows);
            proof {
                lemma_rows_view_push(rows@, PlanRow::Blank);
            }
            rows.push(PlanRow::Blank);
        }
        i = i + 1;
        assert(rows_view(rows@) =~= before + category_rows(pre.last(), *data));
    }
    assert(cs@.subrange(0, cs.len() as int) == cs@);
    let ghost cats = rows_view(rows@);
    let customs = &config.custom_fields;
    if customs.len() > 0 {
        proof {
            lemma_rows_view_push(rows@, PlanRow::CustomHeader);
        }
        rows.push(PlanRow::CustomHeader);
        let mut j: usize = 0;
        while j < customs.len()
            invariant
                customs == &config.custom_fields,
                j <= customs.len(),
                rows_view(rows@) == cats + seq![RowView::CustomHeader] + custom_rows(
                    customs@,
                    custom_outputs@,
                ).subrange(0, j as int),
            decreases customs.len() - j,
        {
            let out = if j < custom_outputs.len() {
                match &custom_outputs[j] {
                    Some(s) => Some(s.clone()),
                    None => None,
                }
            } else {
                None
            };
            let value = custom_value(out);
            let row = PlanRow::Custom(customs[j].label.clone(), value);
            proof {
                lemma_rows_view_push(rows@, row);
            }
            rows.push(row);
            j = j + 1;
            assert(rows_view(rows@) =~= cats + seq![RowView::CustomHeader] + custom_rows(
                customs@,
                custom_outputs@,
            ).subrange(0, j as int));
        }
        proof {
            lemma_rows_view_push(rows@, PlanRow::Blank);
        }
        rows.push(PlanRow::Blank);
        assert(custom_rows(customs@, custom_outputs@).subrange(0, customs.len() as int)
            == custom_rows(customs@, custom_outputs@));
    }
    assert(rows_view(rows@) =~= plan_spec(*config, *data, custom_outputs@));
    rows
}

/// With every category hidden and no custom fields, the plan has no rows.
pub proof fn lemma_hidden_plan_is_empty(config: Config, data: SysData, outputs: Seq<
    Option<String>,
>)
    requires
        forall|i: int|
            0 <= i < config.categories@.len() ==> !(#[trigger] config.categories@[i]).enabled,
        config.custom_fields@.len() == 0,
    ensures
        plan_spec(config, data, outputs) == Seq::<RowView>::empty(),
{
    lemma_hidden_categories_give_no_rows(config.categories@, data);
    assert(plan_spec(config, data, outputs) =~= Seq::<RowView>::empty());
}

proof fn lemma_hidden_categories_give_no_rows(cs: Seq<CategoryConfig>, data: SysData)
    requires
        forall|i: int| 0 <= i < cs.len() ==> !(#[trigger] cs[i]).enabled,
    ensures
        categories_rows(cs, data) == Seq::<RowView>::empty(),
    decreases cs.len(),
{
    if cs.len() > 0 {
        let t = cs.drop_last();
        assert forall|i: int| 0 <= i < t.len() implies !(#[trigger] t[i]).enabled by {
            assert(t[i] == cs[i]);
        }
        lemma_hidden_categories_give_no_rows(t, data);
        assert(!cs[cs.len() - 1].enabled);
        assert(categories_rows(cs, data) =~= Seq::<RowView>::empty());
    }
}

/// Every custom field gets a row with a value that is never empty: what its
/// command wrote, or "N/A" when it wrote nothing or did not run.
pub proof fn lemma_custom_rows_always_valued(fields: Seq<CustomField>, outputs: Seq<
    Option<String>,
>)
    ensures
        custom_rows(fields, outputs).len() == fields.len(),
        forall|i: int|
            0 <= i < fields.len() ==> #[trigger] custom_rows(fields, outputs)[i] == RowView::Custom(
                fields[i].label@,
                custom_value_spec(output_at(outputs, i)),
            ),
        forall|i: int|
            0 <= i < fields.len() ==> custom_value_spec(#[trigger] output_at(outputs, i)).len()
                > 0,
        forall|i: int|
            0 <= i < fields.len() ==> (output_at(outputs, i) is None || output_at(
                outputs,
                i,
            )->0.len() == 0) ==> custom_value_spec(#[trigger] output_at(outputs, i)) == "N/A"@,
{
    reveal_strlit("N/A");
}

/// With no swap configured, a field list that asks for swap gives a swap
/// row, and every swap row it gives reads "N/A".
pub proof fn lemma_swap_rows_read_na(fields: Seq<InfoField>, data: SysData)
    requires
        data.swap_total_mb == 0,
    ensures
        fields.contains(InfoField::Swap) ==> field_rows(fields, data).contains(
            RowView::Field(InfoField::Swap, "N/A"@),
        ),
        forall|i: int|
            0 <= i < field_rows(fields, data).len() ==> match #[trigger] field_rows(fields, data)[i] {
                RowView::Field(f, v) => f == InfoField::Swap ==> v == "N/A"@,
                _ => true,
            },
    decreases fields.len(),
{
    if fields.len() > 0 {
        let t = fields.drop_last();
        lemma_swap_rows_read_na(t, data);
        let rest = field_rows(t, data);
        let rows = field_rows(fields, data);
        assert forall|i: int| 0 <= i < rows.len() implies match #[trigger] rows[i] {
            RowView::Field(f, v) => f == InfoField::Swap ==> v == "N/A"@,
            _ => true,
        } by {
            if i < rest.len() {
                match data.lookup(fields.last()) {
                    Some(v) => assert(rows[i] == rest.push(RowView::Field(fields.last(), v))[i]),
                    None => {},
                }
            }
        }
        if fields.contains(InfoField::Swap) {
            if fields.last() == InfoField::Swap {
                assert(rows.last() == RowView::Field(InfoField::Swap, "N/A"@));
                assert(rows[rows.len() - 1] == RowView::Field(InfoField::Swap, "N/A"@));
            } else {
                let k = choose|k: int| 0 <= k < fields.len() && fields[k] == InfoField::Swap;
                assert(t[k] == InfoField::Swap);
                assert(t.contains(InfoField::Swap));
                let j = choose|j: int| 0 <= j < rest.len() && rest[j] == RowView::Field(
                    InfoField::Swap,
                    "N/A"@,
                );
                match data.lookup(fields.last()) {
                    Some(v) => assert(rows[j] == rest.push(RowView::Field(fields.last(), v))[j]),
                    None => {},
                }
                assert(rows[j] == RowView::Field(InfoField::Swap, "N/A"@));
            }
        }
    }
}

/// With no swap configured, a shown category that asks for swap shows a swap
/// row reading "N/A", never "0 MB / 0 MB".
pub proof fn lemma_shown_swap_reads_na(c: CategoryConfig, data: SysData)
    requires
        data.swap_total_mb == 0,
        c.enabled,
        resolved_fields(c).contains(InfoField::Swap),
    ensures
        category_rows(c, data).contains(RowView::Field(InfoField::Swap, "N/A"@)),
        forall|i: int|
            0 <= i < category_rows(c, data).len() ==> match #[trigger] category_rows(c, data)[i] {
                RowView::Field(f, v) => f == InfoField::Swap ==> v == "N/A"@,
                _ => true,
            },
{
    let fr = field_rows(resolved_fields(c), data);
    lemma_swap_rows_read_na(resolved_fields(c), data);
    let rows = category_rows(c, data);
    assert(rows == seq![RowView::Category(c.category)] + fr + seq![RowView::Blank]);
    let j = choose|j: int| 0 <= j < fr.len() && fr[j] == RowView::Field(InfoField::Swap, "N/A"@);
    assert(rows[j + 1] == fr[j]);
    assert forall|i: int| 0 <= i < rows.len() implies match #[trigger] rows[i] {
        RowView::Field(f, v) => f == InfoField::Swap ==> v == "N/A"@,
        _ => true,
    } by {
        if 1 <= i < rows.len() - 1 {
            assert(rows[i] == fr[i - 1]);
        }
    }
}

} // verus!
