//! What stands where in a table, in terms of the recorded usage alone.
use crate::billing::{
    are_costs_of, charged_if_priced, charges_view, groups_charged, ModelCharges,
};
use crate::names::texts;
use crate::pricing::Pricing;
use crate::rates::every_model_of_every_group_is_charged;
use crate::report::AgentReportKind;
use crate::table::{
    cell_views, cost_texts, first_header, header_texts, is_priced_table_of, is_table_of,
    kind_title, painted_views, row_views, summed, table_aligns, table_headers, total_views,
    Align, Cell, CellView, CodexTable, Color, CostText, PaintedCell,
};
use crate::totals::{sum_over, sum_over_is_not_negative, totals_fit, Count, UsageTotals};
use crate::usage::{CodexGroup, CodexSpeedPolicy};
use vstd::prelude::*;

verus! {

/// Under every kind the counts have the same headers at the same places, and costs, where
/// they are shown, come last; only the first header tells the kind.
pub proof fn headers_name_their_columns(kind: AgentReportKind, no_cost: bool)
    ensures
        ({
            let headers = table_headers(kind, no_cost);
            &&& headers.len() == (if no_cost {
                7int
            } else {
                9int
            })
            &&& kind is Daily ==> headers[0] == "Date"@
            &&& kind is Weekly ==> headers[0] == "Week"@
            &&& kind is Monthly ==> headers[0] == "Month"@
            &&& kind is Session ==> headers[0] == "Session"@
            &&& headers[1] == "Models"@
            &&& headers[2] == "Input"@
            &&& headers[3] == "Output"@
            &&& headers[4] == "Reasoning"@
            &&& headers[5] == "Cache Read"@
            &&& headers[6] == "Total Tokens"@
            &&& !no_cost ==> headers[7] == "Credits"@
            &&& !no_cost ==> headers[8] == "Cost (USD)"@
        }),
{
}

/// Two kinds of report have the same headers but for the first, and every kind has one of
/// its own there.
pub proof fn kinds_differ_in_the_first_header_only(
    a: AgentReportKind,
    b: AgentReportKind,
    no_cost: bool,
)
    ensures
        table_headers(a, no_cost).drop_first() == table_headers(b, no_cost).drop_first(),
        a != b ==> table_headers(a, no_cost)[0] != table_headers(b, no_cost)[0],
{
    assert(table_headers(a, no_cost).drop_first() =~= table_headers(b, no_cost).drop_first());
    reveal_strlit("Date");
    reveal_strlit("Week");
    reveal_strlit("Month");
    reveal_strlit("Session");
    assert("Date"@[0] == 'D' && "Week"@[0] == 'W');
    assert("Month"@.len() == 5 && "Session"@.len() == 7);
}

/// Names of groups and models stand on the left, every number and cost on the right, with
/// an alignment for each header.
pub proof fn numbers_stand_on_the_right(kind: AgentReportKind, no_cost: bool)
    ensures
        table_aligns(no_cost).len() == table_headers(kind, no_cost).len(),
        table_aligns(no_cost)[0] == Align::Left,
        table_aligns(no_cost)[1] == Align::Left,
        forall|i: int|
            2 <= i < table_aligns(no_cost).len() ==> #[trigger] table_aligns(no_cost)[i]
                == Align::Right,
{
}

/// Cost cells are credits and then dollars, or none.
pub proof fn cost_cells_are_credits_and_dollars(cost: CostText, no_cost: bool)
    ensures
        no_cost ==> cost_texts(cost, no_cost).len() == 0,
        !no_cost ==> cost_texts(cost, no_cost).len() == 2,
        !no_cost ==> cost_texts(cost, no_cost)[0] == cost.credits@,
        !no_cost ==> cost_texts(cost, no_cost)[1] == cost.usd@,
{
}

/// What headers, cells and painted cells show is told one by one, and tells all of them.
pub proof fn cells_are_told_one_by_one(
    headers: Seq<&'static str>,
    cells: Seq<Cell>,
    painted: Seq<PaintedCell>,
)
    ensures
        header_texts(headers).len() == headers.len(),
        forall|i: int|
            0 <= i < headers.len() ==> (#[trigger] header_texts(headers)[i]) == headers[i]@,
        cell_views(cells).len() == cells.len(),
        forall|i: int| 0 <= i < cells.len() ==> (#[trigger] cell_views(cells)[i]) == cells[i]@,
        painted_views(painted).len() == painted.len(),
        forall|i: int|
            0 <= i < painted.len() ==> (#[trigger] painted_views(painted)[i]) == (
                painted[i].cell@,
                painted[i].color,
            ),
{
}

/// A cell shows the text, the names or the number that it holds, and no two kinds of cell
/// show the same.
pub proof fn cells_show_what_they_hold(cell: Cell)
    ensures
        cell is Text ==> cell@ == CellView::Text(cell->Text_0@),
        cell is Models ==> cell@ == CellView::Models(texts(cell->Models_0@)),
        cell is Tokens ==> cell@ == CellView::Tokens(cell->Tokens_0),
{
}

/// A row shows, in the order of the headers, the name of its group, the names of the models,
/// the input without what was cached, the output, the reasoning output, the cached input and
/// the total; then its cost, unless costs are left out.
pub proof fn row_shows_its_group(
    label: Seq<char>,
    group: CodexGroup,
    cost: CostText,
    no_cost: bool,
)
    ensures
        ({
            let row = row_views(label, group, cost, no_cost);
            &&& row.len() == (if no_cost {
                7int
            } else {
                9int
            })
            &&& row[0] == CellView::Text(label)
            &&& row[1] is Models
            &&& row[1]->Models_0.len() == group.models@.len()
            &&& forall|m: int|
                0 <= m < group.models@.len() ==> (#[trigger] row[1]->Models_0[m])
                    == group.models@[m].0
            &&& row[2] is Tokens
            &&& row[2]->Tokens_0 as int == (if group.input_tokens >= group.cached_input_tokens {
                group.input_tokens - group.cached_input_tokens
            } else {
                0
            })
            &&& row[3] == CellView::Tokens(group.output_tokens)
            &&& row[4] == CellView::Tokens(group.reasoning_output_tokens)
            &&& row[5] == CellView::Tokens(group.cached_input_tokens)
            &&& row[6] == CellView::Tokens(group.total_tokens)
            &&& !no_cost ==> row[7] == CellView::Text(cost.credits@)
            &&& !no_cost ==> row[8] == CellView::Text(cost.usd@)
        }),
{
}

/// The row of totals shows the word for it, nothing under the models, and each total under
/// the header of its count; then the total cost, unless costs are left out. Every cell but
/// the empty one is yellow.
pub proof fn total_row_shows_the_totals(totals: UsageTotals, cost: CostText, no_cost: bool)
    ensures
        ({
            let row = total_views(totals, cost, no_cost);
            &&& row.len() == (if no_cost {
                7int
            } else {
                9int
            })
            &&& row[0].0 == CellView::Text("Total"@)
            &&& row[1].0 is Text
            &&& row[1].0->Text_0.len() == 0
            &&& row[2].0 == CellView::Tokens(totals.input_tokens)
            &&& row[3].0 == CellView::Tokens(totals.output_tokens)
            &&& row[4].0 == CellView::Tokens(totals.reasoning_output_tokens)
            &&& row[5].0 == CellView::Tokens(totals.cached_input_tokens)
            &&& row[6].0 == CellView::Tokens(totals.total_tokens)
            &&& !no_cost ==> row[7].0 == CellView::Text(cost.credits@)
            &&& !no_cost ==> row[8].0 == CellView::Text(cost.usd@)
            &&& forall|i: int|
                0 <= i < row.len() ==> (#[trigger] row[i]).1 == (if i == 1 {
                    None
                } else {
                    Some(Color::Yellow)
                })
        }),
{
}

/// The title of a table names its kind.
pub proof fn title_names_the_kind(kind: AgentReportKind)
    ensures
        kind is Daily ==> kind_title(kind) == "Daily"@ && first_header(kind) == "Date"@,
        kind is Weekly ==> kind_title(kind) == "Weekly"@ && first_header(kind) == "Week"@,
        kind is Monthly ==> kind_title(kind) == "Monthly"@ && first_header(kind) == "Month"@,
        kind is Session ==> kind_title(kind) == "Session"@ && first_header(kind) == "Session"@,
{
}

/// A table has the title, the headers and the alignments of its kind, and one row for each
/// group; the cells of a row hold the name of the group, its models, its counts and its cost,
/// each under the header that says so.
pub proof fn table_holds_every_group(
    table: CodexTable,
    groups: Seq<(Seq<char>, CodexGroup)>,
    kind: AgentReportKind,
    costs: Seq<CostText>,
    total_cost: CostText,
    no_cost: bool,
    i: int,
)
    requires
        is_table_of(table, groups, kind, costs, total_cost, no_cost),
        0 <= i < groups.len(),
    ensures
        table.title@ == "Codex Token Usage Report - "@ + kind_title(kind),
        table.headers@.len() == (if no_cost {
            7int
        } else {
            9int
        }),
        table.headers@[0]@ == first_header(kind),
        table.headers@[1]@ == "Models"@,
        table.headers@[2]@ == "Input"@,
        table.headers@[3]@ == "Output"@,
        table.headers@[4]@ == "Reasoning"@,
        table.headers@[5]@ == "Cache Read"@,
        table.headers@[6]@ == "Total Tokens"@,
        !no_cost ==> table.headers@[7]@ == "Credits"@,
        !no_cost ==> table.headers@[8]@ == "Cost (USD)"@,
        table.aligns@ == table_aligns(no_cost),
        table.rows@.len() == groups.len(),
        ({
            let row = table.rows@[i]@;
            let (name, group) = groups[i];
            &&& row.len() == table.headers@.len()
            &&& row[0] is Text
            &&& row[0]->Text_0@ == name
            &&& row[1] is Models
            &&& row[1]->Models_0@.len() == group.models@.len()
            &&& forall|m: int|
                0 <= m < group.models@.len() ==> (#[trigger] row[1]->Models_0@[m])@
                    == group.models@[m].0
            &&& row[2] is Tokens
            &&& row[2]->Tokens_0 as int == (if group.input_tokens >= group.cached_input_tokens {
                group.input_tokens - group.cached_input_tokens
            } else {
                0
            })
            &&& row[3] == Cell::Tokens(group.output_tokens)
            &&& row[4] == Cell::Tokens(group.reasoning_output_tokens)
            &&& row[5] == Cell::Tokens(group.cached_input_tokens)
            &&& row[6] == Cell::Tokens(group.total_tokens)
            &&& !no_cost ==> row[7] is Text && row[7]->Text_0@ == costs[i].credits@
            &&& !no_cost ==> row[8] is Text && row[8]->Text_0@ == costs[i].usd@
        }),
{
    headers_name_their_columns(kind, no_cost);
    let headers = header_texts(table.headers@);
    assert(headers.len() == table.headers@.len());
    assert(headers[0] == table.headers@[0]@ && headers[1] == table.headers@[1]@ && headers[2]
        == table.headers@[2]@ && headers[3] == table.headers@[3]@ && headers[4]
        == table.headers@[4]@ && headers[5] == table.headers@[5]@ && headers[6]
        == table.headers@[6]@);
    if !no_cost {
        assert(headers[7] == table.headers@[7]@ && headers[8] == table.headers@[8]@);
    }
    let row = table.rows@[i]@;
    let views = cell_views(row);
    row_shows_its_group(groups[i].0, groups[i].1, costs[i], no_cost);
    assert(views.len() == row.len());
    assert(views[0] == row[0]@ && views[1] == row[1]@ && views[2] == row[2]@ && views[3]
        == row[3]@ && views[4] == row[4]@ && views[5] == row[5]@ && views[6] == row[6]@);
    if !no_cost {
        assert(views[7] == row[7]@ && views[8] == row[8]@);
    }
    let models = row[1]->Models_0;
    assert(texts(models@).len() == models@.len());
    assert forall|m: int| 0 <= m < groups[i].1.models@.len() implies (#[trigger] models@[m])@
        == groups[i].1.models@[m].0 by {
        assert(texts(models@)[m] == models@[m]@);
        assert(views[1]->Models_0[m] == groups[i].1.models@[m].0);
    }
}

/// The row of totals of a table holds the sum of each count over all groups, and the total
/// cost.
pub proof fn table_holds_the_totals(
    table: CodexTable,
    groups: Seq<(Seq<char>, CodexGroup)>,
    kind: AgentReportKind,
    costs: Seq<CostText>,
    total_cost: CostText,
    no_cost: bool,
)
    requires
        is_table_of(table, groups, kind, costs, total_cost, no_cost),
        totals_fit(groups),
    ensures
        ({
            let row = table.total@;
            &&& row.len() == (if no_cost {
                7int
            } else {
                9int
            })
            &&& row[0].cell is Text
            &&& row[0].cell->Text_0@ == "Total"@
            &&& row[1].cell is Text
            &&& row[1].cell->Text_0@.len() == 0
            &&& row[2].cell is Tokens
            &&& row[2].cell->Tokens_0 == sum_over(groups, Count::Input)
            &&& row[3].cell is Tokens
            &&& row[3].cell->Tokens_0 == sum_over(groups, Count::Output)
            &&& row[4].cell is Tokens
            &&& row[4].cell->Tokens_0 == sum_over(groups, Count::ReasoningOutput)
            &&& row[5].cell is Tokens
            &&& row[5].cell->Tokens_0 == sum_over(groups, Count::CachedInput)
            &&& row[6].cell is Tokens
            &&& row[6].cell->Tokens_0 == sum_over(groups, Count::Total)
            &&& !no_cost ==> row[7].cell is Text && row[7].cell->Text_0@ == total_cost.credits@
            &&& !no_cost ==> row[8].cell is Text && row[8].cell->Text_0@ == total_cost.usd@
            &&& forall|i: int|
                0 <= i < row.len() ==> (#[trigger] row[i]).color == (if i == 1 {
                    None
                } else {
                    Some(Color::Yellow)
                })
        }),
{
    let row = table.total@;
    let views = painted_views(row);
    total_row_shows_the_totals(summed(groups), total_cost, no_cost);
    assert(views.len() == row.len());
    assert(forall|i: int|
        0 <= i < row.len() ==> views[i] == ((#[trigger] row[i]).cell@, row[i].color));
    assert(views[0].0 == row[0].cell@ && views[1].0 == row[1].cell@ && views[2].0 == row[2].cell@
        && views[3].0 == row[3].cell@ && views[4].0 == row[4].cell@ && views[5].0
        == row[5].cell@ && views[6].0 == row[6].cell@);
    if !no_cost {
        assert(views[7].0 == row[7].cell@ && views[8].0 == row[8].cell@);
    }
    sum_over_is_not_negative(groups, Count::Input);
    sum_over_is_not_negative(groups, Count::CachedInput);
    sum_over_is_not_negative(groups, Count::Output);
    sum_over_is_not_negative(groups, Count::ReasoningOutput);
    sum_over_is_not_negative(groups, Count::Total);
    assert(sum_over(groups, Count::Input) <= u64::MAX && sum_over(groups, Count::CachedInput)
        <= u64::MAX && sum_over(groups, Count::Output) <= u64::MAX && sum_over(
        groups,
        Count::ReasoningOutput,
    ) <= u64::MAX && sum_over(groups, Count::Total) <= u64::MAX);
}

/// In a priced table the cost of each row is what `cost_of` gives for the charges of all
/// models of that group at the given prices and speed; the total cost is what `total_of`
/// gives for the charges of all groups.
pub proof fn table_costs_come_from_the_charges<
    R,
    F: Fn(&Vec<Option<ModelCharges<R>>>) -> CostText,
    G: Fn(&Vec<Vec<Option<ModelCharges<R>>>>) -> CostText,
>(
    table: CodexTable,
    groups: Seq<(Seq<char>, CodexGroup)>,
    kind: AgentReportKind,
    prices: Map<Seq<char>, Pricing<R>>,
    speed: CodexSpeedPolicy,
    cost_of: F,
    total_of: G,
    no_cost: bool,
)
    requires
        is_priced_table_of(table, groups, kind, prices, speed, cost_of, total_of, no_cost),
    ensures
        exists|
            charges: Vec<Vec<Option<ModelCharges<R>>>>,
            costs: Seq<CostText>,
            total_cost: CostText,
        |
            {
                &&& charges@.len() == groups.len()
                &&& costs.len() == groups.len()
                &&& forall|g: int|
                    0 <= g < groups.len() ==> (#[trigger] charges@[g])@.len()
                        == groups[g].1.models@.len()
                &&& forall|g: int, m: int|
                    0 <= g < groups.len() && 0 <= m < groups[g].1.models@.len()
                        ==> #[trigger] charges@[g]@[m] == charged_if_priced(
                        groups[g].1.models@[m].0,
                        groups[g].1.models@[m].1,
                        prices,
                        speed,
                    )
                &&& forall|g: int|
                    0 <= g < groups.len() ==> call_ensures(
                        cost_of,
                        (&charges@[g],),
                        #[trigger] costs[g],
                    )
                &&& #[trigger] call_ensures(total_of, (&charges,), total_cost)
                &&& #[trigger] is_table_of(table, groups, kind, costs, total_cost, no_cost)
            },
{
    let (charges, costs, total_cost) = choose|
        charges: Vec<Vec<Option<ModelCharges<R>>>>,
        costs: Seq<CostText>,
        total_cost: CostText,
    |
        {
            &&& charges_view(charges@) == groups_charged(groups, prices, speed)
            &&& #[trigger] are_costs_of(costs, cost_of, charges@)
            &&& #[trigger] call_ensures(total_of, (&charges,), total_cost)
            &&& is_table_of(table, groups, kind, costs, total_cost, no_cost)
        };
    let view = charges_view(charges@);
    every_model_of_every_group_is_charged(groups, prices, speed);
    assert(view.len() == charges@.len());
    assert(forall|g: int| 0 <= g < groups.len() ==> view[g] == (#[trigger] charges@[g])@);
    assert forall|g: int, m: int|
        0 <= g < groups.len() && 0 <= m < groups[g].1.models@.len() implies #[trigger] charges@[g]@[m]
        == charged_if_priced(
        groups[g].1.models@[m].0,
        groups[g].1.models@[m].1,
        prices,
        speed,
    ) by {
        assert(view[g][m] == charges@[g]@[m]);
    }
}

} // verus!
