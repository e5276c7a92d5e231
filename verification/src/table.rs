//! The report as a table.
//!
//! Costs come in as text; everything else is laid out here. Token counts and lists of
//! models stay what they are until the table is drawn.
use crate::billing::{
    are_costs_of, charges_view, codex_charges, costs_of_groups, groups_charged, ModelCharges,
};
use crate::names::{names_of, texts, texts_ascend, NameMap};
use crate::pricing::{Pricing, PricingMap};
use crate::report::AgentReportKind;
use crate::totals::{codex_totals, sum_over, totals_fit, Count, UsageTotals};
use crate::usage::{non_cached_input_tokens, tokens_without, CodexGroup, CodexSpeedPolicy};
use vstd::prelude::*;

verus! {

/// The side of a column that its cells stand on.
#[derive(Clone, Copy, Debug, PartialEq, Eq, Structural)]
pub enum Align {
    Left,
    Right,
}

/// A colour that a cell can be drawn in.
#[derive(Clone, Copy, Debug, PartialEq, Eq, Structural)]
pub enum Color {
    Yellow,
}

/// What a cell shows.
#[derive(Debug, PartialEq, Eq)]
pub enum Cell {
    Text(String),
    /// The names of models, one to a line.
    Models(Vec<String>),
    /// A number of tokens.
    Tokens(u64),
}

/// What a cell shows, over texts.
pub enum CellView {
    Text(Seq<char>),
    Models(Seq<Seq<char>>),
    Tokens(u64),
}

impl View for Cell {
    type V = CellView;

    open spec fn view(&self) -> CellView {
        match self {
            Cell::Text(text) => CellView::Text(text@),
            Cell::Models(models) => CellView::Models(texts(models@)),
            Cell::Tokens(tokens) => CellView::Tokens(*tokens),
        }
    }
}

/// What the cells of a row show.
pub open spec fn cell_views(cells: Seq<Cell>) -> Seq<CellView> {
    Seq::new(cells.len(), |i: int| cells[i]@)
}

/// A cell that may have a colour.
#[derive(Debug, PartialEq, Eq)]
pub struct PaintedCell {
    pub cell: Cell,
    pub color: Option<Color>,
}

/// What painted cells show, and in which colour.
pub open spec fn painted_views(cells: Seq<PaintedCell>) -> Seq<(CellView, Option<Color>)> {
    Seq::new(cells.len(), |i: int| (cells[i].cell@, cells[i].color))
}

/// A cost, written in credits and in dollars.
#[derive(Debug)]
pub struct CostText {
    pub credits: String,
    pub usd: String,
}

/// The texts of the given headers.
pub open spec fn header_texts(headers: Seq<&'static str>) -> Seq<Seq<char>> {
    Seq::new(headers.len(), |i: int| headers[i]@)
}

/// The header of the first column.
pub open spec fn first_header(kind: AgentReportKind) -> Seq<char> {
    match kind {
        AgentReportKind::Daily => "Date"@,
        AgentReportKind::Weekly => "Week"@,
        AgentReportKind::Monthly => "Month"@,
        AgentReportKind::Session => "Session"@,
    }
}

/// The headers of a table, with those of the two cost columns last unless costs are left
/// out.
pub open spec fn table_headers(kind: AgentReportKind, no_cost: bool) -> Seq<Seq<char>> {
    seq![
        first_header(kind),
        "Models"@,
        "Input"@,
        "Output"@,
        "Reasoning"@,
        "Cache Read"@,
        "Total Tokens"@,
    ] + if no_cost {
        Seq::empty()
    } else {
        seq!["Credits"@, "Cost (USD)"@]
    }
}

/// Two columns of text on the left, and numbers on the right.
pub open spec fn table_aligns(no_cost: bool) -> Seq<Align> {
    Seq::new(
        if no_cost {
            7
        } else {
            9
        },
        |i: int|
            if i < 2 {
                Align::Left
            } else {
                Align::Right
            },
    )
}

/// The headers and the alignments of the columns of a table.
pub fn codex_table_columns(
    kind: AgentReportKind,
    no_cost: bool,
) -> (columns: (Vec<&'static str>, Vec<Align>))
    ensures
        header_texts(columns.0@) == table_headers(kind, no_cost),
        columns.1@ == table_aligns(no_cost),
{
    let first_column: &'static str = match kind {
        AgentReportKind::Daily => "Date",
        AgentReportKind::Weekly => "Week",
        AgentReportKind::Monthly => "Month",
        AgentReportKind::Session => "Session",
    };
    let mut headers: Vec<&'static str> = vec![
        first_column,
        "Models",
        "Input",
        "Output",
        "Reasoning",
        "Cache Read",
        "Total Tokens",
        "Credits",
        "Cost (USD)",
    ];
    let mut aligns: Vec<Align> = vec![
        Align::Left,
        Align::Left,
        Align::Right,
        Align::Right,
        Align::Right,
        Align::Right,
        Align::Right,
        Align::Right,
        Align::Right,
    ];
    if no_cost {
        headers.truncate(headers.len() - 2);
        aligns.truncate(aligns.len() - 2);
    }
    assert(header_texts(headers@) =~= table_headers(kind, no_cost));
    assert(aligns@ =~= table_aligns(no_cost));
    (headers, aligns)
}

/// The texts of the cost cells of a row: credits, then dollars, unless costs are left
/// out.
pub open spec fn cost_texts(cost: CostText, no_cost: bool) -> Seq<Seq<char>> {
    if no_cost {
        Seq::empty()
    } else {
        seq![cost.credits@, cost.usd@]
    }
}

/// The cost cells of a row.
pub fn codex_cost_cells(cost: CostText, no_cost: bool) -> (cells: Vec<String>)
    ensures
        texts(cells@) == cost_texts(cost, no_cost),
{
    let ghost shown = cost_texts(cost, no_cost);
    let cells: Vec<String> = if no_cost {
        Vec::new()
    } else {
        vec![cost.credits, cost.usd]
    };
    assert(texts(cells@) =~= shown);
    cells
}

/// The cells of the row of a group.
pub open spec fn row_views(
    label: Seq<char>,
    group: CodexGroup,
    cost: CostText,
    no_cost: bool,
) -> Seq<CellView> {
    seq![
        CellView::Text(label),
        CellView::Models(names_of(group.models@)),
        CellView::Tokens(tokens_without(group.input_tokens, group.cached_input_tokens)),
        CellView::Tokens(group.output_tokens),
        CellView::Tokens(group.reasoning_output_tokens),
        CellView::Tokens(group.cached_input_tokens),
        CellView::Tokens(group.total_tokens),
    ] + cost_texts(cost, no_cost).map_values(|text: Seq<char>| CellView::Text(text))
}

/// Lays out the row of a group.
pub fn table_row(
    label: &str,
    group: &CodexGroup,
    cost: CostText,
    no_cost: bool,
) -> (row: Vec<Cell>)
    ensures
        cell_views(row@) == row_views(label@, *group, cost, no_cost),
{
    let ghost shown = row_views(label@, *group, cost, no_cost);
    let ghost costs = cost_texts(cost, no_cost);
    let input: u64 = non_cached_input_tokens(group.input_tokens, group.cached_input_tokens);
    let mut row: Vec<Cell> = vec![
        Cell::Text(label.to_owned()),
        Cell::Models(group.models.names()),
        Cell::Tokens(input),
        Cell::Tokens(group.output_tokens),
        Cell::Tokens(group.reasoning_output_tokens),
        Cell::Tokens(group.cached_input_tokens),
        Cell::Tokens(group.total_tokens),
    ];
    for cell in iter: codex_cost_cells(cost, no_cost)
        invariant
            texts(iter.seq()) == costs,
            cell_views(row@) == shown.take(7 + iter.index()),
            shown.len() == 7 + costs.len(),
            forall|i: int| 0 <= i < costs.len() ==> shown[7 + i] == CellView::Text(costs[i]),
    {
        let ghost earlier = cell_views(row@);
        let ghost text = cell@;
        proof {
            assert(text == texts(iter.seq())[iter.index() as int]);
            assert(shown[7 + iter.index()] == CellView::Text(text));
        }
        row.push(Cell::Text(cell));
        assert(cell_views(row@) =~= earlier.push(CellView::Text(text)));
    }
    row
}

/// The cells of the row of totals. All of them are yellow but the empty one in the
/// column of the models.
pub open spec fn total_views(
    totals: UsageTotals,
    cost: CostText,
    no_cost: bool,
) -> Seq<(CellView, Option<Color>)> {
    seq![
        (CellView::Text("Total"@), Some(Color::Yellow)),
        (CellView::Text(Seq::empty()), None),
        (CellView::Tokens(totals.input_tokens), Some(Color::Yellow)),
        (CellView::Tokens(totals.output_tokens), Some(Color::Yellow)),
        (CellView::Tokens(totals.reasoning_output_tokens), Some(Color::Yellow)),
        (CellView::Tokens(totals.cached_input_tokens), Some(Color::Yellow)),
        (CellView::Tokens(totals.total_tokens), Some(Color::Yellow)),
    ] + cost_texts(cost, no_cost).map_values(
        |text: Seq<char>| (CellView::Text(text), Some(Color::Yellow)),
    )
}

/// A cell in yellow.
fn yellow(cell: Cell) -> (painted: PaintedCell)
    ensures
        painted.cell == cell,
        painted.color == Some(Color::Yellow),
{
    PaintedCell { cell, color: Some(Color::Yellow) }
}

/// Lays out the row of totals.
pub fn total_row(totals: &UsageTotals, cost: CostText, no_cost: bool) -> (row: Vec<PaintedCell>)
    ensures
        painted_views(row@) == total_views(*totals, cost, no_cost),
{
    let ghost shown = total_views(*totals, cost, no_cost);
    let ghost costs = cost_texts(cost, no_cost);
    let mut row: Vec<PaintedCell> = vec![
        yellow(Cell::Text("Total".to_owned())),
        PaintedCell { cell: Cell::Text(String::new()), color: None },
        yellow(Cell::Tokens(totals.input_tokens)),
        yellow(Cell::Tokens(totals.output_tokens)),
        yellow(Cell::Tokens(totals.reasoning_output_tokens)),
        yellow(Cell::Tokens(totals.cached_input_tokens)),
        yellow(Cell::Tokens(totals.total_tokens)),
    ];
    for cell in iter: codex_cost_cells(cost, no_cost)
        invariant
            texts(iter.seq()) == costs,
            painted_views(row@) == shown.take(7 + iter.index()),
            shown.len() == 7 + costs.len(),
            forall|i: int|
                0 <= i < costs.len() ==> shown[7 + i] == (
                    CellView::Text(costs[i]),
                    Some(Color::Yellow),
                ),
    {
        let ghost earlier = painted_views(row@);
        let ghost text = cell@;
        proof {
            assert(text == texts(iter.seq())[iter.index() as int]);
            assert(shown[7 + iter.index()] == (CellView::Text(text), Some(Color::Yellow)));
        }
        row.push(yellow(Cell::Text(cell)));
        assert(painted_views(row@) =~= earlier.push((CellView::Text(text), Some(Color::Yellow))));
    }
    row
}

/// How a kind of report is called in its title.
pub open spec fn kind_title(kind: AgentReportKind) -> Seq<char> {
    match kind {
        AgentReportKind::Daily => "Daily"@,
        AgentReportKind::Weekly => "Weekly"@,
        AgentReportKind::Monthly => "Monthly"@,
        AgentReportKind::Session => "Session"@,
    }
}

/// The title of a table.
pub fn table_title(kind: AgentReportKind) -> (title: String)
    ensures
        title@ == "Codex Token Usage Report - "@ + kind_title(kind),
{
    let name: &'static str = match kind {
        AgentReportKind::Daily => "Daily",
        AgentReportKind::Weekly => "Weekly",
        AgentReportKind::Monthly => "Monthly",
        AgentReportKind::Session => "Session",
    };
    let mut title = "Codex Token Usage Report - ".to_owned();
    title.append(name);
    title
}

/// A table: its title, its columns, a row for each group, and below a separator the row
/// of totals.
#[derive(Debug)]
pub struct CodexTable {
    pub title: String,
    pub headers: Vec<&'static str>,
    pub aligns: Vec<Align>,
    pub rows: Vec<Vec<Cell>>,
    pub total: Vec<PaintedCell>,
}

/// The totals of groups that can be added up.
pub open spec fn summed(groups: Seq<(Seq<char>, CodexGroup)>) -> UsageTotals {
    UsageTotals {
        input_tokens: sum_over(groups, Count::Input) as u64,
        cached_input_tokens: sum_over(groups, Count::CachedInput) as u64,
        output_tokens: sum_over(groups, Count::Output) as u64,
        reasoning_output_tokens: sum_over(groups, Count::ReasoningOutput) as u64,
        total_tokens: sum_over(groups, Count::Total) as u64,
    }
}

/// Whether a table is the one of the given groups and their costs.
pub open spec fn is_table_of(
    table: CodexTable,
    groups: Seq<(Seq<char>, CodexGroup)>,
    kind: AgentReportKind,
    costs: Seq<CostText>,
    total_cost: CostText,
    no_cost: bool,
) -> bool {
    &&& table.title@ == "Codex Token Usage Report - "@ + kind_title(kind)
    &&& header_texts(table.headers@) == table_headers(kind, no_cost)
    &&& table.aligns@ == table_aligns(no_cost)
    &&& table.rows@.len() == groups.len()
    &&& forall|i: int|
        0 <= i < groups.len() ==> cell_views(#[trigger] table.rows@[i]@) == row_views(
            groups[i].0,
            groups[i].1,
            costs[i],
            no_cost,
        )
    &&& painted_views(table.total@) == total_views(summed(groups), total_cost, no_cost)
}

/// Lays out the table of the given groups, with what each costs and what all of them
/// cost together. Without groups there is no table.
pub fn table_with_costs(
    groups: &NameMap<CodexGroup>,
    kind: AgentReportKind,
    costs: Vec<CostText>,
    total_cost: CostText,
    no_cost: bool,
) -> (table: Option<CodexTable>)
    requires
        costs@.len() == groups@.len(),
        totals_fit(groups@),
    ensures
        table is Some == (groups@.len() > 0),
        table is Some ==> is_table_of(table->0, groups@, kind, costs@, total_cost, no_cost),
        // so the rows stand in ascending order of the names of their groups
        texts_ascend(names_of(groups@)),
{
    let count: usize = groups.len();
    if count == 0 {
        return None;
    }
    let ghost prices = costs@;
    let (headers, aligns) = codex_table_columns(kind, no_cost);
    let mut rows: Vec<Vec<Cell>> = Vec::new();
    let mut i: usize = 0;
    for cost in iter: costs
        invariant
            count == groups@.len(),
            prices.len() == groups@.len(),
            iter.seq() == prices,
            i == iter.index(),
            rows@.len() == i,
            forall|k: int|
                0 <= k < i ==> cell_views(#[trigger] rows@[k]@) == row_views(
                    groups@[k].0,
                    groups@[k].1,
                    prices[k],
                    no_cost,
                ),
    {
        rows.push(table_row(groups.name(i).as_str(), groups.value(i), cost, no_cost));
        i += 1;
    }
    let totals = codex_totals(groups).unwrap();
    let total = total_row(&totals, total_cost, no_cost);
    Some(CodexTable { title: table_title(kind), headers, aligns, rows, total })
}

/// Whether a table is the one of the given groups at the given prices: the cost in each row
/// is one that `cost_of` gives for the charges of its group, and the total cost one that
/// `total_of` gives for the charges of all groups.
pub open spec fn is_priced_table_of<
    R,
    F: Fn(&Vec<Option<ModelCharges<R>>>) -> CostText,
    G: Fn(&Vec<Vec<Option<ModelCharges<R>>>>) -> CostText,
>(
    table: CodexTable,
    groups: Seq<(Seq<char>, CodexGroup)>,
    kind: AgentReportKind,
    prices: Map<Seq<char>, Pricing<R>>,
    speed: CodexSpeedPolicy,
    cost_of: F,
    total_of: G,
    no_cost: bool,
) -> bool {
    exists|
        charges: Vec<Vec<Option<ModelCharges<R>>>>,
        costs: Seq<CostText>,
        total_cost: CostText,
    |
        {
            &&& charges_view(charges@) == groups_charged(groups, prices, speed)
            &&& #[trigger] are_costs_of(costs, cost_of, charges@)
            &&& #[trigger] call_ensures(total_of, (&charges,), total_cost)
            &&& is_table_of(table, groups, kind, costs, total_cost, no_cost)
        }
}

/// Lays out the table of the given groups at the given prices. How charges become costs
/// is up to the caller. Without groups there is no table.
pub fn table_from_groups<
    R: Copy,
    F: Fn(&Vec<Option<ModelCharges<R>>>) -> CostText,
    G: Fn(&Vec<Vec<Option<ModelCharges<R>>>>) -> CostText,
>(
    groups: &NameMap<CodexGroup>,
    kind: AgentReportKind,
    pricing: &PricingMap<R>,
    speed: CodexSpeedPolicy,
    cost_of: F,
    total_of: G,
    no_cost: bool,
) -> (table: Option<CodexTable>)
    requires
        totals_fit(groups@),
        forall|group: &Vec<Option<ModelCharges<R>>>| call_requires(cost_of, (group,)),
        forall|all: &Vec<Vec<Option<ModelCharges<R>>>>| call_requires(total_of, (all,)),
    ensures
        table is Some == (groups@.len() > 0),
        table is Some ==> is_priced_table_of(
            table->0,
            groups@,
            kind,
            pricing@,
            speed,
            cost_of,
            total_of,
            no_cost,
        ),
        // so the rows stand in ascending order of the names of their groups
        texts_ascend(names_of(groups@)),
{
    let charges = codex_charges(groups, pricing, speed);
    let costs = costs_of_groups(&charges, &cost_of);
    let total_cost = total_of(&charges);
    assert(charges_view(charges@).len() == groups@.len());
    let ghost (given, total) = (costs@, total_cost);
    let table = table_with_costs(groups, kind, costs, total_cost, no_cost);
    assert(are_costs_of(given, cost_of, charges@) && call_ensures(total_of, (&charges,), total));
    table
}

/// Leaving costs out takes the last two columns away and leaves the others as they are.
pub proof fn no_cost_hides_the_last_two_columns(kind: AgentReportKind)
    ensures
        table_headers(kind, true) == table_headers(kind, false).drop_last().drop_last(),
        table_headers(kind, false).len() == table_headers(kind, true).len() + 2,
        table_headers(kind, false)[7] == "Credits"@,
        table_headers(kind, false)[8] == "Cost (USD)"@,
        table_aligns(true) == table_aligns(false).drop_last().drop_last(),
        !table_headers(kind, true).contains("Credits"@),
        !table_headers(kind, true).contains("Cost (USD)"@),
{
    assert(table_headers(kind, true) =~= table_headers(kind, false).drop_last().drop_last());
    assert(table_aligns(true) =~= table_aligns(false).drop_last().drop_last());
    reveal_strlit("Date");
    reveal_strlit("Week");
    reveal_strlit("Month");
    reveal_strlit("Session");
    reveal_strlit("Models");
    reveal_strlit("Input");
    reveal_strlit("Output");
    reveal_strlit("Reasoning");
    reveal_strlit("Cache Read");
    reveal_strlit("Total Tokens");
    reveal_strlit("Credits");
    reveal_strlit("Cost (USD)");
    assert("Credits"@[0] == 'C' && "Session"@[0] == 'S');
    assert("Cost (USD)"@[1] == 'o' && "Cache Read"@[1] == 'a');
    let shown = table_headers(kind, true);
    assert(shown.len() == 7);
    assert(shown[0] == first_header(kind) && shown[1] == "Models"@ && shown[2] == "Input"@
        && shown[3] == "Output"@ && shown[4] == "Reasoning"@ && shown[5] == "Cache Read"@
        && shown[6] == "Total Tokens"@);
    assert("Cost (USD)"@.len() == 10 && "Cache Read"@.len() == 10);
    assert("Cost (USD)"@ != "Cache Read"@);
    assert(forall|i: int| 0 <= i < 7 && i != 5 ==> (#[trigger] shown[i]).len() != 10);
}

/// A row shows its cost in credits, then in dollars, in its last two cells; leaving costs
/// out takes those two cells away and leaves the others as they are. The same holds of the
/// row of totals.
pub proof fn costs_are_the_last_two_cells(
    label: Seq<char>,
    group: CodexGroup,
    totals: UsageTotals,
    cost: CostText,
)
    ensures
        ({
            let row = row_views(label, group, cost, false);
            &&& row.len() == 9
            &&& row[7] == CellView::Text(cost.credits@)
            &&& row[8] == CellView::Text(cost.usd@)
            &&& row_views(label, group, cost, true) == row.take(7)
        }),
        ({
            let row = total_views(totals, cost, false);
            &&& row.len() == 9
            &&& row[7] == (CellView::Text(cost.credits@), Some(Color::Yellow))
            &&& row[8] == (CellView::Text(cost.usd@), Some(Color::Yellow))
            &&& total_views(totals, cost, true) == row.take(7)
        }),
{
    assert(row_views(label, group, cost, true) =~= row_views(label, group, cost, false).take(7));
    assert(total_views(totals, cost, true) =~= total_views(totals, cost, false).take(7));
}

/// Every row of a table, and its row of totals, has a cell for each of its columns, and
/// each column has an alignment.
pub proof fn table_is_rectangular(
    table: CodexTable,
    groups: Seq<(Seq<char>, CodexGroup)>,
    kind: AgentReportKind,
    costs: Seq<CostText>,
    total_cost: CostText,
    no_cost: bool,
)
    requires
        is_table_of(table, groups, kind, costs, total_cost, no_cost),
    ensures
        table.aligns@.len() == table.headers@.len(),
        forall|i: int|
            0 <= i < table.rows@.len() ==> (#[trigger] table.rows@[i])@.len()
                == table.headers@.len(),
        table.total@.len() == table.headers@.len(),
{
    assert(table.headers@.len() == header_texts(table.headers@).len());
    assert forall|i: int| 0 <= i < table.rows@.len() implies (#[trigger] table.rows@[i])@.len()
        == table.headers@.len() by {
        assert(cell_views(table.rows@[i]@).len() == table.rows@[i]@.len());
    }
    assert(table.total@.len() == painted_views(table.total@).len());
}

} // verus!
