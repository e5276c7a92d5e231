//! How the parts of a report fit together.
use crate::json::JsonTree;
use crate::report::{
    group_entries, models_entries, optional_text_tree, period_key_text, report_entries,
    rows_key_text, rows_trees, session_directory, session_file, totals_entries, AgentReportKind,
};
use crate::table::{
    cell_views, is_table_of, painted_views, row_views, summed, Cell, CellView, CodexTable,
    CostText,
};
use crate::totals::{
    group_count, sum_over, sum_over_is_not_negative, totals_fit, Count, UsageTotals,
};
use crate::usage::CodexGroup;
use vstd::prelude::*;

verus! {

/// The key under which rows and totals hold a count.
pub open spec fn count_key(count: Count) -> Seq<char> {
    match count {
        Count::Input => "inputTokens"@,
        Count::CachedInput => "cacheReadTokens"@,
        Count::Output => "outputTokens"@,
        Count::ReasoningOutput => "reasoningOutputTokens"@,
        Count::Total => "totalTokens"@,
    }
}

/// The number that an object holds under a key, and zero if it holds none there.
pub open spec fn number_at(tree: JsonTree, key: Seq<char>) -> int {
    match tree {
        JsonTree::Object(entries) => if entries.dom().contains(key) {
            match entries[key] {
                JsonTree::Number(number) => number,
                _ => 0,
            }
        } else {
            0
        },
        _ => 0,
    }
}

/// The numbers that rows hold under a key, added up.
pub open spec fn rows_sum(rows: Seq<JsonTree>, key: Seq<char>) -> int
    decreases rows.len(),
{
    if rows.len() == 0 {
        0
    } else {
        rows_sum(rows.drop_last(), key) + number_at(rows.last(), key)
    }
}

/// How long the keys of a row are, and how those of one length begin: no two of them
/// are the same.
proof fn row_key_shapes()
    ensures
        "date"@.len() == 4,
        "date"@[0] == 'd',
        "week"@.len() == 4,
        "week"@[0] == 'w',
        "month"@.len() == 5,
        "sessionId"@.len() == 9,
        "sessionId"@[0] == 's',
        "inputTokens"@.len() == 11,
        "inputTokens"@[0] == 'i',
        "cacheCreationTokens"@.len() == 19,
        "cacheReadTokens"@.len() == 15,
        "outputTokens"@.len() == 12,
        "outputTokens"@[0] == 'o',
        "reasoningOutputTokens"@.len() == 21,
        "totalTokens"@.len() == 11,
        "totalTokens"@[0] == 't',
        "costUSD"@.len() == 7,
        "models"@.len() == 6,
        "lastActivity"@.len() == 12,
        "lastActivity"@[0] == 'l',
        "sessionFile"@.len() == 11,
        "sessionFile"@[0] == 's',
        "directory"@.len() == 9,
        "directory"@[0] == 'd',
{
    reveal_strlit("date");
    reveal_strlit("week");
    reveal_strlit("month");
    reveal_strlit("sessionId");
    reveal_strlit("inputTokens");
    reveal_strlit("cacheCreationTokens");
    reveal_strlit("cacheReadTokens");
    reveal_strlit("outputTokens");
    reveal_strlit("reasoningOutputTokens");
    reveal_strlit("totalTokens");
    reveal_strlit("costUSD");
    reveal_strlit("models");
    reveal_strlit("lastActivity");
    reveal_strlit("sessionFile");
    reveal_strlit("directory");
}

/// The keys of a row.
pub open spec fn row_keys(kind: AgentReportKind) -> Set<Seq<char>> {
    let keys = set![
        period_key_text(kind),
        "inputTokens"@,
        "cacheCreationTokens"@,
        "cacheReadTokens"@,
        "outputTokens"@,
        "reasoningOutputTokens"@,
        "totalTokens"@,
        "costUSD"@,
        "models"@,
    ];
    if kind == AgentReportKind::Session {
        keys.insert("lastActivity"@).insert("sessionFile"@).insert("directory"@)
    } else {
        keys
    }
}

/// A row holds the name of its group, each count of the group, its cost and its models,
/// each under a key of its own; the row of a session also holds its last activity, its
/// file and its directory, and no other row does. It holds nothing else.
pub proof fn row_holds_its_group(
    period: Seq<char>,
    group: CodexGroup,
    kind: AgentReportKind,
    cost: JsonTree,
)
    ensures
        ({
            let row = group_entries(period, group, kind, cost);
            let of_session = kind == AgentReportKind::Session;
            &&& row[period_key_text(kind)] == JsonTree::String(period)
            &&& forall|count: Count| #[trigger]
                row[count_key(count)] == JsonTree::Number(group_count(group, count) as int)
            &&& row["cacheCreationTokens"@] == JsonTree::Number(0)
            &&& row["costUSD"@] == cost
            &&& row["models"@] == JsonTree::Object(models_entries(group.models@))
            &&& row.dom() == row_keys(kind)
            &&& row.dom().contains("lastActivity"@) == of_session
            &&& row.dom().contains("sessionFile"@) == of_session
            &&& row.dom().contains("directory"@) == of_session
            &&& of_session ==> row["lastActivity"@] == optional_text_tree(group.last_activity)
            &&& of_session ==> row["sessionFile"@] == JsonTree::String(session_file(period))
            &&& of_session ==> row["directory"@] == JsonTree::String(session_directory(period))
        }),
{
    row_key_shapes();
    assert(group_entries(period, group, kind, cost).dom() =~= row_keys(kind));
}

/// Each count in the totals of a report is the sum of that count over its rows.
pub proof fn totals_are_the_sums_of_the_rows(
    groups: Seq<(Seq<char>, CodexGroup)>,
    kind: AgentReportKind,
    costs: Seq<JsonTree>,
    total_cost: JsonTree,
    count: Count,
)
    requires
        costs.len() == groups.len(),
    ensures
        totals_entries(groups, total_cost).dom().contains(count_key(count)),
        totals_entries(groups, total_cost)[count_key(count)] == JsonTree::Number(
            rows_sum(rows_trees(groups, kind, costs), count_key(count)),
        ),
{
    row_key_shapes();
    sum_is_sum_of_rows(groups, kind, costs, count);
}

/// A count added up over groups is that count added up over their rows.
proof fn sum_is_sum_of_rows(
    groups: Seq<(Seq<char>, CodexGroup)>,
    kind: AgentReportKind,
    costs: Seq<JsonTree>,
    count: Count,
)
    requires
        costs.len() == groups.len(),
    ensures
        sum_over(groups, count) == rows_sum(rows_trees(groups, kind, costs), count_key(count)),
    decreases groups.len(),
{
    if groups.len() > 0 {
        let rows = rows_trees(groups, kind, costs);
        assert(rows.drop_last() =~= rows_trees(groups.drop_last(), kind, costs.drop_last()));
        sum_is_sum_of_rows(groups.drop_last(), kind, costs.drop_last(), count);
        row_holds_its_group(groups.last().0, groups.last().1, kind, costs.last());
    }
}

/// A report holds its rows under the key of its kind and its totals beside them; there
/// are as many rows as groups, and each holds the name and the cost of its group.
pub proof fn report_holds_a_row_for_each_group(
    groups: Seq<(Seq<char>, CodexGroup)>,
    kind: AgentReportKind,
    costs: Seq<JsonTree>,
    total_cost: JsonTree,
)
    requires
        costs.len() == groups.len(),
    ensures
        ({
            let report = report_entries(groups, kind, costs, total_cost);
            let rows = rows_trees(groups, kind, costs);
            &&& report.dom() == set![rows_key_text(kind), "totals"@]
            &&& report[rows_key_text(kind)] == JsonTree::Array(rows)
            &&& report["totals"@] == JsonTree::Object(totals_entries(groups, total_cost))
            &&& rows.len() == groups.len()
            &&& forall|i: int| #![trigger rows[i]]
                0 <= i < rows.len() ==> {
                    &&& rows[i] is Object
                    &&& rows[i]->Object_0.dom() == row_keys(kind)
                    &&& rows[i]->Object_0[period_key_text(kind)] == JsonTree::String(groups[i].0)
                    &&& rows[i]->Object_0["costUSD"@] == costs[i]
                }
        }),
{
    reveal_strlit("totals");
    reveal_strlit("daily");
    reveal_strlit("weekly");
    reveal_strlit("monthly");
    reveal_strlit("sessions");
    assert("totals"@[0] == 't' && "weekly"@[0] == 'w');
    assert(report_entries(groups, kind, costs, total_cost).dom() =~= set![
        rows_key_text(kind),
        "totals"@,
    ]);
    let rows = rows_trees(groups, kind, costs);
    assert forall|i: int| #![trigger rows[i]] 0 <= i < rows.len() implies {
        &&& rows[i] is Object
        &&& rows[i]->Object_0.dom() == row_keys(kind)
        &&& rows[i]->Object_0[period_key_text(kind)] == JsonTree::String(groups[i].0)
        &&& rows[i]->Object_0["costUSD"@] == costs[i]
    } by {
        row_holds_its_group(groups[i].0, groups[i].1, kind, costs[i]);
    }
}

/// Directory and file are what stands on either side of the last slash of a session's
/// name; a name without a slash is all file.
pub proof fn session_name_is_directory_and_file(session: Seq<char>)
    ensures
        session.contains('/') ==> session_directory(session) + seq!['/'] + session_file(session)
            == session,
        !session.contains('/') ==> session_directory(session) == Seq::<char>::empty()
            && session_file(session) == session,
        !session_file(session).contains('/'),
{
    session.index_of_last_ensures('/');
    if session.contains('/') {
        assert(session_directory(session) + seq!['/'] + session_file(session) =~= session);
    }
}

/// One count of the totals.
pub open spec fn total_count(totals: UsageTotals, count: Count) -> u64 {
    match count {
        Count::Input => totals.input_tokens,
        Count::CachedInput => totals.cached_input_tokens,
        Count::Output => totals.output_tokens,
        Count::ReasoningOutput => totals.reasoning_output_tokens,
        Count::Total => totals.total_tokens,
    }
}

/// Table and JSON report the same totals.
pub proof fn table_and_json_totals_agree(
    groups: Seq<(Seq<char>, CodexGroup)>,
    total_cost: JsonTree,
    count: Count,
)
    requires
        totals_fit(groups),
    ensures
        totals_entries(groups, total_cost).dom().contains(count_key(count)),
        totals_entries(groups, total_cost)[count_key(count)] == JsonTree::Number(
            total_count(summed(groups), count) as int,
        ),
{
    row_key_shapes();
    sum_over_is_not_negative(groups, count);
    assert(sum_over(groups, count) <= u64::MAX);
}

/// The column of a table that shows a count.
pub open spec fn count_column(count: Count) -> int {
    match count {
        Count::Input => 2,
        Count::Output => 3,
        Count::ReasoningOutput => 4,
        Count::CachedInput => 5,
        Count::Total => 6,
    }
}

/// The token counts in a column of the given rows, added up.
pub open spec fn column_sum(rows: Seq<Vec<Cell>>, column: int) -> int
    decreases rows.len(),
{
    if rows.len() == 0 {
        0
    } else {
        column_sum(rows.drop_last(), column) + match cell_views(rows.last()@)[column] {
            CellView::Tokens(tokens) => tokens as int,
            _ => 0,
        }
    }
}

/// A count added up over groups is the sum of the column of their rows that shows it.
proof fn sum_is_sum_of_column(
    rows: Seq<Vec<Cell>>,
    groups: Seq<(Seq<char>, CodexGroup)>,
    costs: Seq<CostText>,
    no_cost: bool,
    count: Count,
)
    requires
        rows.len() == groups.len(),
        forall|i: int|
            0 <= i < groups.len() ==> cell_views(#[trigger] rows[i]@) == row_views(
                groups[i].0,
                groups[i].1,
                costs[i],
                no_cost,
            ),
    ensures
        sum_over(groups, count) == column_sum(rows, count_column(count)),
    decreases rows.len(),
{
    if rows.len() > 0 {
        let last = rows.len() - 1;
        assert forall|i: int| 0 <= i < groups.drop_last().len() implies cell_views(
            #[trigger] rows.drop_last()[i]@,
        ) == row_views(
            groups.drop_last()[i].0,
            groups.drop_last()[i].1,
            costs[i],
            no_cost,
        ) by {
            assert(rows.drop_last()[i] == rows[i]);
        }
        sum_is_sum_of_column(rows.drop_last(), groups.drop_last(), costs, no_cost, count);
        assert(cell_views(rows[last]@)[count_column(count)] == CellView::Tokens(
            group_count(groups[last].1, count),
        ));
    }
}

/// The row of totals shows, for each count, the sum of the column above it.
pub proof fn total_row_adds_up_its_columns(
    table: CodexTable,
    groups: Seq<(Seq<char>, CodexGroup)>,
    kind: AgentReportKind,
    costs: Seq<CostText>,
    total_cost: CostText,
    no_cost: bool,
    count: Count,
)
    requires
        is_table_of(table, groups, kind, costs, total_cost, no_cost),
        totals_fit(groups),
    ensures
        ({
            let column = count_column(count);
            let sum = column_sum(table.rows@, column);
            &&& 0 <= sum <= u64::MAX
            &&& painted_views(table.total@)[column].0 == CellView::Tokens(sum as u64)
        }),
{
    sum_is_sum_of_column(table.rows@, groups, costs, no_cost, count);
    sum_over_is_not_negative(groups, count);
    assert(sum_over(groups, count) <= u64::MAX);
}

} // verus!
