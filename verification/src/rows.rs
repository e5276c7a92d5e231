//! What stands where in the JSON of a report, in terms of the recorded usage alone.
use crate::billing::{
    are_costs_of, charged_if_priced, charges_view, groups_charged, ModelCharges,
};
use crate::json::{json_tree, json_trees, JsonTree};
use crate::names::names_of;
use crate::pricing::Pricing;
use crate::rates::every_model_of_every_group_is_charged;
use crate::report::{
    group_entries, is_report_of, model_usage_tree, models_entries, period_key_text, report_entries, rows_key_text, rows_trees, session_directory, session_file,
    totals_entries, AgentReportKind,
};
use crate::totals::{sum_over, Count};
use crate::usage::{CodexGroup, CodexModelUsage, CodexSpeedPolicy};
use vstd::prelude::*;

verus! {

/// Rows stand under `daily`, `weekly`, `monthly` or `sessions`, and in a row the name of its
/// group under `date`, `week`, `month` or `sessionId`, as the kind of report has it.
pub proof fn keys_follow_the_kind(kind: AgentReportKind)
    ensures
        kind is Daily ==> rows_key_text(kind) == "daily"@ && period_key_text(kind) == "date"@,
        kind is Weekly ==> rows_key_text(kind) == "weekly"@ && period_key_text(kind) == "week"@,
        kind is Monthly ==> rows_key_text(kind) == "monthly"@ && period_key_text(kind)
            == "month"@,
        kind is Session ==> rows_key_text(kind) == "sessions"@ && period_key_text(kind)
            == "sessionId"@,
{
}

/// The lengths of all keys, and the beginnings of those that share one.
proof fn key_shapes()
    ensures
        "date"@.len() == 4,
        "date"@[0] == 'd',
        "week"@.len() == 4,
        "week"@[0] == 'w',
        "month"@.len() == 5,
        "sessionId"@.len() == 9,
        "sessionId"@[0] == 's',
        "inputTokens"@.len() == 11,
        "inputTokens"@[0] == 'i',
        "cacheCreationTokens"@.len() == 19,
        "cacheReadTokens"@.len() == 15,
        "outputTokens"@.len() == 12,
        "outputTokens"@[0] == 'o',
        "reasoningOutputTokens"@.len() == 21,
        "totalTokens"@.len() == 11,
        "totalTokens"@[0] == 't',
        "costUSD"@.len() == 7,
        "models"@.len() == 6,
        "isFallback"@.len() == 10,
        "lastActivity"@.len() == 12,
        "lastActivity"@[0] == 'l',
        "sessionFile"@.len() == 11,
        "sessionFile"@[0] == 's',
        "directory"@.len() == 9,
        "directory"@[0] == 'd',
        "totals"@.len() == 6,
        "totals"@[0] == 't',
        "daily"@.len() == 5,
        "weekly"@.len() == 6,
        "weekly"@[0] == 'w',
        "monthly"@.len() == 7,
        "sessions"@.len() == 8,
{
    reveal_strlit("date");
    reveal_strlit("week");
    reveal_strlit("month");
    reveal_strlit("sessionId");
    reveal_strlit("inputTokens");
    reveal_strlit("cacheCreationTokens");
    reveal_strlit("cacheReadTokens");
    reveal_strlit("outputTokens");
    reveal_strlit("reasoningOutputTokens");
    reveal_strlit("totalTokens");
    reveal_strlit("costUSD");
    reveal_strlit("models");
    reveal_strlit("isFallback");
    reveal_strlit("lastActivity");
    reveal_strlit("sessionFile");
    reveal_strlit("directory");
    reveal_strlit("totals");
    reveal_strlit("daily");
    reveal_strlit("weekly");
    reveal_strlit("monthly");
    reveal_strlit("sessions");
}

/// The usage of a model is written as its seven counts and flags, each under its own key:
/// cached input on its own, and the input without it.
pub proof fn model_usage_is_written_count_by_count(usage: CodexModelUsage)
    ensures
        model_usage_tree(usage) is Object,
        ({
            let written = model_usage_tree(usage)->Object_0;
            &&& written.dom() == set![
                "inputTokens"@,
                "cacheCreationTokens"@,
                "cacheReadTokens"@,
                "outputTokens"@,
                "reasoningOutputTokens"@,
                "totalTokens"@,
                "isFallback"@,
            ]
            &&& written["inputTokens"@] == JsonTree::Number(
                if usage.input_tokens >= usage.cached_input_tokens {
                    usage.input_tokens - usage.cached_input_tokens
                } else {
                    0
                },
            )
            &&& written["cacheCreationTokens"@] == JsonTree::Number(0)
            &&& written["cacheReadTokens"@] == JsonTree::Number(usage.cached_input_tokens as int)
            &&& written["outputTokens"@] == JsonTree::Number(usage.output_tokens as int)
            &&& written["reasoningOutputTokens"@] == JsonTree::Number(
                usage.reasoning_output_tokens as int,
            )
            &&& written["totalTokens"@] == JsonTree::Number(usage.total_tokens as int)
            &&& written["isFallback"@] == JsonTree::Bool(usage.is_fallback)
        }),
{
    key_shapes();
    assert(model_usage_tree(usage)->Object_0.dom() =~= set![
        "inputTokens"@,
        "cacheCreationTokens"@,
        "cacheReadTokens"@,
        "outputTokens"@,
        "reasoningOutputTokens"@,
        "totalTokens"@,
        "isFallback"@,
    ]);
}

/// Where no two models share a name, every model of a group is written under its name with
/// its own usage, and nothing else is written beside them.
pub proof fn every_model_is_written_under_its_name(models: Seq<(Seq<char>, CodexModelUsage)>)
    requires
        forall|i: int, j: int|
            0 <= i < j < models.len() ==> (#[trigger] models[i]).0 != (#[trigger] models[j]).0,
    ensures
        forall|m: int|
            0 <= m < models.len() ==> models_entries(models).dom().contains(
                (#[trigger] models[m]).0,
            ) && models_entries(models)[models[m].0] == model_usage_tree(models[m].1),
        forall|name: Seq<char>| #[trigger]
            models_entries(models).dom().contains(name) ==> exists|m: int|
                0 <= m < models.len() && (#[trigger] models[m]).0 == name,
{
    let names = names_of(models);
    assert forall|m: int| 0 <= m < models.len() implies models_entries(models).dom().contains(
        (#[trigger] models[m]).0,
    ) && models_entries(models)[models[m].0] == model_usage_tree(models[m].1) by {
        let name = models[m].0;
        assert(names[m] == name);
        assert(names.contains(name));
        let k = names.index_of(name);
        assert(models[k].0 == name);
    }
    assert forall|name: Seq<char>| #[trigger]
        models_entries(models).dom().contains(name) implies exists|m: int|
        0 <= m < models.len() && (#[trigger] models[m]).0 == name by {
        let k = names.index_of(name);
        assert(names.contains(name));
        assert(models[k].0 == name);
    }
}

/// A row holds the name of its group under the key of the kind; the counts of the group,
/// each under its own key, with the input without what was cached; its cost; and an object
/// with an entry for each of its models.
pub proof fn row_tells_its_group(
    period: Seq<char>,
    group: CodexGroup,
    kind: AgentReportKind,
    cost: JsonTree,
)
    ensures
        ({
            let row = group_entries(period, group, kind, cost);
            &&& kind is Daily ==> row.dom().contains("date"@) && row["date"@]
                == JsonTree::String(period)
            &&& kind is Weekly ==> row.dom().contains("week"@) && row["week"@]
                == JsonTree::String(period)
            &&& kind is Monthly ==> row.dom().contains("month"@) && row["month"@]
                == JsonTree::String(period)
            &&& kind is Session ==> row.dom().contains("sessionId"@) && row["sessionId"@]
                == JsonTree::String(period)
            &&& row.dom().contains("inputTokens"@)
            &&& row["inputTokens"@] == JsonTree::Number(
                if group.input_tokens >= group.cached_input_tokens {
                    group.input_tokens - group.cached_input_tokens
                } else {
                    0
                },
            )
            &&& row.dom().contains("cacheCreationTokens"@)
            &&& row["cacheCreationTokens"@] == JsonTree::Number(0)
            &&& row.dom().contains("cacheReadTokens"@)
            &&& row["cacheReadTokens"@] == JsonTree::Number(group.cached_input_tokens as int)
            &&& row.dom().contains("outputTokens"@)
            &&& row["outputTokens"@] == JsonTree::Number(group.output_tokens as int)
            &&& row.dom().contains("reasoningOutputTokens"@)
            &&& row["reasoningOutputTokens"@] == JsonTree::Number(
                group.reasoning_output_tokens as int,
            )
            &&& row.dom().contains("totalTokens"@)
            &&& row["totalTokens"@] == JsonTree::Number(group.total_tokens as int)
            &&& row.dom().contains("costUSD"@)
            &&& row["costUSD"@] == cost
            &&& row.dom().contains("models"@)
            &&& row["models"@] == JsonTree::Object(models_entries(group.models@))
        }),
{
    key_shapes();
}

/// In the row of a group stands an object that holds, under the name of each model of the
/// group, an object with the counts of that model's usage; it holds no other key.
pub proof fn row_tells_every_model(
    period: Seq<char>,
    group: CodexGroup,
    kind: AgentReportKind,
    cost: JsonTree,
    m: int,
)
    requires
        0 <= m < group.models@.len(),
        forall|i: int, j: int|
            0 <= i < j < group.models@.len() ==> (#[trigger] group.models@[i]).0 != (
            #[trigger] group.models@[j]).0,
    ensures
        ({
            let models = group_entries(period, group, kind, cost)["models"@];
            let (name, usage) = group.models@[m];
            let written = models->Object_0[name];
            &&& models is Object
            &&& models->Object_0.dom() == Set::new(
                |key: Seq<char>| exists|i: int|
                    0 <= i < group.models@.len() && (#[trigger] group.models@[i]).0 == key,
            )
            &&& models->Object_0.dom().contains(name)
            &&& written is Object
            &&& written->Object_0["inputTokens"@] == JsonTree::Number(
                if usage.input_tokens >= usage.cached_input_tokens {
                    usage.input_tokens - usage.cached_input_tokens
                } else {
                    0
                },
            )
            &&& written->Object_0["cacheReadTokens"@] == JsonTree::Number(
                usage.cached_input_tokens as int,
            )
            &&& written->Object_0["outputTokens"@] == JsonTree::Number(usage.output_tokens as int)
            &&& written->Object_0["reasoningOutputTokens"@] == JsonTree::Number(
                usage.reasoning_output_tokens as int,
            )
            &&& written->Object_0["totalTokens"@] == JsonTree::Number(usage.total_tokens as int)
            &&& written->Object_0["isFallback"@] == JsonTree::Bool(usage.is_fallback)
        }),
{
    row_tells_its_group(period, group, kind, cost);
    every_model_is_written_under_its_name(group.models@);
    model_usage_is_written_count_by_count(group.models@[m].1);
    let entries = models_entries(group.models@);
    assert(entries.dom() =~= Set::new(
        |key: Seq<char>| exists|i: int|
            0 <= i < group.models@.len() && (#[trigger] group.models@[i]).0 == key,
    ));
}

/// The row of a session holds when it was last active, or null where that is not known,
/// and the two parts of its name; a row of another kind holds none of them. No row holds
/// any key but these and those of every row.
pub proof fn only_session_rows_tell_of_a_session(
    period: Seq<char>,
    group: CodexGroup,
    kind: AgentReportKind,
    cost: JsonTree,
)
    ensures
        ({
            let row = group_entries(period, group, kind, cost);
            let common = set![
                period_key_text(kind),
                "inputTokens"@,
                "cacheCreationTokens"@,
                "cacheReadTokens"@,
                "outputTokens"@,
                "reasoningOutputTokens"@,
                "totalTokens"@,
                "costUSD"@,
                "models"@,
            ];
            &&& !(kind is Session) ==> row.dom() == common
            &&& kind is Session ==> row.dom() == common.insert("lastActivity"@).insert(
                "sessionFile"@,
            ).insert("directory"@)
            &&& kind is Session && group.last_activity is None ==> row["lastActivity"@]
                == JsonTree::Null
            &&& kind is Session && group.last_activity is Some ==> row["lastActivity"@]
                == JsonTree::String(group.last_activity->0@)
            &&& kind is Session ==> row["sessionFile"@] == JsonTree::String(session_file(period))
            &&& kind is Session ==> row["directory"@] == JsonTree::String(
                session_directory(period),
            )
        }),
{
    key_shapes();
    let row = group_entries(period, group, kind, cost);
    let common = set![
        period_key_text(kind),
        "inputTokens"@,
        "cacheCreationTokens"@,
        "cacheReadTokens"@,
        "outputTokens"@,
        "reasoningOutputTokens"@,
        "totalTokens"@,
        "costUSD"@,
        "models"@,
    ];
    if kind is Session {
        assert(row.dom() =~= common.insert("lastActivity"@).insert("sessionFile"@).insert(
            "directory"@,
        ));
    } else {
        assert(row.dom() =~= common);
    }
}

/// A directory and a file that are joined by a slash are read back from the name, if the
/// file holds no slash itself; a name without a slash is all file.
pub proof fn session_names_are_read_back(directory: Seq<char>, file: Seq<char>)
    requires
        !file.contains('/'),
    ensures
        session_directory(directory + seq!['/'] + file) == directory,
        session_file(directory + seq!['/'] + file) == file,
        session_directory(file) == Seq::<char>::empty(),
        session_file(file) == file,
{
    let session = directory + seq!['/'] + file;
    session.index_of_last_ensures('/');
    file.index_of_last_ensures('/');
    let at = directory.len() as int;
    assert(session[at] == '/');
    assert(session.contains('/'));
    let slash = session.index_of_last('/')->0;
    if slash > at {
        assert(file[slash - at - 1] == '/');
    }
    assert(session_directory(session) =~= directory);
    assert(session_file(session) =~= file);
}

/// The totals hold the sum of each count under the key that rows hold it under, the total
/// cost, and nothing else.
pub proof fn totals_tell_the_sums(groups: Seq<(Seq<char>, CodexGroup)>, cost: JsonTree)
    ensures
        ({
            let totals = totals_entries(groups, cost);
            &&& totals.dom() == set![
                "inputTokens"@,
                "cacheCreationTokens"@,
                "cacheReadTokens"@,
                "outputTokens"@,
                "reasoningOutputTokens"@,
                "totalTokens"@,
                "costUSD"@,
            ]
            &&& totals["inputTokens"@] == JsonTree::Number(sum_over(groups, Count::Input))
            &&& totals["cacheCreationTokens"@] == JsonTree::Number(0)
            &&& totals["cacheReadTokens"@] == JsonTree::Number(
                sum_over(groups, Count::CachedInput),
            )
            &&& totals["outputTokens"@] == JsonTree::Number(sum_over(groups, Count::Output))
            &&& totals["reasoningOutputTokens"@] == JsonTree::Number(
                sum_over(groups, Count::ReasoningOutput),
            )
            &&& totals["totalTokens"@] == JsonTree::Number(sum_over(groups, Count::Total))
            &&& totals["costUSD"@] == cost
        }),
{
    key_shapes();
    assert(totals_entries(groups, cost).dom() =~= set![
        "inputTokens"@,
        "cacheCreationTokens"@,
        "cacheReadTokens"@,
        "outputTokens"@,
        "reasoningOutputTokens"@,
        "totalTokens"@,
        "costUSD"@,
    ]);
}

/// A report holds, under the key of its kind, a list with the row of each group at its
/// place, and the totals of all groups; nothing else.
pub proof fn report_tells_every_group_and_the_totals(
    groups: Seq<(Seq<char>, CodexGroup)>,
    kind: AgentReportKind,
    costs: Seq<JsonTree>,
    total_cost: JsonTree,
)
    ensures
        ({
            let report = report_entries(groups, kind, costs, total_cost);
            let rows = report[rows_key_text(kind)];
            &&& report.dom() == set![rows_key_text(kind), "totals"@]
            &&& rows is Array
            &&& rows->Array_0.len() == groups.len()
            &&& forall|i: int|
                0 <= i < groups.len() ==> (#[trigger] rows->Array_0[i]) == JsonTree::Object(
                    group_entries(groups[i].0, groups[i].1, kind, costs[i]),
                )
            &&& report["totals"@] == JsonTree::Object(totals_entries(groups, total_cost))
        }),
{
    key_shapes();
    assert(report_entries(groups, kind, costs, total_cost).dom() =~= set![
        rows_key_text(kind),
        "totals"@,
    ]);
    assert(report_entries(groups, kind, costs, total_cost)[rows_key_text(kind)]
        == JsonTree::Array(rows_trees(groups, kind, costs)));
}

/// What the values of a list hold is told value by value.
pub proof fn values_are_told_one_by_one(values: Seq<serde_json::Value>)
    ensures
        json_trees(values).len() == values.len(),
        forall|i: int|
            0 <= i < values.len() ==> (#[trigger] json_trees(values)[i]) == json_tree(values[i]),
{
}

/// In a report the cost of each row is what `cost_of` gives for the charges of all models of
/// that group at the given prices and speed; the total cost is what `total_of` gives for the
/// charges of all groups.
pub proof fn report_costs_come_from_the_charges<
    R,
    F: Fn(&Vec<Option<ModelCharges<R>>>) -> serde_json::Value,
    G: Fn(&Vec<Vec<Option<ModelCharges<R>>>>) -> serde_json::Value,
>(
    value: serde_json::Value,
    groups: Seq<(Seq<char>, CodexGroup)>,
    kind: AgentReportKind,
    prices: Map<Seq<char>, Pricing<R>>,
    speed: CodexSpeedPolicy,
    cost_of: F,
    total_of: G,
)
    requires
        is_report_of(value, groups, kind, prices, speed, cost_of, total_of),
    ensures
        exists|
            charges: Vec<Vec<Option<ModelCharges<R>>>>,
            costs: Seq<serde_json::Value>,
            total_cost: serde_json::Value,
        |
            {
                &&& charges@.len() == groups.len()
                &&& costs.len() == groups.len()
                &&& forall|g: int|
                    0 <= g < groups.len() ==> (#[trigger] charges@[g])@.len()
                        == groups[g].1.models@.len()
                &&& forall|g: int, m: int|
                    0 <= g < groups.len() && 0 <= m < groups[g].1.models@.len()
                        ==> #[trigger] charges@[g]@[m] == charged_if_priced(
                        groups[g].1.models@[m].0,
                        groups[g].1.models@[m].1,
                        prices,
                        speed,
                    )
                &&& forall|g: int|
                    0 <= g < groups.len() ==> call_ensures(
                        cost_of,
                        (&charges@[g],),
                        #[trigger] costs[g],
                    )
                &&& #[trigger] call_ensures(total_of, (&charges,), total_cost)
                &&& json_tree(value) == JsonTree::Object(
                    report_entries(
                        groups,
                        kind,
                        #[trigger] json_trees(costs),
                        json_tree(total_cost),
                    ),
                )
            },
{
    let (charges, costs, total_cost) = choose|
        charges: Vec<Vec<Option<ModelCharges<R>>>>,
        costs: Seq<serde_json::Value>,
        total_cost: serde_json::Value,
    |
        {
            &&& charges_view(charges@) == groups_charged(
                groups,
                prices,
                speed,
            )
            &&& #[trigger] are_costs_of(costs, cost_of, charges@)
            &&& #[trigger] call_ensures(total_of, (&charges,), total_cost)
            &&& json_tree(value) == JsonTree::Object(
                report_entries(groups, kind, json_trees(costs), json_tree(total_cost)),
            )
        };
    let view = charges_view(charges@);
    every_model_of_every_group_is_charged(groups, prices, speed);
    assert(view.len() == charges@.len());
    assert(forall|g: int| 0 <= g < groups.len() ==> view[g] == (#[trigger] charges@[g])@);
    assert forall|g: int, m: int|
        0 <= g < groups.len() && 0 <= m < groups[g].1.models@.len() implies #[trigger] charges@[g]@[m]
        == charged_if_priced(
        groups[g].1.models@[m].0,
        groups[g].1.models@[m].1,
        prices,
        speed,
    ) by {
        assert(view[g][m] == charges@[g]@[m]);
    }
    assert(json_trees(costs).len() == costs.len());
}

} // verus!
