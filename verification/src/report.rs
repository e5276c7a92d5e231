//! The report as JSON.
use crate::billing::{
    are_costs_of, charges_view, codex_charges, costs_of_groups, groups_charged, ModelCharges,
};
use crate::json::{
    json_array, json_bool, json_entries, json_map_insert, json_map_new, json_null, json_number,
    json_object, json_string, json_tree, json_trees, no_entries, JsonTree,
};
use crate::names::{characters, entries_map, entries_map_one_more, names_of, texts_ascend, NameMap};
use crate::pricing::{Pricing, PricingMap};
use crate::totals::{codex_totals, sum_over, totals_fit, Count};
use crate::usage::{
    non_cached_input_tokens, tokens_without, CodexGroup, CodexModelUsage, CodexSpeedPolicy,
};
use vstd::prelude::*;

verus! {

/// What the groups of a report are.
#[derive(Clone, Copy, Debug, PartialEq, Eq, Structural)]
pub enum AgentReportKind {
    Daily,
    Weekly,
    Monthly,
    Session,
}

/// The key under which a report holds its rows.
pub open spec fn rows_key_text(kind: AgentReportKind) -> Seq<char> {
    match kind {
        AgentReportKind::Daily => "daily"@,
        AgentReportKind::Weekly => "weekly"@,
        AgentReportKind::Monthly => "monthly"@,
        AgentReportKind::Session => "sessions"@,
    }
}

/// The key under which a report holds its rows.
pub fn rows_key(kind: AgentReportKind) -> (key: &'static str)
    ensures
        key@ == rows_key_text(kind),
{
    match kind {
        AgentReportKind::Daily => "daily",
        AgentReportKind::Weekly => "weekly",
        AgentReportKind::Monthly => "monthly",
        AgentReportKind::Session => "sessions",
    }
}

/// The key under which a row holds the name of its group.
pub open spec fn period_key_text(kind: AgentReportKind) -> Seq<char> {
    match kind {
        AgentReportKind::Daily => "date"@,
        AgentReportKind::Weekly => "week"@,
        AgentReportKind::Monthly => "month"@,
        AgentReportKind::Session => "sessionId"@,
    }
}

/// The key under which a row holds the name of its group.
pub fn period_key(kind: AgentReportKind) -> (key: &'static str)
    ensures
        key@ == period_key_text(kind),
{
    match kind {
        AgentReportKind::Daily => "date",
        AgentReportKind::Weekly => "week",
        AgentReportKind::Monthly => "month",
        AgentReportKind::Session => "sessionId",
    }
}

/// The usage of a model, as it stands in a row.
pub open spec fn model_usage_tree(usage: CodexModelUsage) -> JsonTree {
    JsonTree::Object(
        map![
            "inputTokens"@ => JsonTree::Number(
                tokens_without(usage.input_tokens, usage.cached_input_tokens) as int,
            ),
            "cacheCreationTokens"@ => JsonTree::Number(0),
            "cacheReadTokens"@ => JsonTree::Number(usage.cached_input_tokens as int),
            "outputTokens"@ => JsonTree::Number(usage.output_tokens as int),
            "reasoningOutputTokens"@ => JsonTree::Number(usage.reasoning_output_tokens as int),
            "totalTokens"@ => JsonTree::Number(usage.total_tokens as int),
            "isFallback"@ => JsonTree::Bool(usage.is_fallback),
        ],
    )
}

/// Writes the usage of a model as it stands in a row.
pub fn model_usage_json(usage: &CodexModelUsage) -> (value: serde_json::Value)
    ensures
        json_tree(value) == model_usage_tree(*usage),
{
    let input: u64 = non_cached_input_tokens(usage.input_tokens, usage.cached_input_tokens);
    let mut object = json_map_new();
    json_map_insert(&mut object, "inputTokens", json_number(input));
    json_map_insert(&mut object, "cacheCreationTokens", json_number(0));
    json_map_insert(&mut object, "cacheReadTokens", json_number(usage.cached_input_tokens));
    json_map_insert(&mut object, "outputTokens", json_number(usage.output_tokens));
    json_map_insert(
        &mut object,
        "reasoningOutputTokens",
        json_number(usage.reasoning_output_tokens),
    );
    json_map_insert(&mut object, "totalTokens", json_number(usage.total_tokens));
    json_map_insert(&mut object, "isFallback", json_bool(usage.is_fallback));
    json_object(object)
}

/// The models of a group as they stand in its row: the usage of each under its name.
pub open spec fn models_entries(
    models: Seq<(Seq<char>, CodexModelUsage)>,
) -> Map<Seq<char>, JsonTree> {
    Map::new(
        |name: Seq<char>| names_of(models).contains(name),
        |name: Seq<char>| model_usage_tree(entries_map(models)[name]),
    )
}

/// Writes the models of a group as they stand in its row.
fn models_json(models: &NameMap<CodexModelUsage>) -> (value: serde_json::Value)
    ensures
        json_tree(value) == JsonTree::Object(models_entries(models@)),
{
    let mut object = json_map_new();
    let count: usize = models.len();
    assert(models_entries(models@.take(0)) =~= no_entries());
    for i in 0..count
        invariant
            count == models@.len(),
            json_entries(object) == models_entries(models@.take(i as int)),
    {
        let name = models.name(i);
        let usage = models.value(i);
        json_map_insert(&mut object, name.as_str(), model_usage_json(usage));
        proof {
            entries_map_one_more(models@, i as int);
            let fewer = entries_map(models@.take(i as int));
            let more = entries_map(models@.take(i + 1));
            assert(forall|name: Seq<char>|
                #![trigger names_of(models@.take(i + 1)).contains(name)]
                names_of(models@.take(i + 1)).contains(name) == more.dom().contains(name));
            assert(forall|name: Seq<char>|
                #![trigger names_of(models@.take(i as int)).contains(name)]
                names_of(models@.take(i as int)).contains(name) == fewer.dom().contains(name));
            assert(json_entries(object) =~= models_entries(models@.take(i + 1)));
        }
    }
    assert(models@.take(count as int) =~= models@);
    json_object(object)
}

/// The part of a session's name before its last slash, which is empty without one.
pub open spec fn session_directory(session: Seq<char>) -> Seq<char> {
    match session.index_of_last('/') {
        Some(slash) => session.take(slash),
        None => Seq::empty(),
    }
}

/// The part of a session's name after its last slash, which is all of it without one.
pub open spec fn session_file(session: Seq<char>) -> Seq<char> {
    match session.index_of_last('/') {
        Some(slash) => session.skip(slash + 1),
        None => session,
    }
}

/// Parts the name of a session into its directory and its file.
pub fn split_session<'a>(session: &'a str) -> (parts: (&'a str, &'a str))
    ensures
        parts.0@ == session_directory(session@),
        parts.1@ == session_file(session@),
{
    let text = characters(session);
    let len: usize = text.len();
    let mut rest: usize = len;
    proof {
        session@.index_of_last_ensures('/');
    }
    while rest > 0
        invariant
            text@ == session@,
            len == session@.len(),
            rest <= len,
            forall|i: int| rest <= i < len ==> session@[i] != '/',
            match session@.index_of_last('/') {
                Some(slash) => 0 <= slash < len && session@[slash] == '/' && forall|i: int|
                    slash < i < len ==> session@[i] != '/',
                None => !session@.contains('/'),
            },
        decreases rest,
    {
        if text[rest - 1] == '/' {
            return (session.substring_char(0, rest - 1), session.substring_char(rest, len));
        }
        rest -= 1;
    }
    (session.substring_char(0, 0), session.substring_char(0, len))
}

/// A time that may not be known, as it stands in a row.
pub open spec fn optional_text_tree(text: Option<String>) -> JsonTree {
    match text {
        Some(text) => JsonTree::String(text@),
        None => JsonTree::Null,
    }
}

/// The entries of the row of a group.
pub open spec fn group_entries(
    period: Seq<char>,
    group: CodexGroup,
    kind: AgentReportKind,
    cost: JsonTree,
) -> Map<Seq<char>, JsonTree> {
    let entries = map![
        period_key_text(kind) => JsonTree::String(period),
        "inputTokens"@ => JsonTree::Number(
            tokens_without(group.input_tokens, group.cached_input_tokens) as int,
        ),
        "cacheCreationTokens"@ => JsonTree::Number(0),
        "cacheReadTokens"@ => JsonTree::Number(group.cached_input_tokens as int),
        "outputTokens"@ => JsonTree::Number(group.output_tokens as int),
        "reasoningOutputTokens"@ => JsonTree::Number(group.reasoning_output_tokens as int),
        "totalTokens"@ => JsonTree::Number(group.total_tokens as int),
        "costUSD"@ => cost,
        "models"@ => JsonTree::Object(models_entries(group.models@)),
    ];
    if kind == AgentReportKind::Session {
        entries.insert("lastActivity"@, optional_text_tree(group.last_activity)).insert(
            "sessionFile"@,
            JsonTree::String(session_file(period)),
        ).insert("directory"@, JsonTree::String(session_directory(period)))
    } else {
        entries
    }
}

/// Writes the row of a group, with what the group costs.
pub fn group_json(
    period: &str,
    group: &CodexGroup,
    kind: AgentReportKind,
    cost: serde_json::Value,
) -> (value: serde_json::Value)
    ensures
        json_tree(value) == JsonTree::Object(
            group_entries(period@, *group, kind, json_tree(cost)),
        ),
{
    let input: u64 = non_cached_input_tokens(group.input_tokens, group.cached_input_tokens);
    let mut row = json_map_new();
    json_map_insert(&mut row, period_key(kind), json_string(period));
    json_map_insert(&mut row, "inputTokens", json_number(input));
    json_map_insert(&mut row, "cacheCreationTokens", json_number(0));
    json_map_insert(&mut row, "cacheReadTokens", json_number(group.cached_input_tokens));
    json_map_insert(&mut row, "outputTokens", json_number(group.output_tokens));
    json_map_insert(
        &mut row,
        "reasoningOutputTokens",
        json_number(group.reasoning_output_tokens),
    );
    json_map_insert(&mut row, "totalTokens", json_number(group.total_tokens));
    json_map_insert(&mut row, "costUSD", cost);
    json_map_insert(&mut row, "models", models_json(&group.models));
    if kind == AgentReportKind::Session {
        let last_activity = match &group.last_activity {
            Some(text) => json_string(text.as_str()),
            None => json_null(),
        };
        json_map_insert(&mut row, "lastActivity", last_activity);
        let (directory, file) = split_session(period);
        json_map_insert(&mut row, "sessionFile", json_string(file));
        json_map_insert(&mut row, "directory", json_string(directory));
    }
    json_object(row)
}

/// The totals of a report.
pub open spec fn totals_entries(
    groups: Seq<(Seq<char>, CodexGroup)>,
    cost: JsonTree,
) -> Map<Seq<char>, JsonTree> {
    map![
        "inputTokens"@ => JsonTree::Number(sum_over(groups, Count::Input)),
        "cacheCreationTokens"@ => JsonTree::Number(0),
        "cacheReadTokens"@ => JsonTree::Number(sum_over(groups, Count::CachedInput)),
        "outputTokens"@ => JsonTree::Number(sum_over(groups, Count::Output)),
        "reasoningOutputTokens"@ => JsonTree::Number(sum_over(groups, Count::ReasoningOutput)),
        "totalTokens"@ => JsonTree::Number(sum_over(groups, Count::Total)),
        "costUSD"@ => cost,
    ]
}

/// Writes the totals of all groups, with what they cost together.
pub fn totals_json(
    groups: &NameMap<CodexGroup>,
    cost: serde_json::Value,
) -> (value: serde_json::Value)
    requires
        totals_fit(groups@),
    ensures
        json_tree(value) == JsonTree::Object(totals_entries(groups@, json_tree(cost))),
{
    let totals = codex_totals(groups).unwrap();
    let mut object = json_map_new();
    json_map_insert(&mut object, "inputTokens", json_number(totals.input_tokens));
    json_map_insert(&mut object, "cacheCreationTokens", json_number(0));
    json_map_insert(&mut object, "cacheReadTokens", json_number(totals.cached_input_tokens));
    json_map_insert(&mut object, "outputTokens", json_number(totals.output_tokens));
    json_map_insert(
        &mut object,
        "reasoningOutputTokens",
        json_number(totals.reasoning_output_tokens),
    );
    json_map_insert(&mut object, "totalTokens", json_number(totals.total_tokens));
    json_map_insert(&mut object, "costUSD", cost);
    json_object(object)
}

/// The rows of a report: one for each group, in the order of their names.
pub open spec fn rows_trees(
    groups: Seq<(Seq<char>, CodexGroup)>,
    kind: AgentReportKind,
    costs: Seq<JsonTree>,
) -> Seq<JsonTree> {
    Seq::new(
        groups.len(),
        |i: int| JsonTree::Object(group_entries(groups[i].0, groups[i].1, kind, costs[i])),
    )
}

/// The entries of a report.
pub open spec fn report_entries(
    groups: Seq<(Seq<char>, CodexGroup)>,
    kind: AgentReportKind,
    costs: Seq<JsonTree>,
    total_cost: JsonTree,
) -> Map<Seq<char>, JsonTree> {
    map![
        rows_key_text(kind) => JsonTree::Array(rows_trees(groups, kind, costs)),
        "totals"@ => JsonTree::Object(totals_entries(groups, total_cost)),
    ]
}

/// Writes a report: a row for each group, with what that group costs, and the totals,
/// with what all groups cost together.
pub fn report_with_costs(
    groups: &NameMap<CodexGroup>,
    kind: AgentReportKind,
    costs: Vec<serde_json::Value>,
    total_cost: serde_json::Value,
) -> (value: serde_json::Value)
    requires
        costs@.len() == groups@.len(),
        totals_fit(groups@),
    ensures
        json_tree(value) == JsonTree::Object(
            report_entries(groups@, kind, json_trees(costs@), json_tree(total_cost)),
        ),
        // so the rows stand in ascending order of the names of their groups
        texts_ascend(names_of(groups@)),
{
    let ghost prices = costs@;
    let mut rows: Vec<serde_json::Value> = Vec::new();
    let count: usize = groups.len();
    let mut i: usize = 0;
    for cost in iter: costs
        invariant
            count == groups@.len(),
            prices.len() == groups@.len(),
            iter.seq() == prices,
            i == iter.index(),
            json_trees(rows@) == rows_trees(groups@, kind, json_trees(prices)).take(i as int),
    {
        let ghost written = rows@;
        rows.push(group_json(groups.name(i).as_str(), groups.value(i), kind, cost));
        assert(json_trees(rows@) =~= json_trees(written).push(json_tree(rows@.last())));
        i += 1;
    }
    assert(json_trees(rows@) =~= rows_trees(groups@, kind, json_trees(prices)));
    let totals = totals_json(groups, total_cost);
    let mut report = json_map_new();
    json_map_insert(&mut report, rows_key(kind), json_array(rows));
    json_map_insert(&mut report, "totals", totals);
    json_object(report)
}

/// Whether a value is the report of the given groups at the given prices: the cost in each
/// row is one that `cost_of` gives for the charges of its group, and the total cost one
/// that `total_of` gives for the charges of all groups.
pub open spec fn is_report_of<
    R,
    F: Fn(&Vec<Option<ModelCharges<R>>>) -> serde_json::Value,
    G: Fn(&Vec<Vec<Option<ModelCharges<R>>>>) -> serde_json::Value,
>(
    value: serde_json::Value,
    groups: Seq<(Seq<char>, CodexGroup)>,
    kind: AgentReportKind,
    prices: Map<Seq<char>, Pricing<R>>,
    speed: CodexSpeedPolicy,
    cost_of: F,
    total_of: G,
) -> bool {
    exists|
        charges: Vec<Vec<Option<ModelCharges<R>>>>,
        costs: Seq<serde_json::Value>,
        total_cost: serde_json::Value,
    |
        {
            &&& charges_view(charges@) == groups_charged(groups, prices, speed)
            &&& #[trigger] are_costs_of(costs, cost_of, charges@)
            &&& #[trigger] call_ensures(total_of, (&charges,), total_cost)
            &&& json_tree(value) == JsonTree::Object(
                report_entries(groups, kind, json_trees(costs), json_tree(total_cost)),
            )
        }
}

/// Writes the report of the given groups at the given prices. How charges become costs is
/// up to the caller.
pub fn report_from_groups<
    R: Copy,
    F: Fn(&Vec<Option<ModelCharges<R>>>) -> serde_json::Value,
    G: Fn(&Vec<Vec<Option<ModelCharges<R>>>>) -> serde_json::Value,
>(
    groups: &NameMap<CodexGroup>,
    kind: AgentReportKind,
    pricing: &PricingMap<R>,
    speed: CodexSpeedPolicy,
    cost_of: F,
    total_of: G,
) -> (value: serde_json::Value)
    requires
        totals_fit(groups@),
        forall|group: &Vec<Option<ModelCharges<R>>>| call_requires(cost_of, (group,)),
        forall|all: &Vec<Vec<Option<ModelCharges<R>>>>| call_requires(total_of, (all,)),
    ensures
        is_report_of(value, groups@, kind, pricing@, speed, cost_of, total_of),
        // so the rows stand in ascending order of the names of their groups
        texts_ascend(names_of(groups@)),
{
    let charges = codex_charges(groups, pricing, speed);
    let costs = costs_of_groups(&charges, &cost_of);
    let total_cost = total_of(&charges);
    assert(charges_view(charges@).len() == groups@.len());
    let ghost (given, total) = (costs@, total_cost);
    let value = report_with_costs(groups, kind, costs, total_cost);
    assert(are_costs_of(given, cost_of, charges@) && call_ensures(total_of, (&charges,), total));
    value
}

} // verus!
