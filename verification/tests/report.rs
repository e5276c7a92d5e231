use codex_report::billing::ModelCharges;
use codex_report::names::NameMap;
use codex_report::pricing::{Pricing, PricingMap};
use codex_report::report::{
    group_json, model_usage_json, period_key, report_from_groups, report_with_costs, rows_key,
    split_session, totals_json, AgentReportKind,
};
use codex_report::totals::codex_totals;
use codex_report::usage::{
    CodexGroup, CodexModelUsage, CodexServiceTier, CodexSpeedPolicy, CodexUsageBucket,
};
use serde_json::Value;

fn no_bucket() -> CodexUsageBucket {
    CodexUsageBucket {
        input_tokens: 0,
        cached_input_tokens: 0,
        output_tokens: 0,
        long_context_input_tokens: 0,
        long_context_cached_input_tokens: 0,
        long_context_output_tokens: 0,
    }
}

fn usage(input: u64, cached: u64, output: u64) -> CodexModelUsage {
    CodexModelUsage {
        input_tokens: input,
        cached_input_tokens: cached,
        output_tokens: output,
        reasoning_output_tokens: 2,
        total_tokens: input + output,
        is_fallback: true,
        long_context_input_tokens: 0,
        long_context_cached_input_tokens: 0,
        long_context_output_tokens: 0,
        recorded_fast_usage: no_bucket(),
        recorded_standard_usage: no_bucket(),
    }
}

fn group(input: u64, cached: u64, output: u64) -> CodexGroup {
    let mut models = NameMap::new();
    models.insert("gpt-5".to_string(), usage(input, cached, output));
    CodexGroup {
        input_tokens: input,
        cached_input_tokens: cached,
        output_tokens: output,
        reasoning_output_tokens: 2,
        total_tokens: input.saturating_add(output),
        last_activity: Some("2026-01-02T00:00:00.000Z".to_string()),
        models,
    }
}

#[test]
fn keys_follow_the_kind() {
    assert_eq!(rows_key(AgentReportKind::Daily), "daily");
    assert_eq!(rows_key(AgentReportKind::Weekly), "weekly");
    assert_eq!(rows_key(AgentReportKind::Monthly), "monthly");
    assert_eq!(rows_key(AgentReportKind::Session), "sessions");
    assert_eq!(period_key(AgentReportKind::Daily), "date");
    assert_eq!(period_key(AgentReportKind::Weekly), "week");
    assert_eq!(period_key(AgentReportKind::Monthly), "month");
    assert_eq!(period_key(AgentReportKind::Session), "sessionId");
}

#[test]
fn model_usage_is_written_with_non_cached_input() {
    let value = model_usage_json(&usage(10, 4, 5));
    assert_eq!(
        value.to_string(),
        r#"{"cacheCreationTokens":0,"cacheReadTokens":4,"inputTokens":6,"isFallback":true,"outputTokens":5,"reasoningOutputTokens":2,"totalTokens":15}"#
    );
}

#[test]
fn daily_rows_hold_no_session_fields() {
    let row = group_json("2026-01-02", &group(10, 4, 5), AgentReportKind::Daily, Value::from(0.25));
    assert_eq!(row["date"], "2026-01-02");
    assert_eq!(row["inputTokens"], 6);
    assert_eq!(row["cacheCreationTokens"], 0);
    assert_eq!(row["cacheReadTokens"], 4);
    assert_eq!(row["outputTokens"], 5);
    assert_eq!(row["reasoningOutputTokens"], 2);
    assert_eq!(row["totalTokens"], 15);
    assert_eq!(row["costUSD"], 0.25);
    assert_eq!(row["models"]["gpt-5"]["inputTokens"], 6);
    assert_eq!(row.as_object().unwrap().len(), 9);
}

#[test]
fn session_rows_hold_directory_and_file() {
    let session = "project/réseau/session.jsonl";
    let row = group_json(session, &group(1, 0, 0), AgentReportKind::Session, Value::from(1u64));
    assert_eq!(row["sessionId"], session);
    assert_eq!(row["directory"], "project/réseau");
    assert_eq!(row["sessionFile"], "session.jsonl");
    assert_eq!(row["lastActivity"], "2026-01-02T00:00:00.000Z");
    assert_eq!(row.as_object().unwrap().len(), 12);

    let mut idle = group(1, 0, 0);
    idle.last_activity = None;
    let row = group_json("plain", &idle, AgentReportKind::Session, Value::from(1u64));
    assert_eq!(row["directory"], "");
    assert_eq!(row["sessionFile"], "plain");
    assert!(row["lastActivity"].is_null());
}

#[test]
fn sessions_are_split_at_the_last_slash() {
    assert_eq!(split_session("a/b/c"), ("a/b", "c"));
    assert_eq!(split_session("/c"), ("", "c"));
    assert_eq!(split_session("a/"), ("a", ""));
    assert_eq!(split_session("abc"), ("", "abc"));
    assert_eq!(split_session(""), ("", ""));
}

#[test]
fn reports_hold_rows_in_order_and_their_totals() {
    let mut groups = NameMap::new();
    groups.insert("2026-02".to_string(), group(3, 5, 1));
    groups.insert("2026-01".to_string(), group(10, 4, 5));
    let report = report_with_costs(
        &groups,
        AgentReportKind::Monthly,
        vec![Value::from(0.5), Value::from(0.75)],
        Value::from(1.25),
    );
    let rows = report["monthly"].as_array().unwrap();
    assert_eq!(rows.len(), 2);
    assert_eq!(rows[0]["month"], "2026-01");
    assert_eq!(rows[0]["costUSD"], 0.5);
    assert_eq!(rows[1]["month"], "2026-02");
    assert_eq!(rows[1]["inputTokens"], 0);
    assert_eq!(rows[1]["costUSD"], 0.75);
    let totals = &report["totals"];
    assert_eq!(totals["costUSD"], 1.25);
    for key in
        ["inputTokens", "cacheReadTokens", "outputTokens", "reasoningOutputTokens", "totalTokens"]
    {
        let sum: u64 = rows.iter().map(|row| row[key].as_u64().unwrap()).sum();
        assert_eq!(totals[key], sum);
    }
    assert_eq!(totals["inputTokens"], 6);
    assert_eq!(totals["cacheCreationTokens"], 0);
    assert_eq!(report.as_object().unwrap().len(), 2);
}

#[test]
fn reports_without_groups_hold_zero_totals() {
    let groups: NameMap<CodexGroup> = NameMap::new();
    let report =
        report_with_costs(&groups, AgentReportKind::Session, vec![], Value::from(0u64));
    assert_eq!(report["sessions"].as_array().unwrap().len(), 0);
    assert_eq!(report["totals"]["totalTokens"], 0);
    let totals = totals_json(&groups, Value::from(0u64));
    assert_eq!(report["totals"], totals);
}

#[test]
fn totals_are_given_only_where_they_fit() {
    let mut groups = NameMap::new();
    groups.insert("a".to_string(), group(u64::MAX, 0, 0));
    assert_eq!(codex_totals(&groups).unwrap().input_tokens, u64::MAX);
    groups.insert("b".to_string(), group(1, 0, 0));
    assert!(codex_totals(&groups).is_none());
}

#[test]
fn costs_of_a_report_come_from_the_charges() {
    let mut groups = NameMap::new();
    groups.insert("2026-01-02".to_string(), group(100, 0, 10));
    groups.insert("2026-01-03".to_string(), group(50, 0, 0));
    let mut pricing = PricingMap::new();
    pricing.insert(
        "gpt-5".to_string(),
        Pricing {
            input: 0.5,
            output: 2.0,
            cache_read: 0.25,
            cache_read_explicit: true,
            input_above_200k: None,
            output_above_200k: None,
            cache_read_above_200k: None,
            fast_multiplier: 2.0,
        },
    );
    let cost = |charges: &Vec<Option<ModelCharges<f64>>>| {
        let mut sum = 0.0;
        for model in charges.iter().flatten() {
            let input = &model.standard.short_non_cached;
            let output = &model.standard.short_output;
            sum += input.tokens as f64 * input.rate + output.tokens as f64 * output.rate;
        }
        sum
    };
    let report = report_from_groups(
        &groups,
        AgentReportKind::Daily,
        &pricing,
        CodexSpeedPolicy::Forced(CodexServiceTier::Standard),
        |charges: &Vec<Option<ModelCharges<f64>>>| Value::from(cost(charges)),
        |all: &Vec<Vec<Option<ModelCharges<f64>>>>| {
            Value::from(all.iter().map(cost).sum::<f64>())
        },
    );
    assert_eq!(report["daily"][0]["costUSD"], 70.0);
    assert_eq!(report["daily"][1]["costUSD"], 25.0);
    assert_eq!(report["totals"]["costUSD"], 95.0);
}
