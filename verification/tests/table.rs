use codex_report::billing::ModelCharges;
use codex_report::names::NameMap;
use codex_report::pricing::{Pricing, PricingMap};
use codex_report::report::AgentReportKind;
use codex_report::table::{
    codex_cost_cells, codex_table_columns, table_from_groups, table_title, table_with_costs,
    total_row, Align, Cell, CodexTable, Color, CostText,
};
use codex_report::totals::UsageTotals;
use codex_report::usage::{
    CodexGroup, CodexModelUsage, CodexServiceTier, CodexSpeedPolicy, CodexUsageBucket,
};

const USD_PER_CREDIT: f64 = 0.04;

fn cost_text(cost_usd: f64) -> CostText {
    CostText {
        credits: format!("{:.2}", cost_usd / USD_PER_CREDIT),
        usd: format!("${:.2}", cost_usd),
    }
}

fn credit_test_pricing() -> PricingMap<f64> {
    let mut pricing = PricingMap::new();
    pricing.insert(
        "gpt-credit-test".to_string(),
        Pricing {
            input: 0.0004,
            output: 0.0,
            cache_read: 0.0,
            cache_read_explicit: false,
            input_above_200k: None,
            output_above_200k: None,
            cache_read_above_200k: None,
            fast_multiplier: 1.0,
        },
    );
    pricing
}

fn input_cost(charges: &Vec<Option<ModelCharges<f64>>>) -> f64 {
    charges
        .iter()
        .flatten()
        .map(|model| {
            let input = &model.standard.short_non_cached;
            input.tokens as f64 * input.rate
        })
        .sum()
}

fn no_bucket() -> CodexUsageBucket {
    CodexUsageBucket {
        input_tokens: 0,
        cached_input_tokens: 0,
        output_tokens: 0,
        long_context_input_tokens: 0,
        long_context_cached_input_tokens: 0,
        long_context_output_tokens: 0,
    }
}

fn model_usage(input: u64, cached: u64, output: u64) -> CodexModelUsage {
    CodexModelUsage {
        input_tokens: input,
        cached_input_tokens: cached,
        output_tokens: output,
        reasoning_output_tokens: 0,
        total_tokens: input + output,
        is_fallback: false,
        long_context_input_tokens: 0,
        long_context_cached_input_tokens: 0,
        long_context_output_tokens: 0,
        recorded_fast_usage: no_bucket(),
        recorded_standard_usage: no_bucket(),
    }
}

fn group(models: &[&str], input: u64, cached: u64, output: u64, reasoning: u64) -> CodexGroup {
    let mut usages = NameMap::new();
    for model in models {
        usages.insert(model.to_string(), model_usage(input, cached, output));
    }
    CodexGroup {
        input_tokens: input,
        cached_input_tokens: cached,
        output_tokens: output,
        reasoning_output_tokens: reasoning,
        total_tokens: input + output,
        last_activity: None,
        models: usages,
    }
}

fn shown(cell: &Cell) -> String {
    match cell {
        Cell::Text(text) => text.clone(),
        Cell::Models(models) => models.join("\n"),
        Cell::Tokens(tokens) => tokens.to_string(),
    }
}

fn all_texts(table: &CodexTable) -> Vec<String> {
    let mut texts = vec![table.title.clone()];
    texts.extend(table.headers.iter().map(|header| header.to_string()));
    for row in &table.rows {
        texts.extend(row.iter().map(shown));
    }
    texts.extend(table.total.iter().map(|painted| shown(&painted.cell)));
    texts
}

#[test]
fn adds_credits_before_usd_cost_in_codex_tables() {
    let (headers, aligns) = codex_table_columns(AgentReportKind::Daily, false);

    assert_eq!(
        headers,
        vec![
            "Date",
            "Models",
            "Input",
            "Output",
            "Reasoning",
            "Cache Read",
            "Total Tokens",
            "Credits",
            "Cost (USD)",
        ]
    );
    assert_eq!(headers.len(), aligns.len());
    assert_eq!(aligns[7], Align::Right);
}

#[test]
fn formats_codex_cost_cells_in_credit_then_usd_order() {
    assert_eq!(codex_cost_cells(cost_text(0.06), false), vec!["1.50", "$0.06"]);
}

#[test]
fn hides_both_codex_cost_columns_when_no_cost_is_set() {
    let (headers, aligns) = codex_table_columns(AgentReportKind::Daily, true);

    assert_eq!(
        headers,
        vec![
            "Date",
            "Models",
            "Input",
            "Output",
            "Reasoning",
            "Cache Read",
            "Total Tokens",
        ]
    );
    assert_eq!(headers.len(), aligns.len());
    assert!(codex_cost_cells(cost_text(0.04), true).is_empty());
}

#[test]
fn no_cost_hides_codex_credit_and_usd_columns() {
    let mut groups = NameMap::new();
    groups.insert("2026-01-02".to_string(), group(&["gpt-credit-test"], 100, 0, 0, 0));
    let pricing = credit_test_pricing();
    let table = |no_cost| {
        table_from_groups(
            &groups,
            AgentReportKind::Daily,
            &pricing,
            CodexSpeedPolicy::Forced(CodexServiceTier::Standard),
            |charges: &Vec<Option<ModelCharges<f64>>>| cost_text(input_cost(charges)),
            |all: &Vec<Vec<Option<ModelCharges<f64>>>>| {
                cost_text(all.iter().map(input_cost).sum())
            },
            no_cost,
        )
        .unwrap()
    };

    let output = all_texts(&table(true)).join(" ");
    assert!(!output.contains("Credits"));
    assert!(!output.contains("Cost (USD)"));
    assert!(!output.contains("1.00"));
    assert!(!output.contains("$0.04"));

    let output = all_texts(&table(false)).join(" ");
    assert!(output.contains("Credits"));
    assert!(output.contains("Cost (USD)"));
    assert!(output.contains("1.00"));
    assert!(output.contains("$0.04"));
}

#[test]
fn first_column_and_title_name_the_kind() {
    let kinds = [
        (AgentReportKind::Daily, "Date", "Codex Token Usage Report - Daily"),
        (AgentReportKind::Weekly, "Week", "Codex Token Usage Report - Weekly"),
        (AgentReportKind::Monthly, "Month", "Codex Token Usage Report - Monthly"),
        (AgentReportKind::Session, "Session", "Codex Token Usage Report - Session"),
    ];
    for (kind, header, title) in kinds {
        assert_eq!(codex_table_columns(kind, true).0[0], header);
        assert_eq!(table_title(kind), title);
    }
}

#[test]
fn table_has_a_row_for_each_group_and_adds_up_its_columns() {
    let mut groups = NameMap::new();
    groups.insert("2026-01-03".to_string(), group(&["b", "a"], 50, 20, 7, 3));
    groups.insert("2026-01-02".to_string(), group(&["a"], 100, 0, 5, 1));
    let table = table_with_costs(
        &groups,
        AgentReportKind::Daily,
        vec![cost_text(0.04), cost_text(0.08)],
        cost_text(0.12),
        false,
    )
    .unwrap();

    assert_eq!(
        table.rows[0],
        vec![
            Cell::Text("2026-01-02".to_string()),
            Cell::Models(vec!["a".to_string()]),
            Cell::Tokens(100),
            Cell::Tokens(5),
            Cell::Tokens(1),
            Cell::Tokens(0),
            Cell::Tokens(105),
            Cell::Text("1.00".to_string()),
            Cell::Text("$0.04".to_string()),
        ]
    );
    assert_eq!(
        table.rows[1],
        vec![
            Cell::Text("2026-01-03".to_string()),
            Cell::Models(vec!["a".to_string(), "b".to_string()]),
            Cell::Tokens(30),
            Cell::Tokens(7),
            Cell::Tokens(3),
            Cell::Tokens(20),
            Cell::Tokens(57),
            Cell::Text("2.00".to_string()),
            Cell::Text("$0.08".to_string()),
        ]
    );
    let total: Vec<String> = table.total.iter().map(|painted| shown(&painted.cell)).collect();
    assert_eq!(total, vec!["Total", "", "130", "12", "4", "20", "162", "3.00", "$0.12"]);
    for row in &table.rows {
        assert_eq!(row.len(), table.headers.len());
    }
    assert_eq!(table.total.len(), table.headers.len());
    assert_eq!(table.aligns.len(), table.headers.len());
}

#[test]
fn totals_are_yellow_but_for_the_models() {
    let totals = UsageTotals {
        input_tokens: 1,
        cached_input_tokens: 2,
        output_tokens: 3,
        reasoning_output_tokens: 4,
        total_tokens: 5,
    };
    let row = total_row(&totals, cost_text(0.04), false);
    for (column, painted) in row.iter().enumerate() {
        let expected = if column == 1 { None } else { Some(Color::Yellow) };
        assert_eq!(painted.color, expected);
    }
    assert_eq!(row[5].cell, Cell::Tokens(2));
}

#[test]
fn there_is_no_table_without_groups() {
    let groups: NameMap<CodexGroup> = NameMap::new();
    let table =
        table_with_costs(&groups, AgentReportKind::Weekly, vec![], cost_text(0.0), false);
    assert!(table.is_none());
}
