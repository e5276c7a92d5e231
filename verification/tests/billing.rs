use codex_report::billing::{
    codex_bucket_charges, codex_charges, codex_group_charges, codex_model_charges,
    fast_usage_bucket, part_bucket_tokens, BucketCharges, BucketTokens, Charge, ModelCharges,
};
use codex_report::names::{order_text, NameMap, TextOrder};
use codex_report::pricing::{
    codex_missing_pricing_models, codex_model_missing_pricing,
    missing_pricing_model_for_token_total, Pricing, PricingMap,
};
use codex_report::usage::{
    model_usage_bucket, non_cached_input_tokens, subtract_codex_usage_bucket, CodexGroup,
    CodexModelUsage, CodexServiceTier, CodexSpeedPolicy, CodexUsageBucket,
};

fn bucket(counts: [u64; 6]) -> CodexUsageBucket {
    CodexUsageBucket {
        input_tokens: counts[0],
        cached_input_tokens: counts[1],
        output_tokens: counts[2],
        long_context_input_tokens: counts[3],
        long_context_cached_input_tokens: counts[4],
        long_context_output_tokens: counts[5],
    }
}

fn usage(counts: [u64; 6], fast: [u64; 6], standard: [u64; 6]) -> CodexModelUsage {
    CodexModelUsage {
        input_tokens: counts[0],
        cached_input_tokens: counts[1],
        output_tokens: counts[2],
        reasoning_output_tokens: 0,
        total_tokens: counts[0].saturating_add(counts[2]),
        is_fallback: false,
        long_context_input_tokens: counts[3],
        long_context_cached_input_tokens: counts[4],
        long_context_output_tokens: counts[5],
        recorded_fast_usage: bucket(fast),
        recorded_standard_usage: bucket(standard),
    }
}

fn long_pricing() -> Pricing<f64> {
    Pricing {
        input: 2.0,
        output: 8.0,
        cache_read: 0.5,
        cache_read_explicit: true,
        input_above_200k: Some(4.0),
        output_above_200k: Some(12.0),
        cache_read_above_200k: Some(1.0),
        fast_multiplier: 2.5,
    }
}

fn flat_pricing() -> Pricing<f64> {
    Pricing {
        input_above_200k: None,
        output_above_200k: None,
        cache_read_above_200k: None,
        ..long_pricing()
    }
}

fn amount(charge: &Charge<f64>) -> f64 {
    charge.tokens as f64 * charge.rate
}

fn bucket_amount(charges: &BucketCharges<f64>) -> f64 {
    amount(&charges.short_non_cached)
        + amount(&charges.short_cached)
        + amount(&charges.short_output)
        + amount(&charges.long_non_cached)
        + amount(&charges.long_cached)
        + amount(&charges.long_output)
}

fn model_amount(charges: &ModelCharges<f64>) -> f64 {
    let standard = bucket_amount(&charges.standard);
    match &charges.fast {
        Some(fast) => standard + bucket_amount(&fast.charges) * (fast.multiplier - 1.0),
        None => standard,
    }
}

fn group(models: Vec<(&str, CodexModelUsage)>) -> CodexGroup {
    let mut usages = NameMap::new();
    for (name, usage) in models {
        usages.insert(name.to_string(), usage);
    }
    CodexGroup {
        input_tokens: 0,
        cached_input_tokens: 0,
        output_tokens: 0,
        reasoning_output_tokens: 0,
        total_tokens: 0,
        last_activity: None,
        models: usages,
    }
}

#[test]
fn non_cached_input_stops_at_zero() {
    assert_eq!(non_cached_input_tokens(10, 4), 6);
    assert_eq!(non_cached_input_tokens(4, 10), 0);
}

#[test]
fn buckets_are_parted_at_the_long_context() {
    assert_eq!(
        part_bucket_tokens(&bucket([100, 40, 30, 60, 25, 10])),
        BucketTokens {
            short_non_cached: 25,
            short_cached: 15,
            short_output: 20,
            long_non_cached: 35,
            long_cached: 25,
            long_output: 10,
        }
    );
}

#[test]
fn long_context_counts_are_held_within_the_bucket() {
    assert_eq!(
        part_bucket_tokens(&bucket([10, 8, 3, 50, 50, 50])),
        BucketTokens {
            short_non_cached: 0,
            short_cached: 0,
            short_output: 0,
            long_non_cached: 2,
            long_cached: 8,
            long_output: 3,
        }
    );
    assert_eq!(part_bucket_tokens(&bucket([10, 8, 0, 5, 50, 0])).long_cached, 5);
}

#[test]
fn uncached_long_context_can_exceed_the_input() {
    let parts = part_bucket_tokens(&bucket([10, 8, 0, 8, 0, 0]));
    assert_eq!(parts.short_non_cached, 0);
    assert_eq!(parts.long_non_cached, 8);
    assert_eq!(parts.short_cached, 8);
}

#[test]
fn long_context_tokens_are_charged_at_long_context_rates() {
    let charges = codex_bucket_charges(&bucket([100, 40, 30, 60, 25, 10]), &long_pricing());
    assert_eq!(charges.short_non_cached.rate, 2.0);
    assert_eq!(charges.long_non_cached.rate, 4.0);
    assert_eq!(charges.long_cached.rate, 1.0);
    assert_eq!(charges.long_output.rate, 12.0);
    assert_eq!(bucket_amount(&charges), 50.0 + 7.5 + 160.0 + 140.0 + 25.0 + 120.0);
}

#[test]
fn flat_rates_price_long_context_like_the_rest() {
    let long = codex_bucket_charges(&bucket([100, 40, 30, 60, 25, 10]), &flat_pricing());
    let short = codex_bucket_charges(&bucket([100, 40, 30, 0, 0, 0]), &flat_pricing());
    assert_eq!(bucket_amount(&long), bucket_amount(&short));
    assert_eq!(bucket_amount(&long), 60.0 * 2.0 + 40.0 * 0.5 + 30.0 * 8.0);
}

#[test]
fn cached_input_costs_as_input_without_a_price_of_its_own() {
    let pricing = Pricing { cache_read_explicit: false, ..long_pricing() };
    let charges = codex_bucket_charges(&bucket([100, 40, 0, 60, 25, 0]), &pricing);
    assert_eq!(charges.short_cached.rate, 2.0);
    assert_eq!(charges.long_cached.rate, 4.0);
    let pricing = Pricing { cache_read_above_200k: None, ..long_pricing() };
    let charges = codex_bucket_charges(&bucket([100, 40, 0, 60, 25, 0]), &pricing);
    assert_eq!(charges.long_cached.rate, 0.5);
}

#[test]
fn added_up_usage_costs_the_same() {
    let a = codex_bucket_charges(&bucket([100, 40, 30, 60, 25, 10]), &long_pricing());
    let b = codex_bucket_charges(&bucket([50, 10, 5, 20, 5, 5]), &long_pricing());
    let whole = codex_bucket_charges(&bucket([150, 50, 35, 80, 30, 15]), &long_pricing());
    assert_eq!(bucket_amount(&whole), bucket_amount(&a) + bucket_amount(&b));
}

#[test]
fn subtraction_stops_at_zero_in_each_count() {
    let total = bucket([10, 9, 8, 7, 6, 5]);
    assert_eq!(
        subtract_codex_usage_bucket(total, bucket([1, 20, 3, 4, 60, 5])),
        bucket([9, 0, 5, 3, 0, 0])
    );
    assert_eq!(subtract_codex_usage_bucket(total, bucket([0; 6])), total);
    assert_eq!(subtract_codex_usage_bucket(total, total), bucket([0; 6]));
}

#[test]
fn speed_policy_selects_the_fast_tokens() {
    let counts = [10, 4, 6, 0, 0, 0];
    let used = usage(counts, [3, 1, 2, 0, 0, 0], [2, 1, 1, 0, 0, 0]);
    assert_eq!(model_usage_bucket(&used), bucket(counts));
    let standard = CodexServiceTier::Standard;
    let fast = CodexServiceTier::Fast;
    assert_eq!(fast_usage_bucket(&used, CodexSpeedPolicy::Forced(standard)), None);
    assert_eq!(fast_usage_bucket(&used, CodexSpeedPolicy::Forced(fast)), Some(bucket(counts)));
    assert_eq!(
        fast_usage_bucket(&used, CodexSpeedPolicy::Auto(standard)),
        Some(bucket([3, 1, 2, 0, 0, 0]))
    );
    assert_eq!(
        fast_usage_bucket(&used, CodexSpeedPolicy::Auto(fast)),
        Some(bucket([8, 3, 5, 0, 0, 0]))
    );
}

#[test]
fn tiers_set_the_price_of_a_model() {
    let mut pricing = PricingMap::new();
    pricing.insert("gpt-5".to_string(), flat_pricing());
    let used = usage([10, 0, 5, 0, 0, 0], [0; 6], [0; 6]);
    let cost = |speed| model_amount(&codex_model_charges("gpt-5", &used, &pricing, speed).unwrap());
    assert_eq!(cost(CodexSpeedPolicy::Forced(CodexServiceTier::Standard)), 60.0);
    assert_eq!(cost(CodexSpeedPolicy::Forced(CodexServiceTier::Fast)), 150.0);
    assert_eq!(cost(CodexSpeedPolicy::Auto(CodexServiceTier::Standard)), 60.0);
    assert_eq!(cost(CodexSpeedPolicy::Auto(CodexServiceTier::Fast)), 150.0);

    let recorded = usage([10, 0, 5, 0, 0, 0], [4, 0, 1, 0, 0, 0], [6, 0, 4, 0, 0, 0]);
    let cost =
        |speed| model_amount(&codex_model_charges("gpt-5", &recorded, &pricing, speed).unwrap());
    assert_eq!(cost(CodexSpeedPolicy::Auto(CodexServiceTier::Standard)), 84.0);
    assert_eq!(cost(CodexSpeedPolicy::Auto(CodexServiceTier::Fast)), 84.0);

    let standard = usage([10, 0, 5, 0, 0, 0], [0; 6], [10, 0, 5, 0, 0, 0]);
    let charges = codex_model_charges(
        "gpt-5",
        &standard,
        &pricing,
        CodexSpeedPolicy::Auto(CodexServiceTier::Fast),
    );
    assert_eq!(model_amount(&charges.unwrap()), 60.0);
}

#[test]
fn groups_are_charged_by_model_and_unpriced_models_not_at_all() {
    let mut pricing = PricingMap::new();
    pricing.insert("b".to_string(), flat_pricing());
    let group = group(vec![
        ("b", usage([1, 0, 0, 0, 0, 0], [0; 6], [0; 6])),
        ("a", usage([1, 0, 0, 0, 0, 0], [0; 6], [0; 6])),
    ]);
    let charges = codex_group_charges(
        &group,
        &pricing,
        CodexSpeedPolicy::Forced(CodexServiceTier::Standard),
    );
    assert_eq!(charges.len(), 2);
    assert!(charges[0].is_none());
    assert_eq!(model_amount(charges[1].as_ref().unwrap()), 2.0);
}

#[test]
fn groups_cost_the_sum_of_their_priced_models() {
    let mut pricing = PricingMap::new();
    pricing.insert("b".to_string(), flat_pricing());
    pricing.insert("c".to_string(), long_pricing());
    let some = usage([1, 0, 1, 0, 0, 0], [0; 6], [0; 6]);
    let mut groups = NameMap::new();
    groups.insert("1".to_string(), group(vec![("b", some), ("c", some), ("unpriced", some)]));
    groups.insert("2".to_string(), group(vec![("unpriced", some)]));
    groups.insert("3".to_string(), group(vec![("c", some)]));
    let costs: Vec<f64> = codex_charges(
        &groups,
        &pricing,
        CodexSpeedPolicy::Forced(CodexServiceTier::Fast),
    )
    .iter()
    .map(|models| models.iter().flatten().map(model_amount).fold(0.0, |sum, cost| sum + cost))
    .collect();
    assert_eq!(costs, vec![50.0, 0.0, 25.0]);
}

#[test]
fn prices_are_found_by_name() {
    let mut pricing = PricingMap::new();
    assert!(pricing.find("gpt-5").is_none());
    pricing.insert("gpt-5".to_string(), long_pricing());
    pricing.insert("gpt-5".to_string(), flat_pricing());
    assert_eq!(pricing.find("gpt-5").unwrap().input_above_200k, None);
    assert!(pricing.find("gpt-5-mini").is_none());
}

#[test]
fn missing_prices_need_tokens_a_model_and_prices() {
    let mut pricing = PricingMap::new();
    pricing.insert("known".to_string(), flat_pricing());
    let missing = missing_pricing_model_for_token_total;
    assert_eq!(missing(Some("new"), 1, Some(&pricing)), Some("new"));
    assert_eq!(missing(Some("new"), 0, Some(&pricing)), None);
    assert_eq!(missing(Some("known"), 1, Some(&pricing)), None);
    assert_eq!(missing(None, 1, Some(&pricing)), None);
    assert_eq!(missing(Some("new"), 1, None), None);
}

#[test]
fn missing_price_counts_input_and_output_beside_the_total() {
    let pricing: PricingMap<f64> = PricingMap::new();
    let mut used = usage([0; 6], [0; 6], [0; 6]);
    assert!(!codex_model_missing_pricing("new", &used, &pricing));
    used.total_tokens = 1;
    assert!(codex_model_missing_pricing("new", &used, &pricing));
    used.total_tokens = 0;
    used.output_tokens = 1;
    assert!(codex_model_missing_pricing("new", &used, &pricing));
    used.input_tokens = u64::MAX;
    assert!(codex_model_missing_pricing("new", &used, &pricing));
}

#[test]
fn missing_models_are_listed_once_in_order() {
    let mut pricing = PricingMap::new();
    pricing.insert("known".to_string(), flat_pricing());
    let some = usage([1, 0, 0, 0, 0, 0], [0; 6], [0; 6]);
    let none = usage([0; 6], [0; 6], [0; 6]);
    let mut groups = NameMap::new();
    groups.insert("2".to_string(), group(vec![("z", some), ("known", some), ("idle", none)]));
    groups.insert("1".to_string(), group(vec![("z", some), ("a", some), ("Z", some)]));
    assert_eq!(codex_missing_pricing_models(&groups, &pricing), vec!["Z", "a", "z"]);
    pricing.insert("a".to_string(), flat_pricing());
    assert_eq!(codex_missing_pricing_models(&groups, &pricing), vec!["Z", "z"]);
}

#[test]
fn text_is_ordered_as_strings_are() {
    let texts = ["", "a", "ab", "b", "B", "é", "\u{ffff}", "\u{10000}", "a/b"];
    for a in texts {
        for b in texts {
            let expected = if a < b {
                TextOrder::Before
            } else if a == b {
                TextOrder::Same
            } else {
                TextOrder::After
            };
            assert_eq!(order_text(a, b), expected);
        }
    }
}

#[test]
fn name_maps_keep_names_in_order_and_the_last_value() {
    let mut map = NameMap::new();
    assert_eq!(map.insert("b".to_string(), 1), None);
    assert_eq!(map.insert("a".to_string(), 2), None);
    assert_eq!(map.insert("c".to_string(), 3), None);
    assert_eq!(map.insert("b".to_string(), 4), Some(1));
    assert_eq!(map.names(), vec!["a", "b", "c"]);
    assert_eq!(map.len(), 3);
    assert_eq!(map.get("b"), Some(&4));
    assert_eq!(map.get("d"), None);
    assert_eq!(map.name(0), "a");
    assert_eq!(*map.value(2), 3);

    let mut other = NameMap::new();
    other.insert("c".to_string(), 3);
    other.insert("b".to_string(), 4);
    other.insert("a".to_string(), 2);
    assert_eq!(other.names(), map.names());
}
