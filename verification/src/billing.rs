//! Which tokens are charged at which rate.
//!
//! A charge is a number of tokens and the rate of each. Rates are of whatever type the
//! caller counts money in; what follows only chooses among them. The cost of a bucket is
//! the sum of its charges, in the order of the fields of [`BucketCharges`].
use crate::names::NameMap;
use crate::pricing::{Pricing, PricingMap};
use crate::usage::{
    bucket_of_model, bucket_without, model_usage_bucket, subtract_codex_usage_bucket,
    tokens_without, CodexGroup, CodexModelUsage, CodexServiceTier, CodexSpeedPolicy,
    CodexUsageBucket,
};
use vstd::prelude::*;

verus! {

/// The tokens of a bucket, parted by what is charged for them.
#[derive(Clone, Copy, Debug, PartialEq, Eq, Structural)]
pub struct BucketTokens {
    pub short_non_cached: u64,
    pub short_cached: u64,
    pub short_output: u64,
    pub long_non_cached: u64,
    pub long_cached: u64,
    pub long_output: u64,
}

/// The smaller of two counts.
pub open spec fn smaller(a: u64, b: u64) -> u64 {
    if a <= b {
        a
    } else {
        b
    }
}

/// The long-context input of a bucket, which is at most its input.
pub open spec fn long_input(bucket: CodexUsageBucket) -> u64 {
    smaller(bucket.long_context_input_tokens, bucket.input_tokens)
}

/// The long-context cached input of a bucket, which is at most its cached input and at
/// most its long-context input.
pub open spec fn long_cached(bucket: CodexUsageBucket) -> u64 {
    smaller(
        smaller(bucket.long_context_cached_input_tokens, bucket.cached_input_tokens),
        long_input(bucket),
    )
}

/// The long-context output of a bucket, which is at most its output.
pub open spec fn long_output(bucket: CodexUsageBucket) -> u64 {
    smaller(bucket.long_context_output_tokens, bucket.output_tokens)
}

/// The input of a bucket outside long-context requests.
pub open spec fn short_input(bucket: CodexUsageBucket) -> u64 {
    (bucket.input_tokens - long_input(bucket)) as u64
}

/// The cached input of a bucket outside long-context requests.
pub open spec fn short_cached(bucket: CodexUsageBucket) -> u64 {
    (bucket.cached_input_tokens - long_cached(bucket)) as u64
}

/// How the tokens of a bucket are parted: every token of a long-context request on one
/// side, the rest on the other.
pub open spec fn parted(bucket: CodexUsageBucket) -> BucketTokens {
    BucketTokens {
        short_non_cached: tokens_without(short_input(bucket), short_cached(bucket)),
        short_cached: short_cached(bucket),
        short_output: (bucket.output_tokens - long_output(bucket)) as u64,
        long_non_cached: (long_input(bucket) - long_cached(bucket)) as u64,
        long_cached: long_cached(bucket),
        long_output: long_output(bucket),
    }
}

/// Parts the tokens of a bucket by what is charged for them.
pub fn part_bucket_tokens(usage: &CodexUsageBucket) -> (tokens: BucketTokens)
    ensures
        tokens == parted(*usage),
{
    let long_input: u64 = if usage.long_context_input_tokens <= usage.input_tokens {
        usage.long_context_input_tokens
    } else {
        usage.input_tokens
    };
    let mut long_cached: u64 = if usage.long_context_cached_input_tokens
        <= usage.cached_input_tokens {
        usage.long_context_cached_input_tokens
    } else {
        usage.cached_input_tokens
    };
    if long_input < long_cached {
        long_cached = long_input;
    }
    let long_output: u64 = if usage.long_context_output_tokens <= usage.output_tokens {
        usage.long_context_output_tokens
    } else {
        usage.output_tokens
    };
    let short_cached: u64 = usage.cached_input_tokens - long_cached;
    BucketTokens {
        short_non_cached: (usage.input_tokens - long_input).saturating_sub(short_cached),
        short_cached,
        short_output: usage.output_tokens - long_output,
        long_non_cached: long_input - long_cached,
        long_cached,
        long_output,
    }
}

/// A number of tokens and the rate that is charged for each.
#[derive(Debug)]
pub struct Charge<R> {
    pub tokens: u64,
    pub rate: R,
}

/// What is charged for a bucket.
#[derive(Debug)]
pub struct BucketCharges<R> {
    pub short_non_cached: Charge<R>,
    pub short_cached: Charge<R>,
    pub short_output: Charge<R>,
    pub long_non_cached: Charge<R>,
    pub long_cached: Charge<R>,
    pub long_output: Charge<R>,
}

/// The rate of a cached token: that of any input token unless there is one of its own.
pub open spec fn cached_rate<R>(pricing: Pricing<R>) -> R {
    if pricing.cache_read_explicit {
        pricing.cache_read
    } else {
        pricing.input
    }
}

/// The given long-context rate, or the flat rate of a model that has none.
pub open spec fn long_rate<R>(above: Option<R>, flat: R) -> R {
    match above {
        Some(rate) => rate,
        None => flat,
    }
}

/// The rate of a cached token of a long-context request.
pub open spec fn long_cached_rate<R>(pricing: Pricing<R>) -> R {
    if pricing.cache_read_explicit {
        long_rate(pricing.cache_read_above_200k, pricing.cache_read)
    } else {
        long_rate(pricing.input_above_200k, pricing.input)
    }
}

/// What is charged for a bucket at the given prices.
pub open spec fn bucket_charged<R>(
    bucket: CodexUsageBucket,
    pricing: Pricing<R>,
) -> BucketCharges<R> {
    let tokens = parted(bucket);
    BucketCharges {
        short_non_cached: Charge { tokens: tokens.short_non_cached, rate: pricing.input },
        short_cached: Charge { tokens: tokens.short_cached, rate: cached_rate(pricing) },
        short_output: Charge { tokens: tokens.short_output, rate: pricing.output },
        long_non_cached: Charge {
            tokens: tokens.long_non_cached,
            rate: long_rate(pricing.input_above_200k, pricing.input),
        },
        long_cached: Charge { tokens: tokens.long_cached, rate: long_cached_rate(pricing) },
        long_output: Charge {
            tokens: tokens.long_output,
            rate: long_rate(pricing.output_above_200k, pricing.output),
        },
    }
}

/// Chooses what is charged for each token of a bucket.
///
/// Every token of a long-context request is charged at the long-context rates, so the
/// usage is charged as two independent parts. A model without long-context rates is
/// charged at its flat rates, which keeps both parts at the same price.
pub fn codex_bucket_charges<R: Copy>(
    usage: &CodexUsageBucket,
    pricing: &Pricing<R>,
) -> (charges: BucketCharges<R>)
    ensures
        charges == bucket_charged(*usage, *pricing),
{
    let cache_read: R = if pricing.cache_read_explicit {
        pricing.cache_read
    } else {
        pricing.input
    };
    let long_input_rate: R = match pricing.input_above_200k {
        Some(rate) => rate,
        None => pricing.input,
    };
    let long_output_rate: R = match pricing.output_above_200k {
        Some(rate) => rate,
        None => pricing.output,
    };
    let long_cache_read: R = if pricing.cache_read_explicit {
        match pricing.cache_read_above_200k {
            Some(rate) => rate,
            None => cache_read,
        }
    } else {
        long_input_rate
    };
    let tokens = part_bucket_tokens(usage);
    BucketCharges {
        short_non_cached: Charge { tokens: tokens.short_non_cached, rate: pricing.input },
        short_cached: Charge { tokens: tokens.short_cached, rate: cache_read },
        short_output: Charge { tokens: tokens.short_output, rate: pricing.output },
        long_non_cached: Charge { tokens: tokens.long_non_cached, rate: long_input_rate },
        long_cached: Charge { tokens: tokens.long_cached, rate: long_cache_read },
        long_output: Charge { tokens: tokens.long_output, rate: long_output_rate },
    }
}

/// What the fast tier adds: the charges of the tokens that it served, times the
/// multiplier less one.
#[derive(Debug)]
pub struct FastSurcharge<R> {
    pub charges: BucketCharges<R>,
    pub multiplier: R,
}

/// What is charged for a model: all its tokens at standard rates, and what the fast
/// tier adds.
#[derive(Debug)]
pub struct ModelCharges<R> {
    pub standard: BucketCharges<R>,
    pub fast: Option<FastSurcharge<R>>,
}

/// The tokens of a model that count as served at the fast tier. Where every request is
/// held to be standard none are asked for.
pub open spec fn fast_tokens(
    usage: CodexModelUsage,
    speed: CodexSpeedPolicy,
) -> Option<CodexUsageBucket> {
    match speed {
        CodexSpeedPolicy::Forced(CodexServiceTier::Standard) => None,
        CodexSpeedPolicy::Forced(CodexServiceTier::Fast) => Some(bucket_of_model(usage)),
        CodexSpeedPolicy::Auto(CodexServiceTier::Standard) => Some(usage.recorded_fast_usage),
        CodexSpeedPolicy::Auto(CodexServiceTier::Fast) => Some(
            bucket_without(bucket_of_model(usage), usage.recorded_standard_usage),
        ),
    }
}

/// The tokens of a model that count as served at the fast tier.
pub fn fast_usage_bucket(
    usage: &CodexModelUsage,
    speed: CodexSpeedPolicy,
) -> (fast: Option<CodexUsageBucket>)
    ensures
        fast == fast_tokens(*usage, speed),
{
    match speed {
        CodexSpeedPolicy::Forced(CodexServiceTier::Standard) => None,
        CodexSpeedPolicy::Forced(CodexServiceTier::Fast) => Some(model_usage_bucket(usage)),
        CodexSpeedPolicy::Auto(CodexServiceTier::Standard) => Some(usage.recorded_fast_usage),
        CodexSpeedPolicy::Auto(CodexServiceTier::Fast) => Some(
            subtract_codex_usage_bucket(model_usage_bucket(usage), usage.recorded_standard_usage),
        ),
    }
}

/// What is charged for a model at the given prices.
pub open spec fn model_charged<R>(
    usage: CodexModelUsage,
    pricing: Pricing<R>,
    speed: CodexSpeedPolicy,
) -> ModelCharges<R> {
    ModelCharges {
        standard: bucket_charged(bucket_of_model(usage), pricing),
        fast: match fast_tokens(usage, speed) {
            Some(bucket) => Some(
                FastSurcharge {
                    charges: bucket_charged(bucket, pricing),
                    multiplier: pricing.fast_multiplier,
                },
            ),
            None => None,
        },
    }
}

/// What is charged for a model, if its price is known; nothing otherwise.
pub open spec fn charged_if_priced<R>(
    model: Seq<char>,
    usage: CodexModelUsage,
    prices: Map<Seq<char>, Pricing<R>>,
    speed: CodexSpeedPolicy,
) -> Option<ModelCharges<R>> {
    if prices.dom().contains(model) {
        Some(model_charged(usage, prices[model], speed))
    } else {
        None
    }
}

/// Chooses what is charged for the tokens of a model. A model whose price is not known
/// is charged nothing.
pub fn codex_model_charges<R: Copy>(
    model: &str,
    usage: &CodexModelUsage,
    pricing: &PricingMap<R>,
    speed: CodexSpeedPolicy,
) -> (charges: Option<ModelCharges<R>>)
    ensures
        charges == charged_if_priced(model@, *usage, pricing@, speed),
{
    match pricing.find(model) {
        None => None,
        Some(pricing) => {
            let standard = codex_bucket_charges(&model_usage_bucket(usage), pricing);
            let fast = match fast_usage_bucket(usage, speed) {
                None => None,
                Some(bucket) => Some(
                    FastSurcharge {
                        charges: codex_bucket_charges(&bucket, pricing),
                        multiplier: pricing.fast_multiplier,
                    },
                ),
            };
            Some(ModelCharges { standard, fast })
        },
    }
}

/// What is charged for each model of a group, in the order of the models' names.
pub open spec fn group_charged<R>(
    models: Seq<(Seq<char>, CodexModelUsage)>,
    prices: Map<Seq<char>, Pricing<R>>,
    speed: CodexSpeedPolicy,
) -> Seq<Option<ModelCharges<R>>> {
    Seq::new(
        models.len(),
        |i: int| charged_if_priced(models[i].0, models[i].1, prices, speed),
    )
}

/// Chooses what is charged for each model of a group. The cost of the group is the sum
/// over its models.
pub fn codex_group_charges<R: Copy>(
    group: &CodexGroup,
    pricing: &PricingMap<R>,
    speed: CodexSpeedPolicy,
) -> (charges: Vec<Option<ModelCharges<R>>>)
    ensures
        charges@ == group_charged(group.models@, pricing@, speed),
{
    let mut charges: Vec<Option<ModelCharges<R>>> = Vec::new();
    let count: usize = group.models.len();
    for i in 0..count
        invariant
            count == group.models@.len(),
            charges@ == group_charged(group.models@, pricing@, speed).take(i as int),
    {
        let model = group.models.name(i);
        let usage = group.models.value(i);
        charges.push(codex_model_charges(model.as_str(), usage, pricing, speed));
    }
    charges
}

/// What is charged for each model of each group, in the order of the groups' names.
pub open spec fn groups_charged<R>(
    groups: Seq<(Seq<char>, CodexGroup)>,
    prices: Map<Seq<char>, Pricing<R>>,
    speed: CodexSpeedPolicy,
) -> Seq<Seq<Option<ModelCharges<R>>>> {
    Seq::new(groups.len(), |i: int| group_charged(groups[i].1.models@, prices, speed))
}

/// The charges of each group in a list.
pub open spec fn charges_view<R>(
    charges: Seq<Vec<Option<ModelCharges<R>>>>,
) -> Seq<Seq<Option<ModelCharges<R>>>> {
    Seq::new(charges.len(), |i: int| charges[i]@)
}

/// Chooses what is charged for each model of each group.
pub fn codex_charges<R: Copy>(
    groups: &NameMap<CodexGroup>,
    pricing: &PricingMap<R>,
    speed: CodexSpeedPolicy,
) -> (charges: Vec<Vec<Option<ModelCharges<R>>>>)
    ensures
        charges_view(charges@) == groups_charged(groups@, pricing@, speed),
{
    let mut charges: Vec<Vec<Option<ModelCharges<R>>>> = Vec::new();
    let count: usize = groups.len();
    for i in 0..count
        invariant
            count == groups@.len(),
            charges@.len() == i,
            forall|k: int|
                0 <= k < i ==> (#[trigger] charges@[k])@ == group_charged(
                    groups@[k].1.models@,
                    pricing@,
                    speed,
                ),
    {
        charges.push(codex_group_charges(groups.value(i), pricing, speed));
    }
    assert(charges_view(charges@) =~= groups_charged(groups@, pricing@, speed));
    charges
}

/// Whether `cost_of` may give each of the costs for the charges of the group at the same
/// place.
pub open spec fn are_costs_of<R, C, F: Fn(&Vec<Option<ModelCharges<R>>>) -> C>(
    costs: Seq<C>,
    cost_of: F,
    charges: Seq<Vec<Option<ModelCharges<R>>>>,
) -> bool {
    &&& costs.len() == charges.len()
    &&& forall|i: int|
        0 <= i < costs.len() ==> call_ensures(cost_of, (&charges[i],), #[trigger] costs[i])
}

/// Asks for the cost of each group.
pub fn costs_of_groups<R, C, F: Fn(&Vec<Option<ModelCharges<R>>>) -> C>(
    charges: &Vec<Vec<Option<ModelCharges<R>>>>,
    cost_of: &F,
) -> (costs: Vec<C>)
    requires
        forall|group: &Vec<Option<ModelCharges<R>>>| call_requires(*cost_of, (group,)),
    ensures
        are_costs_of(costs@, *cost_of, charges@),
{
    let mut costs: Vec<C> = Vec::new();
    for i in 0..charges.len()
        invariant
            forall|group: &Vec<Option<ModelCharges<R>>>| call_requires(*cost_of, (group,)),
            costs@.len() == i,
            forall|k: int|
                0 <= k < i ==> call_ensures(*cost_of, (&charges@[k],), #[trigger] costs@[k]),
    {
        costs.push(cost_of(&charges[i]));
    }
    costs
}

} // verus!
