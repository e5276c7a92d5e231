//! What charges amount to, in exact arithmetic. Rates and multipliers are real numbers.
use crate::billing::{
    bucket_charged, cached_rate, charged_if_priced, group_charged, groups_charged, long_cached,
    long_cached_rate, long_input, long_rate, model_charged, parted, short_cached, short_input,
    BucketCharges, Charge, ModelCharges,
};
use crate::pricing::{lacks_pricing, larger, priced_tokens, Pricing};
use crate::usage::{
    bucket_is_sum, bucket_of_model, bucket_within, bucket_without, empty_bucket, tokens_without,
    CodexGroup, CodexModelUsage, CodexServiceTier, CodexSpeedPolicy, CodexUsageBucket,
};
use vstd::prelude::*;

verus! {

/// What a charge amounts to.
pub open spec fn charge_amount(charge: Charge<real>) -> real {
    charge.tokens as real * charge.rate
}

/// What the charges of a bucket amount to.
pub open spec fn bucket_amount(charges: BucketCharges<real>) -> real {
    charge_amount(charges.short_non_cached) + charge_amount(charges.short_cached)
        + charge_amount(charges.short_output) + charge_amount(charges.long_non_cached)
        + charge_amount(charges.long_cached) + charge_amount(charges.long_output)
}

/// What the charges of a model amount to.
pub open spec fn model_amount(charges: ModelCharges<real>) -> real {
    bucket_amount(charges.standard) + match charges.fast {
        Some(fast) => bucket_amount(fast.charges) * (fast.multiplier - 1real),
        None => 0real,
    }
}

/// Cached tokens and output tokens are each charged once, in one part or the other.
pub proof fn cached_and_output_tokens_are_charged_once(bucket: CodexUsageBucket)
    ensures
        parted(bucket).short_cached + parted(bucket).long_cached == bucket.cached_input_tokens,
        parted(bucket).short_output + parted(bucket).long_output == bucket.output_tokens,
{
}

/// Input tokens are each charged once, as cached or as non-cached, in one part or the
/// other, unless the long-context input holds non-cached tokens and the rest of the input
/// is smaller than the rest of the cached input.
pub proof fn input_tokens_are_charged_once(bucket: CodexUsageBucket)
    requires
        short_cached(bucket) <= short_input(bucket) || long_input(bucket) == long_cached(bucket),
    ensures
        parted(bucket).short_non_cached + parted(bucket).long_non_cached == tokens_without(
            bucket.input_tokens,
            bucket.cached_input_tokens,
        ),
        parted(bucket).short_non_cached + parted(bucket).long_non_cached
            + parted(bucket).short_cached + parted(bucket).long_cached == larger(
            bucket.input_tokens,
            bucket.cached_input_tokens,
        ),
{
}

/// Whether a model has no long-context rates.
pub open spec fn has_flat_rates<R>(pricing: Pricing<R>) -> bool {
    &&& pricing.input_above_200k is None
    &&& pricing.output_above_200k is None
    &&& pricing.cache_read_above_200k is None
}

/// A model without long-context rates is charged the same for a token of a long-context
/// request as for any other token of its kind.
pub proof fn flat_rates_keep_both_parts_at_the_same_price<R>(
    bucket: CodexUsageBucket,
    pricing: Pricing<R>,
)
    requires
        has_flat_rates(pricing),
    ensures
        ({
            let charges = bucket_charged(bucket, pricing);
            &&& charges.long_non_cached.rate == charges.short_non_cached.rate
            &&& charges.long_cached.rate == charges.short_cached.rate
            &&& charges.long_output.rate == charges.short_output.rate
        }),
{
}

/// At flat rates a bucket costs as much as its non-cached input, its cached input and its
/// output, each at its one rate, whatever part of them is long-context.
pub proof fn flat_rates_ignore_long_context(bucket: CodexUsageBucket, pricing: Pricing<real>)
    requires
        has_flat_rates(pricing),
        short_cached(bucket) <= short_input(bucket) || long_input(bucket) == long_cached(bucket),
    ensures
        bucket_amount(bucket_charged(bucket, pricing)) == tokens_without(
            bucket.input_tokens,
            bucket.cached_input_tokens,
        ) as real * pricing.input + bucket.cached_input_tokens as real * cached_rate(pricing)
            + bucket.output_tokens as real * pricing.output,
{
    let tokens = parted(bucket);
    cached_and_output_tokens_are_charged_once(bucket);
    input_tokens_are_charged_once(bucket);
    split_product(tokens.short_non_cached, tokens.long_non_cached, pricing.input);
    split_product(tokens.short_cached, tokens.long_cached, cached_rate(pricing));
    split_product(tokens.short_output, tokens.long_output, pricing.output);
}

/// Tokens at one rate cost the same whether they are charged together or in two parts.
proof fn split_product(a: u64, b: u64, rate: real)
    ensures
        (a + b) as real * rate == a as real * rate + b as real * rate,
{
    let (x, y) = (a as real, b as real);
    assert((x + y) * rate == x * rate + y * rate) by (nonlinear_arith);
    assert((a + b) as real == x + y);
}

/// Whether the counts of a bucket could come from whole requests: its long-context
/// tokens lie within all its tokens, and in either part no more input was cached than
/// there was.
pub open spec fn is_coherent(bucket: CodexUsageBucket) -> bool {
    &&& bucket.long_context_input_tokens <= bucket.input_tokens
    &&& bucket.long_context_output_tokens <= bucket.output_tokens
    &&& bucket.long_context_cached_input_tokens <= bucket.cached_input_tokens
    &&& bucket.long_context_cached_input_tokens <= bucket.long_context_input_tokens
    &&& bucket.cached_input_tokens - bucket.long_context_cached_input_tokens
        <= bucket.input_tokens - bucket.long_context_input_tokens
}

/// Usage may be added up before it is charged: two coherent buckets make a coherent one,
/// which costs what they cost together.
pub proof fn aggregated_usage_costs_the_same(
    whole: CodexUsageBucket,
    a: CodexUsageBucket,
    b: CodexUsageBucket,
    pricing: Pricing<real>,
)
    requires
        bucket_is_sum(whole, a, b),
        is_coherent(a),
        is_coherent(b),
    ensures
        is_coherent(whole),
        bucket_amount(bucket_charged(whole, pricing)) == bucket_amount(bucket_charged(a, pricing))
            + bucket_amount(bucket_charged(b, pricing)),
{
    let x = parted(a);
    let y = parted(b);
    split_product(x.short_non_cached, y.short_non_cached, pricing.input);
    split_product(x.short_cached, y.short_cached, cached_rate(pricing));
    split_product(x.short_output, y.short_output, pricing.output);
    split_product(
        x.long_non_cached,
        y.long_non_cached,
        long_rate(pricing.input_above_200k, pricing.input),
    );
    split_product(x.long_cached, y.long_cached, long_cached_rate(pricing));
    split_product(
        x.long_output,
        y.long_output,
        long_rate(pricing.output_above_200k, pricing.output),
    );
}

/// The long-context tokens of a bucket, as a bucket of their own.
pub open spec fn long_part(bucket: CodexUsageBucket) -> CodexUsageBucket {
    CodexUsageBucket {
        input_tokens: bucket.long_context_input_tokens,
        cached_input_tokens: bucket.long_context_cached_input_tokens,
        output_tokens: bucket.long_context_output_tokens,
        long_context_input_tokens: bucket.long_context_input_tokens,
        long_context_cached_input_tokens: bucket.long_context_cached_input_tokens,
        long_context_output_tokens: bucket.long_context_output_tokens,
    }
}

/// The long-context tokens of a bucket and its other tokens are priced as two buckets:
/// every token of the one is charged at a long-context rate, every token of the other at
/// a short-context rate, and together they cost what the bucket costs.
pub proof fn long_and_short_parts_are_priced_independently(
    bucket: CodexUsageBucket,
    pricing: Pricing<real>,
)
    requires
        is_coherent(bucket),
    ensures
        ({
            let long = long_part(bucket);
            let short = bucket_without(bucket, long);
            &&& parted(long).short_non_cached == 0
            &&& parted(long).short_cached == 0
            &&& parted(long).short_output == 0
            &&& parted(short).long_non_cached == 0
            &&& parted(short).long_cached == 0
            &&& parted(short).long_output == 0
            &&& bucket_amount(bucket_charged(bucket, pricing)) == bucket_amount(
                bucket_charged(long, pricing),
            ) + bucket_amount(bucket_charged(short, pricing))
        }),
{
    let long = long_part(bucket);
    let short = bucket_without(bucket, long);
    aggregated_usage_costs_the_same(bucket, long, short, pricing);
}

/// A bucket without tokens costs nothing.
pub proof fn empty_buckets_are_free(pricing: Pricing<real>)
    ensures
        bucket_amount(bucket_charged(empty_bucket(), pricing)) == 0real,
{
    let charges = bucket_charged(empty_bucket(), pricing);
    no_tokens_cost_nothing(charges.short_non_cached);
    no_tokens_cost_nothing(charges.short_cached);
    no_tokens_cost_nothing(charges.short_output);
    no_tokens_cost_nothing(charges.long_non_cached);
    no_tokens_cost_nothing(charges.long_cached);
    no_tokens_cost_nothing(charges.long_output);
}

/// No tokens cost nothing, at whatever rate.
proof fn no_tokens_cost_nothing(charge: Charge<real>)
    requires
        charge.tokens == 0,
    ensures
        charge_amount(charge) == 0real,
{
    let rate = charge.rate;
    assert(0real * rate == 0real) by (nonlinear_arith);
}

/// Held to the standard tier, a model costs what its tokens cost at standard rates; held
/// to the fast tier, it costs the multiplier times that.
pub proof fn forced_tiers_set_the_price(usage: CodexModelUsage, pricing: Pricing<real>)
    ensures
        ({
            let standard = bucket_amount(bucket_charged(bucket_of_model(usage), pricing));
            &&& model_amount(
                model_charged(
                    usage,
                    pricing,
                    CodexSpeedPolicy::Forced(CodexServiceTier::Standard),
                ),
            ) == standard
            &&& model_amount(
                model_charged(usage, pricing, CodexSpeedPolicy::Forced(CodexServiceTier::Fast)),
            ) == pricing.fast_multiplier * standard
        }),
{
    let standard = bucket_amount(bucket_charged(bucket_of_model(usage), pricing));
    let multiplier = pricing.fast_multiplier;
    assert(standard + standard * (multiplier - 1real) == multiplier * standard) by (nonlinear_arith);
}

/// Where nothing is recorded of the other tier, the tier that is assumed for unrecorded
/// requests sets the price as if every request were held to it.
pub proof fn unrecorded_usage_falls_to_the_assumed_tier(
    usage: CodexModelUsage,
    pricing: Pricing<real>,
)
    ensures
        usage.recorded_fast_usage == empty_bucket() ==> model_amount(
            model_charged(usage, pricing, CodexSpeedPolicy::Auto(CodexServiceTier::Standard)),
        ) == model_amount(
            model_charged(usage, pricing, CodexSpeedPolicy::Forced(CodexServiceTier::Standard)),
        ),
        usage.recorded_standard_usage == empty_bucket() ==> model_amount(
            model_charged(usage, pricing, CodexSpeedPolicy::Auto(CodexServiceTier::Fast)),
        ) == model_amount(
            model_charged(usage, pricing, CodexSpeedPolicy::Forced(CodexServiceTier::Fast)),
        ),
{
    empty_buckets_are_free(pricing);
    let multiplier = pricing.fast_multiplier;
    assert(0real * (multiplier - 1real) == 0real) by (nonlinear_arith);
}

/// Where all usage is recorded as standard, the fast tier adds nothing, even if it is
/// assumed for unrecorded requests.
pub proof fn recorded_standard_usage_is_not_surcharged(
    usage: CodexModelUsage,
    pricing: Pricing<real>,
)
    requires
        bucket_within(bucket_of_model(usage), usage.recorded_standard_usage),
    ensures
        model_amount(
            model_charged(usage, pricing, CodexSpeedPolicy::Auto(CodexServiceTier::Fast)),
        ) == bucket_amount(bucket_charged(bucket_of_model(usage), pricing)),
{
    assert(bucket_without(bucket_of_model(usage), usage.recorded_standard_usage)
        == empty_bucket());
    empty_buckets_are_free(pricing);
    let multiplier = pricing.fast_multiplier;
    assert(0real * (multiplier - 1real) == 0real) by (nonlinear_arith);
}

/// Where the tier of all usage is recorded, it does not matter which tier is assumed for
/// unrecorded requests.
pub proof fn recorded_usage_leaves_nothing_to_assume<R>(
    usage: CodexModelUsage,
    pricing: Pricing<R>,
)
    requires
        bucket_is_sum(
            bucket_of_model(usage),
            usage.recorded_fast_usage,
            usage.recorded_standard_usage,
        ),
    ensures
        model_charged(usage, pricing, CodexSpeedPolicy::Auto(CodexServiceTier::Fast))
            == model_charged(usage, pricing, CodexSpeedPolicy::Auto(CodexServiceTier::Standard)),
{
}

/// A model that used tokens is charged nothing exactly if it is reported as one without
/// a price.
pub proof fn uncharged_models_are_reported<R>(
    model: Seq<char>,
    usage: CodexModelUsage,
    prices: Map<Seq<char>, Pricing<R>>,
    speed: CodexSpeedPolicy,
)
    ensures
        lacks_pricing(model, priced_tokens(usage), prices) == (priced_tokens(usage) > 0
            && charged_if_priced(model, usage, prices, speed) is None),
{
}

/// What a model adds to the cost of its group: nothing if its price is not known.
pub open spec fn priced_amount(charges: Option<ModelCharges<real>>) -> real {
    match charges {
        Some(charges) => model_amount(charges),
        None => 0real,
    }
}

/// What a group costs: the sum over its models.
pub open spec fn group_amount(charges: Seq<Option<ModelCharges<real>>>) -> real
    decreases charges.len(),
{
    if charges.len() == 0 {
        0real
    } else {
        group_amount(charges.drop_last()) + priced_amount(charges.last())
    }
}

/// What all groups cost: the sum over the groups.
pub open spec fn total_amount(charges: Seq<Seq<Option<ModelCharges<real>>>>) -> real
    decreases charges.len(),
{
    if charges.len() == 0 {
        0real
    } else {
        total_amount(charges.drop_last()) + group_amount(charges.last())
    }
}

/// Two lists of charges together amount to the sum of what each amounts to.
proof fn group_amount_of_both(
    a: Seq<Option<ModelCharges<real>>>,
    b: Seq<Option<ModelCharges<real>>>,
)
    ensures
        group_amount(a + b) == group_amount(a) + group_amount(b),
    decreases b.len(),
{
    if b.len() == 0 {
        assert(a + b =~= a);
    } else {
        assert((a + b).drop_last() =~= a + b.drop_last());
        group_amount_of_both(a, b.drop_last());
    }
}

/// What one model alone amounts to.
proof fn group_amount_of_one(charges: Option<ModelCharges<real>>)
    ensures
        group_amount(seq![charges]) == priced_amount(charges),
{
    assert(seq![charges].drop_last() =~= Seq::empty());
    assert(group_amount(Seq::empty()) == 0real);
}

/// Every model adds to the cost of its group what it costs alone, wherever in the group it
/// stands; the other models cost what they cost without it.
pub proof fn each_model_adds_its_cost(
    models: Seq<(Seq<char>, CodexModelUsage)>,
    i: int,
    prices: Map<Seq<char>, Pricing<real>>,
    speed: CodexSpeedPolicy,
)
    requires
        0 <= i < models.len(),
    ensures
        group_amount(group_charged(models, prices, speed)) == group_amount(
            group_charged(models.remove(i), prices, speed),
        ) + priced_amount(charged_if_priced(models[i].0, models[i].1, prices, speed)),
{
    let charges = group_charged(models, prices, speed);
    let (left, right) = (charges.take(i), charges.skip(i + 1));
    assert(charges =~= (left + seq![charges[i]]) + right);
    assert(group_charged(models.remove(i), prices, speed) =~= left + right);
    group_amount_of_both(left + seq![charges[i]], right);
    group_amount_of_both(left, seq![charges[i]]);
    group_amount_of_both(left, right);
    group_amount_of_one(charges[i]);
}

/// A model whose price is not known adds nothing to the cost of its group.
pub proof fn unpriced_models_add_nothing(
    models: Seq<(Seq<char>, CodexModelUsage)>,
    i: int,
    prices: Map<Seq<char>, Pricing<real>>,
    speed: CodexSpeedPolicy,
)
    requires
        0 <= i < models.len(),
        !prices.dom().contains(models[i].0),
    ensures
        group_amount(group_charged(models, prices, speed)) == group_amount(
            group_charged(models.remove(i), prices, speed),
        ),
{
    each_model_adds_its_cost(models, i, prices, speed);
}

/// Two lists of groups together cost the sum of what each costs.
pub proof fn groups_cost_their_sum(
    a: Seq<(Seq<char>, CodexGroup)>,
    b: Seq<(Seq<char>, CodexGroup)>,
    prices: Map<Seq<char>, Pricing<real>>,
    speed: CodexSpeedPolicy,
)
    ensures
        total_amount(groups_charged(a + b, prices, speed)) == total_amount(
            groups_charged(a, prices, speed),
        ) + total_amount(groups_charged(b, prices, speed)),
    decreases b.len(),
{
    let whole = groups_charged(a + b, prices, speed);
    if b.len() == 0 {
        assert(a + b =~= a);
    } else {
        let rest = groups_charged(b, prices, speed);
        assert(whole.drop_last() =~= groups_charged(a + b.drop_last(), prices, speed));
        assert(rest.drop_last() =~= groups_charged(b.drop_last(), prices, speed));
        groups_cost_their_sum(a, b.drop_last(), prices, speed);
    }
}

/// A single group costs in all what its models cost.
pub proof fn one_group_costs_its_models(
    group: (Seq<char>, CodexGroup),
    prices: Map<Seq<char>, Pricing<real>>,
    speed: CodexSpeedPolicy,
)
    ensures
        total_amount(groups_charged(seq![group], prices, speed)) == group_amount(
            group_charged(group.1.models@, prices, speed),
        ),
{
    let charges = groups_charged(seq![group], prices, speed);
    assert(charges.drop_last() =~= Seq::empty());
    assert(total_amount(charges.drop_last()) == 0real);
}

} // verus!
