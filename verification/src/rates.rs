//! What is charged and what is reported, in terms of the recorded counts and the price
//! list alone.
use crate::billing::{
    are_costs_of, bucket_charged, charged_if_priced, charges_view, fast_tokens, group_charged,
    groups_charged, model_charged, parted, ModelCharges,
};
use crate::costs::{bucket_amount, model_amount};
use crate::pricing::{
    lacks_pricing, lacks_pricing_in_groups, lacks_pricing_in_models, priced_tokens, Pricing,
};
use crate::totals::{sum_over, totals_fit, totals_match, Count, UsageTotals};
use crate::usage::{
    bucket_of_model, bucket_without, tokens_without, CodexGroup, CodexModelUsage,
    CodexServiceTier, CodexSpeedPolicy, CodexUsageBucket,
};
use vstd::prelude::*;

verus! {

/// Where each rate comes from. Input and output have one rate each, and one more above the
/// long-context threshold where the model has such a rate. Cached input has the cache rate
/// if that is a price of its own, and costs as much as other input if it is not.
pub proof fn rates_come_from_the_price_list<R>(bucket: CodexUsageBucket, pricing: Pricing<R>)
    ensures
        ({
            let charges = bucket_charged(bucket, pricing);
            &&& charges.short_non_cached.rate == pricing.input
            &&& charges.short_output.rate == pricing.output
            &&& pricing.cache_read_explicit ==> charges.short_cached.rate == pricing.cache_read
            &&& !pricing.cache_read_explicit ==> charges.short_cached.rate == pricing.input
            &&& pricing.input_above_200k is None ==> charges.long_non_cached.rate == pricing.input
            &&& pricing.input_above_200k is Some ==> charges.long_non_cached.rate
                == pricing.input_above_200k->0
            &&& pricing.output_above_200k is None ==> charges.long_output.rate == pricing.output
            &&& pricing.output_above_200k is Some ==> charges.long_output.rate
                == pricing.output_above_200k->0
            &&& !pricing.cache_read_explicit ==> charges.long_cached.rate
                == charges.long_non_cached.rate
            &&& pricing.cache_read_explicit && pricing.cache_read_above_200k is None
                ==> charges.long_cached.rate == pricing.cache_read
            &&& pricing.cache_read_explicit && pricing.cache_read_above_200k is Some
                ==> charges.long_cached.rate == pricing.cache_read_above_200k->0
        }),
{
}

/// A cache rate that is no price of its own is never charged: two price lists that differ
/// in nothing but such rates charge the same.
pub proof fn filled_in_cache_rates_are_not_charged<R>(
    bucket: CodexUsageBucket,
    a: Pricing<R>,
    b: Pricing<R>,
)
    requires
        !a.cache_read_explicit,
        !b.cache_read_explicit,
        a.input == b.input,
        a.output == b.output,
        a.input_above_200k == b.input_above_200k,
        a.output_above_200k == b.output_above_200k,
    ensures
        bucket_charged(bucket, a) == bucket_charged(bucket, b),
{
}

/// Which tokens stand on which side. On the long side stand as many input, cached and output
/// tokens as were counted there, held within the whole count, and the cached ones within the
/// long input. On the short side stands what is left of each; non-cached input there is what
/// is left of the input beside the cached, if anything is.
pub proof fn tokens_are_parted_by_context(bucket: CodexUsageBucket)
    ensures
        ({
            let tokens = parted(bucket);
            let long_input = tokens.long_non_cached + tokens.long_cached;
            &&& long_input <= bucket.input_tokens
            &&& long_input <= bucket.long_context_input_tokens
            &&& long_input == bucket.input_tokens || long_input
                == bucket.long_context_input_tokens
            &&& tokens.long_cached <= bucket.cached_input_tokens
            &&& tokens.long_cached <= bucket.long_context_cached_input_tokens
            &&& tokens.long_cached == bucket.cached_input_tokens || tokens.long_cached
                == bucket.long_context_cached_input_tokens || tokens.long_cached == long_input
            &&& tokens.long_output <= bucket.output_tokens
            &&& tokens.long_output <= bucket.long_context_output_tokens
            &&& tokens.long_output == bucket.output_tokens || tokens.long_output
                == bucket.long_context_output_tokens
            &&& tokens.short_cached + tokens.long_cached == bucket.cached_input_tokens
            &&& tokens.short_output + tokens.long_output == bucket.output_tokens
            &&& tokens.short_cached + long_input <= bucket.input_tokens ==> tokens.short_non_cached
                + tokens.short_cached + long_input == bucket.input_tokens
            &&& tokens.short_cached + long_input > bucket.input_tokens
                ==> tokens.short_non_cached == 0
        }),
{
}

/// The charges of a bucket are for its tokens, part by part.
pub proof fn charges_are_for_the_parted_tokens<R>(bucket: CodexUsageBucket, pricing: Pricing<R>)
    ensures
        ({
            let charges = bucket_charged(bucket, pricing);
            let tokens = parted(bucket);
            &&& charges.short_non_cached.tokens == tokens.short_non_cached
            &&& charges.short_cached.tokens == tokens.short_cached
            &&& charges.short_output.tokens == tokens.short_output
            &&& charges.long_non_cached.tokens == tokens.long_non_cached
            &&& charges.long_cached.tokens == tokens.long_cached
            &&& charges.long_output.tokens == tokens.long_output
        }),
{
}

/// A bucket without long-context tokens is charged at short rates alone: its cached input,
/// the rest of its input, and its output.
pub proof fn short_context_usage_is_charged_at_short_rates<R>(
    bucket: CodexUsageBucket,
    pricing: Pricing<R>,
)
    requires
        bucket.long_context_input_tokens == 0,
        bucket.long_context_cached_input_tokens == 0,
        bucket.long_context_output_tokens == 0,
    ensures
        ({
            let charges = bucket_charged(bucket, pricing);
            &&& charges.long_non_cached.tokens == 0
            &&& charges.long_cached.tokens == 0
            &&& charges.long_output.tokens == 0
            &&& charges.short_cached.tokens == bucket.cached_input_tokens
            &&& charges.short_output.tokens == bucket.output_tokens
            &&& bucket.cached_input_tokens <= bucket.input_tokens
                ==> charges.short_non_cached.tokens + bucket.cached_input_tokens
                == bucket.input_tokens
        }),
{
}

/// What is left of a count is what the other does not cover: together they are the larger
/// of the two.
pub proof fn subtraction_fills_up_to_the_larger(a: u64, b: u64)
    ensures
        tokens_without(a, b) + b >= a,
        tokens_without(a, b) + b == a || tokens_without(a, b) + b == b,
        tokens_without(a, b) <= a,
        a <= b ==> tokens_without(a, b) == 0,
{
}

/// Of each count of a bucket on its own: what is left and what was taken out make up the
/// whole, unless more was to be taken out than there was, and then nothing is left.
pub proof fn buckets_are_subtracted_count_by_count(
    total: CodexUsageBucket,
    excluded: CodexUsageBucket,
)
    ensures
        ({
            let rest = bucket_without(total, excluded);
            &&& if excluded.input_tokens <= total.input_tokens {
                rest.input_tokens + excluded.input_tokens == total.input_tokens
            } else {
                rest.input_tokens == 0
            }
            &&& if excluded.cached_input_tokens <= total.cached_input_tokens {
                rest.cached_input_tokens + excluded.cached_input_tokens
                    == total.cached_input_tokens
            } else {
                rest.cached_input_tokens == 0
            }
            &&& if excluded.output_tokens <= total.output_tokens {
                rest.output_tokens + excluded.output_tokens == total.output_tokens
            } else {
                rest.output_tokens == 0
            }
            &&& if excluded.long_context_input_tokens <= total.long_context_input_tokens {
                rest.long_context_input_tokens + excluded.long_context_input_tokens
                    == total.long_context_input_tokens
            } else {
                rest.long_context_input_tokens == 0
            }
            &&& if excluded.long_context_cached_input_tokens
                <= total.long_context_cached_input_tokens {
                rest.long_context_cached_input_tokens + excluded.long_context_cached_input_tokens
                    == total.long_context_cached_input_tokens
            } else {
                rest.long_context_cached_input_tokens == 0
            }
            &&& if excluded.long_context_output_tokens <= total.long_context_output_tokens {
                rest.long_context_output_tokens + excluded.long_context_output_tokens
                    == total.long_context_output_tokens
            } else {
                rest.long_context_output_tokens == 0
            }
        }),
{
}

/// The bucket of a model holds the model's counts, each under its own name.
pub proof fn model_bucket_holds_the_counts(usage: CodexModelUsage)
    ensures
        bucket_of_model(usage).input_tokens == usage.input_tokens,
        bucket_of_model(usage).cached_input_tokens == usage.cached_input_tokens,
        bucket_of_model(usage).output_tokens == usage.output_tokens,
        bucket_of_model(usage).long_context_input_tokens == usage.long_context_input_tokens,
        bucket_of_model(usage).long_context_cached_input_tokens
            == usage.long_context_cached_input_tokens,
        bucket_of_model(usage).long_context_output_tokens == usage.long_context_output_tokens,
{
}

/// Which tokens count as fast. Held to the standard tier, none; held to the fast tier, all.
/// With the standard tier assumed for unrecorded requests, exactly those recorded as fast;
/// with the fast tier assumed, all but those recorded as standard.
pub proof fn policy_decides_which_tokens_are_fast(usage: CodexModelUsage)
    ensures
        fast_tokens(usage, CodexSpeedPolicy::Forced(CodexServiceTier::Standard)) is None,
        fast_tokens(usage, CodexSpeedPolicy::Forced(CodexServiceTier::Fast)) == Some(
            bucket_of_model(usage),
        ),
        fast_tokens(usage, CodexSpeedPolicy::Auto(CodexServiceTier::Standard)) == Some(
            usage.recorded_fast_usage,
        ),
        fast_tokens(usage, CodexSpeedPolicy::Auto(CodexServiceTier::Fast)) == Some(
            bucket_without(bucket_of_model(usage), usage.recorded_standard_usage),
        ),
{
}

/// A model is charged for all its tokens at standard rates, under every policy; for the
/// tokens that count as fast the multiplier of its price list comes on top.
pub proof fn surcharge_is_for_the_fast_tokens<R>(
    usage: CodexModelUsage,
    pricing: Pricing<R>,
    speed: CodexSpeedPolicy,
)
    ensures
        ({
            let charges = model_charged(usage, pricing, speed);
            let fast = fast_tokens(usage, speed);
            &&& charges.standard == bucket_charged(bucket_of_model(usage), pricing)
            &&& charges.fast is Some == fast is Some
            &&& fast is Some ==> charges.fast->0.charges == bucket_charged(fast->0, pricing)
            &&& fast is Some ==> charges.fast->0.multiplier == pricing.fast_multiplier
        }),
{
}

/// With the standard tier assumed, a model costs what all its tokens cost at standard rates,
/// and what its tokens recorded as fast cost times the multiplier less one.
pub proof fn only_recorded_fast_usage_is_surcharged(usage: CodexModelUsage, pricing: Pricing<real>)
    ensures
        model_amount(
            model_charged(usage, pricing, CodexSpeedPolicy::Auto(CodexServiceTier::Standard)),
        ) == bucket_amount(bucket_charged(bucket_of_model(usage), pricing)) + bucket_amount(
            bucket_charged(usage.recorded_fast_usage, pricing),
        ) * (pricing.fast_multiplier - 1real),
{
}

/// With the standard tier assumed, tokens without a recorded tier change the cost of a model
/// by their standard price alone: two usages with the same record of fast tokens differ by
/// what they differ by when held to the standard tier.
pub proof fn unrecorded_usage_is_not_surcharged(
    a: CodexModelUsage,
    b: CodexModelUsage,
    pricing: Pricing<real>,
)
    requires
        a.recorded_fast_usage == b.recorded_fast_usage,
    ensures
        ({
            let auto = CodexSpeedPolicy::Auto(CodexServiceTier::Standard);
            let forced = CodexSpeedPolicy::Forced(CodexServiceTier::Standard);
            model_amount(model_charged(a, pricing, auto)) - model_amount(
                model_charged(b, pricing, auto),
            ) == model_amount(model_charged(a, pricing, forced)) - model_amount(
                model_charged(b, pricing, forced),
            )
        }),
{
}

/// A model is charged exactly if its name is on the price list, at the prices that stand
/// under its name.
pub proof fn models_are_charged_at_their_own_price<R>(
    model: Seq<char>,
    usage: CodexModelUsage,
    prices: Map<Seq<char>, Pricing<R>>,
    speed: CodexSpeedPolicy,
)
    ensures
        charged_if_priced(model, usage, prices, speed) is Some == prices.dom().contains(model),
        prices.dom().contains(model) ==> charged_if_priced(model, usage, prices, speed)->0
            == model_charged(usage, prices[model], speed),
{
}

/// Every model of every group is charged, each at its own place.
pub proof fn every_model_of_every_group_is_charged<R>(
    groups: Seq<(Seq<char>, CodexGroup)>,
    prices: Map<Seq<char>, Pricing<R>>,
    speed: CodexSpeedPolicy,
)
    ensures
        groups_charged(groups, prices, speed).len() == groups.len(),
        forall|g: int|
            0 <= g < groups.len() ==> (#[trigger] groups_charged(groups, prices, speed)[g]).len()
                == groups[g].1.models@.len(),
        forall|g: int, m: int|
            0 <= g < groups.len() && 0 <= m < groups[g].1.models@.len() ==> (
            #[trigger] groups_charged(groups, prices, speed)[g][m]) == charged_if_priced(
                groups[g].1.models@[m].0,
                groups[g].1.models@[m].1,
                prices,
                speed,
            ),
{
}

/// Every model of a group is charged, in order.
pub proof fn every_model_of_a_group_is_charged<R>(
    models: Seq<(Seq<char>, CodexModelUsage)>,
    prices: Map<Seq<char>, Pricing<R>>,
    speed: CodexSpeedPolicy,
)
    ensures
        group_charged(models, prices, speed).len() == models.len(),
        forall|m: int|
            0 <= m < models.len() ==> (#[trigger] group_charged(models, prices, speed)[m])
                == charged_if_priced(models[m].0, models[m].1, prices, speed),
{
}

/// The view of a list of charges is the list itself, and the costs of a list are asked for
/// one by one, each with the charges at its own place.
pub proof fn costs_are_asked_for_one_by_one<R, C, F: Fn(&Vec<Option<ModelCharges<R>>>) -> C>(
    costs: Seq<C>,
    cost_of: F,
    charges: Seq<Vec<Option<ModelCharges<R>>>>,
)
    ensures
        charges_view(charges).len() == charges.len(),
        forall|i: int|
            0 <= i < charges.len() ==> (#[trigger] charges_view(charges)[i]) == charges[i]@,
        are_costs_of(costs, cost_of, charges) ==> costs.len() == charges.len(),
        are_costs_of(costs, cost_of, charges) ==> forall|i: int|
            0 <= i < costs.len() ==> call_ensures(cost_of, (&charges[i],), #[trigger] costs[i]),
{
}

/// A model is reported as one without a price exactly if its name is not on the price list
/// and it used a token: by its recorded total, or by its input or its output. Nothing else
/// in its usage plays a part.
pub proof fn used_models_without_a_price_are_reported<R>(
    model: Seq<char>,
    usage: CodexModelUsage,
    prices: Map<Seq<char>, Pricing<R>>,
)
    ensures
        lacks_pricing(model, priced_tokens(usage), prices) <==> !prices.dom().contains(model) && (
        usage.total_tokens > 0 || usage.input_tokens > 0 || usage.output_tokens > 0),
{
}

/// The same of a token total that is given: a price is missing exactly if there are tokens
/// and the name is not on the price list.
pub proof fn any_token_needs_a_price<R>(
    model: Seq<char>,
    total_tokens: u64,
    prices: Map<Seq<char>, Pricing<R>>,
)
    ensures
        lacks_pricing(model, total_tokens, prices) <==> total_tokens > 0
            && !prices.dom().contains(model),
{
}

/// A model of any group that used a token and is not on the price list is among the models
/// without a price, wherever it stands.
pub proof fn no_model_without_a_price_is_left_out<R>(
    groups: Seq<(Seq<char>, CodexGroup)>,
    prices: Map<Seq<char>, Pricing<R>>,
    g: int,
    m: int,
)
    requires
        0 <= g < groups.len(),
        0 <= m < groups[g].1.models@.len(),
        !prices.dom().contains(groups[g].1.models@[m].0),
        ({
            let usage = groups[g].1.models@[m].1;
            usage.total_tokens > 0 || usage.input_tokens > 0 || usage.output_tokens > 0
        }),
    ensures
        lacks_pricing_in_groups(groups[g].1.models@[m].0, groups, prices),
{
    let models = groups[g].1.models@;
    used_models_without_a_price_are_reported(models[m].0, models[m].1, prices);
    assert(lacks_pricing_in_models(models[m].0, models, prices));
}

/// Whatever is among the models without a price is not on the price list, and is a model
/// of some group that used a token there.
pub proof fn reported_models_were_used_without_a_price<R>(
    model: Seq<char>,
    groups: Seq<(Seq<char>, CodexGroup)>,
    prices: Map<Seq<char>, Pricing<R>>,
)
    requires
        lacks_pricing_in_groups(model, groups, prices),
    ensures
        !prices.dom().contains(model),
        exists|g: int, m: int|
            {
                &&& 0 <= g < groups.len()
                &&& 0 <= m < groups[g].1.models@.len()
                &&& (#[trigger] groups[g].1.models@[m]).0 == model
                &&& groups[g].1.models@[m].1.total_tokens > 0
                    || groups[g].1.models@[m].1.input_tokens > 0
                    || groups[g].1.models@[m].1.output_tokens > 0
            },
{
    let g = choose|g: int|
        0 <= g < groups.len() && lacks_pricing_in_models(
            model,
            (#[trigger] groups[g]).1.models@,
            prices,
        );
    let models = groups[g].1.models@;
    let m = choose|m: int|
        0 <= m < models.len() && (#[trigger] models[m]).0 == model && lacks_pricing(
            model,
            priced_tokens(models[m].1),
            prices,
        );
    used_models_without_a_price_are_reported(model, models[m].1, prices);
    assert(groups[g].1.models@[m].0 == model);
}

/// Without groups every count adds up to nothing, and one group more adds its cached input,
/// the rest of its input, its output, its reasoning output and its total to the count of
/// that name, and to no other.
pub proof fn each_group_adds_its_counts(
    groups: Seq<(Seq<char>, CodexGroup)>,
    name: Seq<char>,
    group: CodexGroup,
)
    ensures
        forall|count: Count| #[trigger] sum_over(Seq::empty(), count) == 0,
        ({
            let more = groups.push((name, group));
            &&& sum_over(more, Count::Input) - sum_over(groups, Count::Input) == (if group
                .input_tokens >= group.cached_input_tokens {
                group.input_tokens - group.cached_input_tokens
            } else {
                0
            })
            &&& sum_over(more, Count::CachedInput) - sum_over(groups, Count::CachedInput)
                == group.cached_input_tokens
            &&& sum_over(more, Count::Output) - sum_over(groups, Count::Output)
                == group.output_tokens
            &&& sum_over(more, Count::ReasoningOutput) - sum_over(groups, Count::ReasoningOutput)
                == group.reasoning_output_tokens
            &&& sum_over(more, Count::Total) - sum_over(groups, Count::Total)
                == group.total_tokens
        }),
{
    let more = groups.push((name, group));
    assert(more.drop_last() =~= groups);
}

/// Totals are given exactly where all five sums can be held, and each total is the sum of
/// the count of its name.
pub proof fn totals_are_the_five_sums(
    totals: UsageTotals,
    groups: Seq<(Seq<char>, CodexGroup)>,
)
    ensures
        totals_fit(groups) <==> {
            &&& sum_over(groups, Count::Input) <= u64::MAX
            &&& sum_over(groups, Count::CachedInput) <= u64::MAX
            &&& sum_over(groups, Count::Output) <= u64::MAX
            &&& sum_over(groups, Count::ReasoningOutput) <= u64::MAX
            &&& sum_over(groups, Count::Total) <= u64::MAX
        },
        totals_match(totals, groups) <==> {
            &&& totals.input_tokens == sum_over(groups, Count::Input)
            &&& totals.cached_input_tokens == sum_over(groups, Count::CachedInput)
            &&& totals.output_tokens == sum_over(groups, Count::Output)
            &&& totals.reasoning_output_tokens == sum_over(groups, Count::ReasoningOutput)
            &&& totals.total_tokens == sum_over(groups, Count::Total)
        },
{
    if sum_over(groups, Count::Input) <= u64::MAX && sum_over(groups, Count::CachedInput)
        <= u64::MAX && sum_over(groups, Count::Output) <= u64::MAX && sum_over(
        groups,
        Count::ReasoningOutput,
    ) <= u64::MAX && sum_over(groups, Count::Total) <= u64::MAX {
        assert forall|count: Count| #[trigger] sum_over(groups, count) <= u64::MAX by {
            match count {
                Count::Input => {},
                Count::CachedInput => {},
                Count::Output => {},
                Count::ReasoningOutput => {},
                Count::Total => {},
            }
        }
    }
}

} // verus!
