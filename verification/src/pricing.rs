//! What models cost, and which models no price is known for.
use crate::names::{entries_map, names_of, texts, texts_ascend, NameMap};
use crate::usage::{CodexGroup, CodexModelUsage};
use vstd::prelude::*;

verus! {

/// The price of one token of each kind, in whatever type the caller counts money.
/// The rates above the long-context threshold are there only for models that have them.
#[derive(Debug)]
pub struct Pricing<R> {
    pub input: R,
    pub output: R,
    pub cache_read: R,
    /// Whether `cache_read` is a price of its own, and not one that was filled in.
    pub cache_read_explicit: bool,
    pub input_above_200k: Option<R>,
    pub output_above_200k: Option<R>,
    pub cache_read_above_200k: Option<R>,
    /// What a token costs at the fast tier, as a multiple of its standard price.
    pub fast_multiplier: R,
}

/// The prices that are known, by the name that usage is recorded under. A name is looked up
/// as it stands: whoever fills the map resolves aliases.
#[derive(Debug)]
pub struct PricingMap<R> {
    prices: NameMap<Pricing<R>>,
}

impl<R> View for PricingMap<R> {
    type V = Map<Seq<char>, Pricing<R>>;

    closed spec fn view(&self) -> Map<Seq<char>, Pricing<R>> {
        entries_map(self.prices@)
    }
}

impl<R> PricingMap<R> {
    /// A map that knows no price.
    pub fn new() -> (map: Self)
        ensures
            map@ == Map::<Seq<char>, Pricing<R>>::empty(),
    {
        let map = PricingMap { prices: NameMap::new() };
        assert(map@ =~= Map::<Seq<char>, Pricing<R>>::empty());
        map
    }

    /// Sets the price of a model.
    pub fn insert(&mut self, model: String, pricing: Pricing<R>)
        ensures
            final(self)@ == old(self)@.insert(model@, pricing),
    {
        self.prices.insert(model, pricing);
    }

    /// The price of a model.
    pub fn find(&self, model: &str) -> (pricing: Option<&Pricing<R>>)
        ensures
            pricing is Some == self@.dom().contains(model@),
            pricing is Some ==> pricing->0 == self@[model@],
    {
        self.prices.get(model)
    }
}

/// The larger of two counts.
pub open spec fn larger(a: u64, b: u64) -> u64 {
    if a >= b {
        a
    } else {
        b
    }
}

/// The sum of two counts, held at the largest count there is.
pub open spec fn capped_sum(a: u64, b: u64) -> u64 {
    if a + b <= u64::MAX {
        (a + b) as u64
    } else {
        u64::MAX
    }
}

/// Whether a model used tokens that no price is known for.
pub open spec fn lacks_pricing<R>(
    model: Seq<char>,
    total_tokens: u64,
    prices: Map<Seq<char>, Pricing<R>>,
) -> bool {
    total_tokens > 0 && !prices.dom().contains(model)
}

/// The given model, if it used tokens and the given prices do not cover it. Without a
/// model, or without prices to look it up in, nothing can be missing.
pub fn missing_pricing_model_for_token_total<'a, R>(
    model: Option<&'a str>,
    total_tokens: u64,
    pricing: Option<&PricingMap<R>>,
) -> (missing: Option<&'a str>)
    ensures
        missing is Some == (model is Some && pricing is Some && lacks_pricing(
            model->0@,
            total_tokens,
            pricing->0@,
        )),
        missing is Some ==> missing->0@ == model->0@,
{
    match (model, pricing) {
        (Some(model), Some(pricing)) => {
            if total_tokens > 0 && pricing.find(model).is_none() {
                Some(model)
            } else {
                None
            }
        },
        _ => None,
    }
}

/// The tokens that decide whether a model needs a price: the recorded total, or input
/// and output together where that is more.
pub open spec fn priced_tokens(usage: CodexModelUsage) -> u64 {
    larger(usage.total_tokens, capped_sum(usage.input_tokens, usage.output_tokens))
}

/// Whether a model used tokens that no price is known for.
pub fn codex_model_missing_pricing<R>(
    model: &str,
    usage: &CodexModelUsage,
    pricing: &PricingMap<R>,
) -> (missing: bool)
    ensures
        missing == lacks_pricing(model@, priced_tokens(*usage), pricing@),
{
    let used: u64 = usage.input_tokens.saturating_add(usage.output_tokens);
    let total: u64 = if usage.total_tokens >= used {
        usage.total_tokens
    } else {
        used
    };
    missing_pricing_model_for_token_total(Some(model), total, Some(pricing)).is_some()
}

/// Whether the model stands in the list with tokens that no price is known for.
pub open spec fn lacks_pricing_in_models<R>(
    model: Seq<char>,
    models: Seq<(Seq<char>, CodexModelUsage)>,
    prices: Map<Seq<char>, Pricing<R>>,
) -> bool {
    exists|m: int|
        0 <= m < models.len() && (#[trigger] models[m]).0 == model && lacks_pricing(
            model,
            priced_tokens(models[m].1),
            prices,
        )
}

/// Whether some group has usage of the model that no price is known for.
pub open spec fn lacks_pricing_in_groups<R>(
    model: Seq<char>,
    groups: Seq<(Seq<char>, CodexGroup)>,
    prices: Map<Seq<char>, Pricing<R>>,
) -> bool {
    exists|g: int|
        0 <= g < groups.len() && lacks_pricing_in_models(
            model,
            (#[trigger] groups[g]).1.models@,
            prices,
        )
}

/// One model more in the list adds that model alone, and only if it lacks a price.
proof fn lacks_pricing_in_one_more_model<R>(
    models: Seq<(Seq<char>, CodexModelUsage)>,
    m: int,
    prices: Map<Seq<char>, Pricing<R>>,
)
    requires
        0 <= m < models.len(),
    ensures
        forall|model: Seq<char>| #[trigger]
            lacks_pricing_in_models(model, models.take(m + 1), prices) == (lacks_pricing_in_models(
                model,
                models.take(m),
                prices,
            ) || (model == models[m].0 && lacks_pricing(
                model,
                priced_tokens(models[m].1),
                prices,
            ))),
{
    let fewer = models.take(m);
    let more = models.take(m + 1);
    assert forall|model: Seq<char>| #[trigger]
        lacks_pricing_in_models(model, more, prices) == (lacks_pricing_in_models(
            model,
            fewer,
            prices,
        ) || (model == models[m].0 && lacks_pricing(model, priced_tokens(models[m].1), prices))) by {
        if lacks_pricing_in_models(model, fewer, prices) {
            let k = choose|k: int|
                0 <= k < fewer.len() && (#[trigger] fewer[k]).0 == model && lacks_pricing(
                    model,
                    priced_tokens(fewer[k].1),
                    prices,
                );
            assert(more[k] == fewer[k]);
        }
        if lacks_pricing_in_models(model, more, prices) {
            let k = choose|k: int|
                0 <= k < more.len() && (#[trigger] more[k]).0 == model && lacks_pricing(
                    model,
                    priced_tokens(more[k].1),
                    prices,
                );
            if k < m {
                assert(fewer[k] == more[k]);
            }
        }
        assert(more[m] == models[m]);
    }
}

/// One group more in the list adds the models of that group that lack a price.
proof fn lacks_pricing_in_one_more_group<R>(
    groups: Seq<(Seq<char>, CodexGroup)>,
    g: int,
    prices: Map<Seq<char>, Pricing<R>>,
)
    requires
        0 <= g < groups.len(),
    ensures
        forall|model: Seq<char>| #[trigger]
            lacks_pricing_in_groups(model, groups.take(g + 1), prices) == (lacks_pricing_in_groups(
                model,
                groups.take(g),
                prices,
            ) || lacks_pricing_in_models(model, groups[g].1.models@, prices)),
{
    let fewer = groups.take(g);
    let more = groups.take(g + 1);
    assert forall|model: Seq<char>| #[trigger]
        lacks_pricing_in_groups(model, more, prices) == (lacks_pricing_in_groups(
            model,
            fewer,
            prices,
        ) || lacks_pricing_in_models(model, groups[g].1.models@, prices)) by {
        if lacks_pricing_in_groups(model, fewer, prices) {
            let k = choose|k: int|
                0 <= k < fewer.len() && lacks_pricing_in_models(
                    model,
                    (#[trigger] fewer[k]).1.models@,
                    prices,
                );
            assert(more[k] == fewer[k]);
        }
        if lacks_pricing_in_groups(model, more, prices) {
            let k = choose|k: int|
                0 <= k < more.len() && lacks_pricing_in_models(
                    model,
                    (#[trigger] more[k]).1.models@,
                    prices,
                );
            if k < g {
                assert(fewer[k] == more[k]);
            }
        }
        assert(more[g] == groups[g]);
    }
}

/// The models that no price is known for in some group, each once, in ascending order.
pub fn codex_missing_pricing_models<R>(
    groups: &NameMap<CodexGroup>,
    pricing: &PricingMap<R>,
) -> (models: Vec<String>)
    ensures
        texts_ascend(texts(models@)),
        forall|model: Seq<char>| #[trigger]
            texts(models@).contains(model) == lacks_pricing_in_groups(model, groups@, pricing@),
{
    let mut missing: NameMap<()> = NameMap::new();
    let group_count: usize = groups.len();
    for g in 0..group_count
        invariant
            group_count == groups@.len(),
            forall|model: Seq<char>| #[trigger]
                entries_map(missing@).dom().contains(model) == lacks_pricing_in_groups(
                    model,
                    groups@.take(g as int),
                    pricing@,
                ),
    {
        let group = groups.value(g);
        let ghost earlier = groups@.take(g as int);
        let ghost models = group.models@;
        let model_count: usize = group.models.len();
        for m in 0..model_count
            invariant
                model_count == models.len(),
                models == group.models@,
                forall|model: Seq<char>| #[trigger]
                    entries_map(missing@).dom().contains(model) == (lacks_pricing_in_groups(
                        model,
                        earlier,
                        pricing@,
                    ) || lacks_pricing_in_models(model, models.take(m as int), pricing@)),
        {
            proof {
                lacks_pricing_in_one_more_model(models, m as int, pricing@);
            }
            let model = group.models.name(m);
            let usage = group.models.value(m);
            if codex_model_missing_pricing(model.as_str(), usage, pricing) {
                missing.insert(model.clone(), ());
            }
        }
        proof {
            lacks_pricing_in_one_more_group(groups@, g as int, pricing@);
            assert(models.take(models.len() as int) =~= models);
        }
    }
    assert(groups@.take(groups@.len() as int) =~= groups@);
    let models = missing.names();
    assert forall|model: Seq<char>| #[trigger]
        texts(models@).contains(model) == lacks_pricing_in_groups(model, groups@, pricing@) by {
        assert(entries_map(missing@).dom().contains(model) == names_of(missing@).contains(model));
    }
    models
}

/// A model with a known price is never reported, however much it used; nor is a model
/// that used no tokens.
pub proof fn priced_or_idle_models_are_not_missing<R>(
    model: Seq<char>,
    usage: CodexModelUsage,
    prices: Map<Seq<char>, Pricing<R>>,
)
    ensures
        prices.dom().contains(model) ==> !lacks_pricing(model, priced_tokens(usage), prices),
        usage.total_tokens == 0 && usage.input_tokens == 0 && usage.output_tokens == 0
            ==> !lacks_pricing(model, priced_tokens(usage), prices),
{
}

/// Setting the price of a model takes it, and no other model, off the list of models
/// without a price.
pub proof fn pricing_a_model_reports_the_others<R>(
    model: Seq<char>,
    other: Seq<char>,
    pricing: Pricing<R>,
    groups: Seq<(Seq<char>, CodexGroup)>,
    prices: Map<Seq<char>, Pricing<R>>,
)
    requires
        other != model,
    ensures
        !lacks_pricing_in_groups(model, groups, prices.insert(model, pricing)),
        lacks_pricing_in_groups(other, groups, prices.insert(model, pricing))
            == lacks_pricing_in_groups(other, groups, prices),
{
    let more = prices.insert(model, pricing);
    assert forall|models: Seq<(Seq<char>, CodexModelUsage)>| #[trigger]
        lacks_pricing_in_models(other, models, more) == lacks_pricing_in_models(
            other,
            models,
            prices,
        ) by {
        assert(forall|tokens: u64|
            lacks_pricing(other, tokens, more) == lacks_pricing(other, tokens, prices));
    }
    if lacks_pricing_in_groups(other, groups, more) {
        let g = choose|g: int|
            0 <= g < groups.len() && lacks_pricing_in_models(
                other,
                (#[trigger] groups[g]).1.models@,
                more,
            );
        assert(lacks_pricing_in_models(other, groups[g].1.models@, prices));
    }
}

} // verus!
