//! Token usage as it is recorded: per model, per group, and per bucket.
use crate::names::NameMap;
use vstd::prelude::*;

verus! {

/// Tokens that are priced together. Those of long-context requests are counted twice:
/// among all the tokens, and on their own.
#[derive(Clone, Copy, Debug, PartialEq, Eq, Structural)]
pub struct CodexUsageBucket {
    pub input_tokens: u64,
    pub cached_input_tokens: u64,
    pub output_tokens: u64,
    pub long_context_input_tokens: u64,
    pub long_context_cached_input_tokens: u64,
    pub long_context_output_tokens: u64,
}

/// What one model used. Part of it may have been recorded as served at the fast or at
/// the standard tier.
#[derive(Clone, Copy, Debug, PartialEq, Eq, Structural)]
pub struct CodexModelUsage {
    pub input_tokens: u64,
    pub cached_input_tokens: u64,
    pub output_tokens: u64,
    pub reasoning_output_tokens: u64,
    pub total_tokens: u64,
    pub is_fallback: bool,
    pub long_context_input_tokens: u64,
    pub long_context_cached_input_tokens: u64,
    pub long_context_output_tokens: u64,
    pub recorded_fast_usage: CodexUsageBucket,
    pub recorded_standard_usage: CodexUsageBucket,
}

/// What was used in one period or session, in all and by each model.
#[derive(Debug)]
pub struct CodexGroup {
    pub input_tokens: u64,
    pub cached_input_tokens: u64,
    pub output_tokens: u64,
    pub reasoning_output_tokens: u64,
    pub total_tokens: u64,
    pub last_activity: Option<String>,
    pub models: NameMap<CodexModelUsage>,
}

/// The tier at which a request is served.
#[derive(Clone, Copy, Debug, PartialEq, Eq, Structural)]
pub enum CodexServiceTier {
    Standard,
    Fast,
}

/// How the tier of a request is told: one tier for every request, or what was recorded,
/// with a tier for the requests of which nothing was recorded.
#[derive(Clone, Copy, Debug, PartialEq, Eq, Structural)]
pub enum CodexSpeedPolicy {
    Forced(CodexServiceTier),
    Auto(CodexServiceTier),
}

/// `a` without `b`, and nothing where `b` is the larger.
pub open spec fn tokens_without(a: u64, b: u64) -> u64 {
    if a >= b {
        (a - b) as u64
    } else {
        0
    }
}

/// The input tokens that were not read from the cache.
pub fn non_cached_input_tokens(input_tokens: u64, cached_input_tokens: u64) -> (tokens: u64)
    ensures
        tokens == tokens_without(input_tokens, cached_input_tokens),
{
    input_tokens.saturating_sub(cached_input_tokens)
}

/// All the tokens of a model, as a bucket.
pub open spec fn bucket_of_model(usage: CodexModelUsage) -> CodexUsageBucket {
    CodexUsageBucket {
        input_tokens: usage.input_tokens,
        cached_input_tokens: usage.cached_input_tokens,
        output_tokens: usage.output_tokens,
        long_context_input_tokens: usage.long_context_input_tokens,
        long_context_cached_input_tokens: usage.long_context_cached_input_tokens,
        long_context_output_tokens: usage.long_context_output_tokens,
    }
}

/// All the tokens of a model, as a bucket.
pub fn model_usage_bucket(usage: &CodexModelUsage) -> (bucket: CodexUsageBucket)
    ensures
        bucket == bucket_of_model(*usage),
{
    CodexUsageBucket {
        input_tokens: usage.input_tokens,
        cached_input_tokens: usage.cached_input_tokens,
        output_tokens: usage.output_tokens,
        long_context_input_tokens: usage.long_context_input_tokens,
        long_context_cached_input_tokens: usage.long_context_cached_input_tokens,
        long_context_output_tokens: usage.long_context_output_tokens,
    }
}

/// A bucket without the tokens of another, count by count.
pub open spec fn bucket_without(
    total: CodexUsageBucket,
    excluded: CodexUsageBucket,
) -> CodexUsageBucket {
    CodexUsageBucket {
        input_tokens: tokens_without(total.input_tokens, excluded.input_tokens),
        cached_input_tokens: tokens_without(
            total.cached_input_tokens,
            excluded.cached_input_tokens,
        ),
        output_tokens: tokens_without(total.output_tokens, excluded.output_tokens),
        long_context_input_tokens: tokens_without(
            total.long_context_input_tokens,
            excluded.long_context_input_tokens,
        ),
        long_context_cached_input_tokens: tokens_without(
            total.long_context_cached_input_tokens,
            excluded.long_context_cached_input_tokens,
        ),
        long_context_output_tokens: tokens_without(
            total.long_context_output_tokens,
            excluded.long_context_output_tokens,
        ),
    }
}

/// Takes the tokens of one bucket out of another; no count falls below zero.
pub fn subtract_codex_usage_bucket(
    total: CodexUsageBucket,
    excluded: CodexUsageBucket,
) -> (rest: CodexUsageBucket)
    ensures
        rest == bucket_without(total, excluded),
{
    CodexUsageBucket {
        input_tokens: total.input_tokens.saturating_sub(excluded.input_tokens),
        cached_input_tokens: total.cached_input_tokens.saturating_sub(
            excluded.cached_input_tokens,
        ),
        output_tokens: total.output_tokens.saturating_sub(excluded.output_tokens),
        long_context_input_tokens: total.long_context_input_tokens.saturating_sub(
            excluded.long_context_input_tokens,
        ),
        long_context_cached_input_tokens: total.long_context_cached_input_tokens.saturating_sub(
            excluded.long_context_cached_input_tokens,
        ),
        long_context_output_tokens: total.long_context_output_tokens.saturating_sub(
            excluded.long_context_output_tokens,
        ),
    }
}

/// A bucket without tokens.
pub open spec fn empty_bucket() -> CodexUsageBucket {
    CodexUsageBucket {
        input_tokens: 0,
        cached_input_tokens: 0,
        output_tokens: 0,
        long_context_input_tokens: 0,
        long_context_cached_input_tokens: 0,
        long_context_output_tokens: 0,
    }
}

/// Whether no count of `a` is above that of `b`.
pub open spec fn bucket_within(a: CodexUsageBucket, b: CodexUsageBucket) -> bool {
    &&& a.input_tokens <= b.input_tokens
    &&& a.cached_input_tokens <= b.cached_input_tokens
    &&& a.output_tokens <= b.output_tokens
    &&& a.long_context_input_tokens <= b.long_context_input_tokens
    &&& a.long_context_cached_input_tokens <= b.long_context_cached_input_tokens
    &&& a.long_context_output_tokens <= b.long_context_output_tokens
}

/// Whether each count of `whole` is the sum of those of `a` and `b`.
pub open spec fn bucket_is_sum(
    whole: CodexUsageBucket,
    a: CodexUsageBucket,
    b: CodexUsageBucket,
) -> bool {
    &&& whole.input_tokens == a.input_tokens + b.input_tokens
    &&& whole.cached_input_tokens == a.cached_input_tokens + b.cached_input_tokens
    &&& whole.output_tokens == a.output_tokens + b.output_tokens
    &&& whole.long_context_input_tokens == a.long_context_input_tokens
        + b.long_context_input_tokens
    &&& whole.long_context_cached_input_tokens == a.long_context_cached_input_tokens
        + b.long_context_cached_input_tokens
    &&& whole.long_context_output_tokens == a.long_context_output_tokens
        + b.long_context_output_tokens
}

/// Cached and non-cached input make up the input, or the cached count where that is
/// larger than the whole input.
pub proof fn cached_and_non_cached_input(input_tokens: u64, cached_input_tokens: u64)
    ensures
        tokens_without(input_tokens, cached_input_tokens) + cached_input_tokens == (if input_tokens
            >= cached_input_tokens {
            input_tokens
        } else {
            cached_input_tokens
        }),
{
}

/// What is left of a bucket lies within it; leaving out nothing leaves all of it, and
/// leaving out all of it leaves nothing.
pub proof fn subtraction_stays_within(total: CodexUsageBucket, excluded: CodexUsageBucket)
    ensures
        bucket_within(bucket_without(total, excluded), total),
        bucket_without(total, empty_bucket()) == total,
        bucket_within(total, excluded) ==> bucket_without(total, excluded) == empty_bucket(),
{
}

/// A part that is taken out of a bucket and what is left of it make up the bucket.
pub proof fn subtraction_is_undone_by_addition(total: CodexUsageBucket, part: CodexUsageBucket)
    requires
        bucket_within(part, total),
    ensures
        bucket_is_sum(total, part, bucket_without(total, part)),
{
}

} // verus!
