//! Token counts added up over groups.
use crate::names::NameMap;
use crate::usage::{non_cached_input_tokens, tokens_without, CodexGroup};
use vstd::prelude::*;

verus! {

/// The counts that are added up.
#[derive(Clone, Copy, Debug, PartialEq, Eq, Structural)]
pub struct UsageTotals {
    pub input_tokens: u64,
    pub cached_input_tokens: u64,
    pub output_tokens: u64,
    pub reasoning_output_tokens: u64,
    pub total_tokens: u64,
}

/// One of the counts that are added up.
pub enum Count {
    Input,
    CachedInput,
    Output,
    ReasoningOutput,
    Total,
}

/// What a group adds to a count. To the input it adds what was not cached.
pub open spec fn group_count(group: CodexGroup, count: Count) -> u64 {
    match count {
        Count::Input => tokens_without(group.input_tokens, group.cached_input_tokens),
        Count::CachedInput => group.cached_input_tokens,
        Count::Output => group.output_tokens,
        Count::ReasoningOutput => group.reasoning_output_tokens,
        Count::Total => group.total_tokens,
    }
}

/// A count added up over all groups.
pub open spec fn sum_over(groups: Seq<(Seq<char>, CodexGroup)>, count: Count) -> int
    decreases groups.len(),
{
    if groups.len() == 0 {
        0
    } else {
        sum_over(groups.drop_last(), count) + group_count(groups.last().1, count)
    }
}

/// Whether every count can be added up without passing the largest number there is.
pub open spec fn totals_fit(groups: Seq<(Seq<char>, CodexGroup)>) -> bool {
    forall|count: Count| #[trigger] sum_over(groups, count) <= u64::MAX
}

/// Whether the totals are those of the groups.
pub open spec fn totals_match(
    totals: UsageTotals,
    groups: Seq<(Seq<char>, CodexGroup)>,
) -> bool {
    &&& totals.input_tokens == sum_over(groups, Count::Input)
    &&& totals.cached_input_tokens == sum_over(groups, Count::CachedInput)
    &&& totals.output_tokens == sum_over(groups, Count::Output)
    &&& totals.reasoning_output_tokens == sum_over(groups, Count::ReasoningOutput)
    &&& totals.total_tokens == sum_over(groups, Count::Total)
}

/// A count added up over groups is never negative.
pub proof fn sum_over_is_not_negative(groups: Seq<(Seq<char>, CodexGroup)>, count: Count)
    ensures
        sum_over(groups, count) >= 0,
    decreases groups.len(),
{
    if groups.len() > 0 {
        sum_over_is_not_negative(groups.drop_last(), count);
    }
}

/// A longer list of groups never adds up to less.
proof fn sum_over_grows(groups: Seq<(Seq<char>, CodexGroup)>, i: int, count: Count)
    requires
        0 <= i <= groups.len(),
    ensures
        0 <= sum_over(groups.take(i), count) <= sum_over(groups, count),
    decreases groups.len(),
{
    if i == groups.len() {
        assert(groups.take(i) =~= groups);
        sum_over_is_not_negative(groups, count);
    } else {
        sum_over_grows(groups.drop_last(), i, count);
        assert(groups.drop_last().take(i) =~= groups.take(i));
    }
}

/// One group more adds its counts.
proof fn sum_over_one_more(groups: Seq<(Seq<char>, CodexGroup)>, i: int, count: Count)
    requires
        0 <= i < groups.len(),
    ensures
        sum_over(groups.take(i + 1), count) == sum_over(groups.take(i), count) + group_count(
            groups[i].1,
            count,
        ),
        0 <= sum_over(groups.take(i + 1), count) <= sum_over(groups, count),
{
    assert(groups.take(i + 1).drop_last() =~= groups.take(i));
    sum_over_grows(groups, i + 1, count);
}

/// Adds up the counts of all groups, if each sum is a number that can be held.
pub fn codex_totals(groups: &NameMap<CodexGroup>) -> (totals: Option<UsageTotals>)
    ensures
        totals is Some == totals_fit(groups@),
        totals is Some ==> totals_match(totals->0, groups@),
{
    let mut input: u64 = 0;
    let mut cached: u64 = 0;
    let mut output: u64 = 0;
    let mut reasoning: u64 = 0;
    let mut total: u64 = 0;
    let count: usize = groups.len();
    for i in 0..count
        invariant
            count == groups@.len(),
            input == sum_over(groups@.take(i as int), Count::Input),
            cached == sum_over(groups@.take(i as int), Count::CachedInput),
            output == sum_over(groups@.take(i as int), Count::Output),
            reasoning == sum_over(groups@.take(i as int), Count::ReasoningOutput),
            total == sum_over(groups@.take(i as int), Count::Total),
    {
        proof {
            sum_over_one_more(groups@, i as int, Count::Input);
            sum_over_one_more(groups@, i as int, Count::CachedInput);
            sum_over_one_more(groups@, i as int, Count::Output);
            sum_over_one_more(groups@, i as int, Count::ReasoningOutput);
            sum_over_one_more(groups@, i as int, Count::Total);
        }
        let group = groups.value(i);
        let added: u64 = non_cached_input_tokens(group.input_tokens, group.cached_input_tokens);
        match (
            input.checked_add(added),
            cached.checked_add(group.cached_input_tokens),
            output.checked_add(group.output_tokens),
            reasoning.checked_add(group.reasoning_output_tokens),
            total.checked_add(group.total_tokens),
        ) {
            (Some(a), Some(b), Some(c), Some(d), Some(e)) => {
                input = a;
                cached = b;
                output = c;
                reasoning = d;
                total = e;
            },
            _ => {
                return None;
            },
        }
    }
    proof {
        assert(groups@.take(count as int) =~= groups@);
        assert forall|count: Count| #[trigger] sum_over(groups@, count) <= u64::MAX by {
            match count {
                Count::Input => {},
                Count::CachedInput => {},
                Count::Output => {},
                Count::ReasoningOutput => {},
                Count::Total => {},
            }
        }
    }
    Some(
        UsageTotals {
            input_tokens: input,
            cached_input_tokens: cached,
            output_tokens: output,
            reasoning_output_tokens: reasoning,
            total_tokens: total,
        },
    )
}

} // verus!
