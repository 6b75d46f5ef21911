//! What a retry budget grants, what it counts, and how long it makes the caller wait.

use std::time::SystemTime;

use vstd::arithmetic::power::*;
use vstd::prelude::*;

use crate::error::ErrorLayer;
use crate::laws::{asked_all, can_ask_all, granted_count, Question};
use crate::retry::{
    backoff_factor, chain_verdict, is_time_between, is_wait, BackoffPolicy, Jitter, RetryModel,
    Retryable, Span,
};
use crate::trusted::clock_nanos;

verus! {

/// A retry is granted exactly if the error is transient and the retries so far, with those made below,
/// are fewer than the limit, if there is one.
pub proof fn law_grants_keep_to_the_limit(
    state: RetryModel,
    layers: Seq<ErrorLayer>,
    error_retries: nat,
)
    ensures
        state.grants(layers, error_retries) <==> {
            &&& chain_verdict(layers) == Some(Retryable::Transient)
            &&& state.policy.max_n_retries matches Some(max) ==> state.total_retries + error_retries
                < max
        },
{
}

/// Whatever the error is, asking adds the retries made below to the total, and one more exactly if a
/// retry is granted. Nothing else of the budget changes.
pub proof fn law_asking_is_counted(state: RetryModel, layers: Seq<ErrorLayer>, error_retries: nat)
    ensures
        ({
            let after = state.asked(layers, error_retries);
            &&& state.grants(layers, error_retries) && state.total_retries + error_retries
                < 0xffff_ffff ==> after.total_retries == state.total_retries + error_retries + 1
            &&& !state.grants(layers, error_retries) && state.total_retries + error_retries
                <= 0xffff_ffff ==> after.total_retries == state.total_retries + error_retries
            &&& after.policy == state.policy
            &&& after.start_time == state.start_time
            &&& after.url == state.url
        }),
{
}

/// The retries made below that a series of questions tells of.
pub open spec fn retries_reported(questions: Seq<Question>) -> nat
    decreases questions.len(),
{
    if questions.len() == 0 {
        0
    } else {
        retries_reported(questions.drop_last()) + questions.last().error_retries
    }
}

/// Over any series of questions the total grows by the retries made below and by the number of
/// grants.
pub proof fn law_total_is_the_sum(state: RetryModel, questions: Seq<Question>)
    requires
        can_ask_all(state, questions),
    ensures
        asked_all(state, questions).total_retries == state.total_retries + retries_reported(questions)
            + granted_count(state, questions),
    decreases questions.len(),
{
    if questions.len() > 0 {
        law_total_is_the_sum(state, questions.drop_last());
    }
}

/// An error that is not transient can be asked about whenever the sum can be counted, whatever the
/// policy is.
pub proof fn law_other_errors_can_be_asked_about(
    state: RetryModel,
    layers: Seq<ErrorLayer>,
    error_retries: nat,
)
    requires
        chain_verdict(layers) != Some(Retryable::Transient),
    ensures
        state.can_ask(layers, error_retries) <==> state.total_retries + error_retries
            <= 0xffff_ffff,
{
}

/// A budget that is spent can be asked about any error: no wait has to be calculated.
pub proof fn law_spent_budget_can_be_asked(
    state: RetryModel,
    layers: Seq<ErrorLayer>,
    error_retries: nat,
    max: u32,
)
    requires
        state.policy.max_n_retries == Some(max),
        max <= state.total_retries + error_retries <= 0xffff_ffff,
        state.policy.min_retry_interval.nanos < 1_000_000_000,
        state.policy.max_retry_interval.nanos < 1_000_000_000,
    ensures
        state.can_ask(layers, error_retries),
{
}

/// A budget whose intervals are in order and no longer than the clock can bear can be asked about any
/// error, as long as the sum can be counted.
pub proof fn law_ordinary_budget_can_be_asked(
    state: RetryModel,
    layers: Seq<ErrorLayer>,
    error_retries: nat,
)
    requires
        state.total_retries + error_retries < 0xffff_ffff,
        state.policy.min_retry_interval.nanos < 1_000_000_000,
        state.policy.max_retry_interval.nanos < 1_000_000_000,
        state.policy.min_retry_interval.secs <= 0xffff_ffff,
        state.policy.max_retry_interval.secs < 549_755_813_888,
        state.policy.min_retry_interval.secs < state.policy.max_retry_interval.secs || (
        state.policy.min_retry_interval.secs == state.policy.max_retry_interval.secs
            && state.policy.min_retry_interval.nanos <= state.policy.max_retry_interval.nanos),
        state.policy.base >= 1,
    ensures
        state.can_ask(layers, error_retries),
{
    let policy = state.policy;
    let total = state.total_retries as nat + error_retries;
    let min = policy.min_retry_interval.total_nanos();
    let factor = backoff_factor(policy.base, total);
    lemma_pow_positive(policy.base as int, total);
    assert(1 <= factor <= 0xffff_ffff);
    assert(min <= min * factor <= 18_446_744_073_709_551_615_999_999_999) by (nonlinear_arith)
        requires
            0 <= min <= 0xffff_ffff * 1_000_000_000 + 999_999_999,
            1 <= factor <= 0xffff_ffff,
    ;
}

/// The policy can calculate a wait exactly if neither the scaled interval nor the clock overflows, and
/// with bounded jitter the wait is not calculated below the shortest interval.
pub proof fn law_calculated_waits_fit(policy: BackoffPolicy, n_past_retries: nat)
    ensures
        policy.can_schedule(n_past_retries) <==> {
            let min = policy.min_retry_interval.total_nanos();
            &&& min * backoff_factor(policy.base, n_past_retries)
                <= 18_446_744_073_709_551_615_999_999_999
            &&& policy.interval(n_past_retries) <= 549_755_813_888_000_000_000
            &&& policy.jitter is Bounded ==> min <= policy.interval(n_past_retries)
        },
{
}

/// A policy allows one more retry exactly if it has no limit or the limit is not reached, and is well
/// formed if the left-over parts of its intervals are less than a second.
pub proof fn law_policy_allows_up_to_its_limit(policy: BackoffPolicy, n_past_retries: int)
    ensures
        policy.allows(n_past_retries) <==> (policy.max_n_retries matches Some(max)
            ==> n_past_retries < max),
        policy.well_formed() <==> policy.min_retry_interval.nanos < 1_000_000_000
            && policy.max_retry_interval.nanos < 1_000_000_000,
{
}

/// A budget can be asked about a transient error exactly if the sum can be counted, the intervals are
/// proper, and, where the limit leaves a retry, the wait can be calculated and the retry be counted.
pub proof fn law_transient_errors_can_be_asked_about(
    state: RetryModel,
    layers: Seq<ErrorLayer>,
    error_retries: nat,
)
    requires
        chain_verdict(layers) == Some(Retryable::Transient),
    ensures
        state.can_ask(layers, error_retries) <==> {
            let total = state.total_retries + error_retries;
            &&& total <= 0xffff_ffff
            &&& state.policy.min_retry_interval.nanos < 1_000_000_000
            &&& state.policy.max_retry_interval.nanos < 1_000_000_000
            &&& state.grants(layers, error_retries) ==> total < 0xffff_ffff
                && state.policy.can_schedule(total as nat)
        },
{
}

/// The factor starts at one and is multiplied by the base for every retry, up to the largest number
/// of 32 bits, where it stays.
pub proof fn law_factor_is_multiplied_by_the_base(base: u32, n: nat)
    ensures
        backoff_factor(base, 0) == 1,
        ({
            let factor = backoff_factor(base, n);
            let next = backoff_factor(base, n + 1);
            &&& factor < 0xffff_ffff && base * factor <= 0xffff_ffff ==> next == base * factor
            &&& factor < 0xffff_ffff && base * factor > 0xffff_ffff ==> next == 0xffff_ffff
            &&& factor == 0xffff_ffff && base >= 1 ==> next == 0xffff_ffff
        }),
{
    lemma_pow0(base as int);
    lemma_pow1(base as int);
    lemma_pow_adds(base as int, 1, n);
    let power = pow(base as int, n);
    assert(pow(base as int, n + 1) == base * power);
    if base >= 1 {
        lemma_pow_positive(base as int, n);
        assert(base * power >= power) by (nonlinear_arith)
            requires
                base >= 1,
                power > 0,
        ;
    } else {
        if n > 0 {
            lemma0_pow(n);
        }
    }
}

/// The calculated wait is the shortest interval for the first retry and grows by the base with every
/// further one, but never beyond the longest interval.
pub proof fn law_intervals_grow_exponentially(policy: BackoffPolicy, n: nat)
    ensures
        ({
            let min = policy.min_retry_interval.total_nanos();
            let max = policy.max_retry_interval.total_nanos();
            let factor = backoff_factor(policy.base, n);
            &&& policy.interval(n) <= max
            &&& policy.interval(0) == if min <= max {
                min
            } else {
                max
            }
            &&& min * factor <= max ==> policy.interval(n) == min * factor
            &&& min * factor > max ==> policy.interval(n) == max
        }),
{
    law_factor_is_multiplied_by_the_base(policy.base, n);
    let min = policy.min_retry_interval.total_nanos();
    assert(min * 1 == min);
}

/// A span is its seconds and what is left over, in nanoseconds.
pub proof fn law_span_counts_nanoseconds(span: Span)
    ensures
        span.total_nanos() == span.secs * 1_000_000_000 + span.nanos,
        span.well_formed() <==> span.nanos < 1_000_000_000,
{
}

/// Two proper spans of the same length are the same.
pub proof fn law_spans_are_unambiguous(a: Span, b: Span)
    requires
        a.nanos < 1_000_000_000,
        b.nanos < 1_000_000_000,
        a.total_nanos() == b.total_nanos(),
    ensures
        a == b,
{
}

/// Without jitter the next try is due after the calculated wait, up to a step of the clock; with
/// jitter, within it, and with bounded jitter not before half of the shortest interval, up to
/// rounding. It is never due before the policy was asked, nor after the longest interval.
pub proof fn law_next_try_is_due_in_time(
    policy: BackoffPolicy,
    n_past_retries: nat,
    asked_at: SystemTime,
    then: SystemTime,
)
    requires
        policy.schedules(n_past_retries, asked_at, then),
    ensures
        ({
            let wait = clock_nanos(then) - clock_nanos(asked_at);
            let min = policy.min_retry_interval.total_nanos();
            let interval = policy.interval(n_past_retries);
            &&& 0 <= wait <= policy.max_retry_interval.total_nanos()
            &&& wait <= interval + interval / 1_000_000_000 + 100
            &&& policy.jitter == Jitter::Off ==> interval - 100 < wait <= interval
            &&& policy.jitter == Jitter::Bounded ==> wait >= min / 2 - min / 1_000_000_000 - 100
        }),
{
}

/// The wait that is handed out lasts from the reading that it is measured from until the next try is
/// due, and is nothing where that has passed.
pub proof fn law_wait_lasts_until_the_next_try(now: SystemTime, then: SystemTime, span: Span)
    requires
        is_wait(now, then, span),
    ensures
        span.nanos < 1_000_000_000,
        clock_nanos(then) >= clock_nanos(now) ==> span.secs * 1_000_000_000 + span.nanos
            == clock_nanos(then) - clock_nanos(now),
        clock_nanos(then) <= clock_nanos(now) ==> span.secs == 0 && span.nanos == 0,
{
}

/// The wait comes from the policy of the budget, asked with the retries so far and those made below:
/// where it starts from the reading that the policy takes, it lies between the bounds of the policy.
pub proof fn law_wait_follows_the_count(
    state: RetryModel,
    error_retries: nat,
    now: SystemTime,
    span: Span,
)
    requires
        state.sets_wait(error_retries, now, span),
    ensures
        span.nanos < 1_000_000_000,
        exists|asked_at: SystemTime, then: SystemTime|
            {
                &&& #[trigger] is_wait(now, then, span)
                &&& #[trigger] state.policy.schedules(
                    (state.total_retries + error_retries) as nat,
                    asked_at,
                    then,
                )
            },
{
}

/// Two budgets with the same policy and the same sum of retries set the same waits, however the sum is
/// made up.
pub proof fn law_wait_depends_on_the_sum(
    a: RetryModel,
    a_retries: nat,
    b: RetryModel,
    b_retries: nat,
    now: SystemTime,
    span: Span,
)
    requires
        a.policy == b.policy,
        a.total_retries + a_retries == b.total_retries + b_retries,
    ensures
        a.sets_wait(a_retries, now, span) == b.sets_wait(b_retries, now, span),
{
}

/// The time between two readings of the clock is told exactly, as an error where the second reading is
/// the smaller one.
pub proof fn law_time_between_readings_is_exact(
    from: SystemTime,
    to: SystemTime,
    span: Result<Span, Span>,
)
    requires
        is_time_between(from, to, span),
    ensures
        span is Ok <==> clock_nanos(to) >= clock_nanos(from),
        span matches Ok(span) ==> span.nanos < 1_000_000_000 && span.secs * 1_000_000_000
            + span.nanos == clock_nanos(to) - clock_nanos(from),
        span matches Err(span) ==> span.nanos < 1_000_000_000 && span.secs * 1_000_000_000
            + span.nanos == clock_nanos(from) - clock_nanos(to),
{
}

} // verus!
