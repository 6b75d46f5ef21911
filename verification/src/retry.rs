//! Which failures are worth another try, and how many tries there are.

use std::time::SystemTime;

use vstd::arithmetic::power::*;
use vstd::prelude::*;

use crate::error::{ErrorChain, ErrorLayer, IoErrorKind, MiddlewareError, ReqwestFailure};
use crate::response::ResponseHead;
use crate::trusted::{
    backoff_decision, default_on_request_success, is_server_error, system_now, time_since,
};

verus! {

/// Classification of a failed request.
#[derive(Clone, Copy, Debug, PartialEq, Eq, Structural)]
pub enum Retryable {
    /// The failure might resolve by itself.
    Transient,
    /// Asking again will not help.
    Fatal,
}

/// The status code 408, Request Timeout.
pub const REQUEST_TIMEOUT: u16 = 408;

/// The status code 429, Too Many Requests.
pub const TOO_MANY_REQUESTS: u16 = 429;

/// A length of time.
#[derive(Clone, Copy, Debug, PartialEq, Eq, Structural)]
pub struct Span {
    pub secs: u64,
    /// The part of a second that is left over, in nanoseconds.
    pub nanos: u32,
}

impl Span {
    pub open spec fn well_formed(self) -> bool {
        self.nanos < 1_000_000_000
    }

    /// The whole span in nanoseconds.
    pub open spec fn total_nanos(self) -> nat {
        (self.secs * 1_000_000_000 + self.nanos) as nat
    }

    /// The whole span in nanoseconds.
    pub fn as_nanos(&self) -> (nanos: u128)
        ensures
            nanos == self.total_nanos(),
    {
        self.secs as u128 * 1_000_000_000 + self.nanos as u128
    }
}

/// How chance changes a waiting time.
#[derive(Clone, Copy, Debug, PartialEq, Eq, Structural)]
pub enum Jitter {
    /// Not at all.
    Off,
    /// The wait is drawn between zero and the calculated time.
    Full,
    /// The wait is drawn between half of the shortest interval and the calculated time.
    Bounded,
}

/// The longest span, in nanoseconds, that the standard library can hold.
pub const MAX_SPAN_NANOS: u128 = 18_446_744_073_709_551_615_999_999_999;

/// The longest wait, in nanoseconds, that every clock can add to the present: some seventeen
/// thousand years.
pub const MAX_WAIT_NANOS: u128 = 549_755_813_888_000_000_000;

/// The coarsest step, in nanoseconds, in which the clock of a system counts. A time that is set
/// ahead of the present is cut down to a whole step.
pub const CLOCK_STEP_NANOS: u128 = 100;

/// By how much a span that is scaled in floating point and added to the clock may come out too long
/// or too short: a billionth of it, which is far more than the last digit of a double, and a step of
/// the clock.
pub open spec fn rounding(nanos: nat) -> nat {
    nanos / 1_000_000_000 + CLOCK_STEP_NANOS as nat
}

/// The factor by which the shortest interval is scaled after `n_past_retries` retries: a power of
/// the base, up to the largest that 32 bits hold.
pub open spec fn backoff_factor(base: u32, n_past_retries: nat) -> nat {
    let power = pow(base as int, n_past_retries);
    if power <= u32::MAX {
        power as nat
    } else {
        u32::MAX as nat
    }
}

/// Calculates the factor by which the shortest interval is scaled.
fn scale_factor(base: u32, n_past_retries: u32) -> (factor: u32)
    ensures
        factor == backoff_factor(base, n_past_retries as nat),
{
    proof {
        lemma_pow0(base as int);
        lemma1_pow(n_past_retries as nat);
        if n_past_retries > 0 {
            lemma0_pow(n_past_retries as nat);
        }
    }
    if n_past_retries == 0 || base == 1 {
        return 1;
    }
    if base == 0 {
        return 0;
    }
    let mut factor: u32 = 1;
    let mut i: u32 = 0;
    while i < n_past_retries
        invariant
            i <= n_past_retries,
            base >= 2,
            factor == pow(base as int, i as nat),
        decreases n_past_retries - i,
    {
        proof {
            lemma_pow_adds(base as int, i as nat, 1);
            lemma_pow1(base as int);
            lemma_pow_increases(base as nat, (i + 1) as nat, n_past_retries as nat);
        }
        match factor.checked_mul(base) {
            Some(next) => {
                factor = next;
            },
            None => {
                return u32::MAX;
            },
        }
        i = i + 1;
    }
    factor
}

/// Exponential backoff: how often to try again, and how long to wait before each try.
#[derive(Clone, Copy, Debug, PartialEq, Eq, Structural)]
pub struct BackoffPolicy {
    /// The number of retries that are allowed; without one there is no end to them.
    pub max_n_retries: Option<u32>,
    pub min_retry_interval: Span,
    pub max_retry_interval: Span,
    pub jitter: Jitter,
    /// The base of the exponential.
    pub base: u32,
}

impl BackoffPolicy {
    pub open spec fn well_formed(self) -> bool {
        self.min_retry_interval.well_formed() && self.max_retry_interval.well_formed()
    }

    /// Whether the wait after `n_past_retries` retries can be calculated: scaling the shortest
    /// interval does not overflow, the clock can be set ahead by the result, and with bounded jitter
    /// it does not fall below the shortest interval.
    pub open spec fn can_schedule(self, n_past_retries: nat) -> bool {
        let min = self.min_retry_interval.total_nanos();
        let max = self.max_retry_interval.total_nanos();
        let scaled = min * backoff_factor(self.base, n_past_retries);
        &&& scaled <= MAX_SPAN_NANOS
        &&& scaled <= MAX_WAIT_NANOS || max <= MAX_WAIT_NANOS
        &&& self.jitter is Bounded ==> min <= scaled && min <= max
    }

    /// The wait after `n_past_retries` retries, in nanoseconds, before chance changes it: the shortest
    /// interval scaled by a power of the base, up to the longest interval.
    pub open spec fn interval(self, n_past_retries: nat) -> nat {
        let max = self.max_retry_interval.total_nanos();
        let scaled = self.min_retry_interval.total_nanos() * backoff_factor(
            self.base,
            n_past_retries,
        );
        if scaled <= max {
            scaled
        } else {
            max
        }
    }

    /// Whether the policy, asked at the clock reading `asked_at` after `n_past_retries` retries, can
    /// set the next try for the reading `then`.
    pub open spec fn schedules(
        self,
        n_past_retries: nat,
        asked_at: SystemTime,
        then: SystemTime,
    ) -> bool {
        let wait = crate::trusted::clock_nanos(then) - crate::trusted::clock_nanos(asked_at);
        let min = self.min_retry_interval.total_nanos();
        let interval = self.interval(n_past_retries);
        &&& 0 <= wait <= self.max_retry_interval.total_nanos()
        &&& match self.jitter {
            Jitter::Off => interval - CLOCK_STEP_NANOS < wait <= interval,
            Jitter::Full => wait <= interval + rounding(interval),
            Jitter::Bounded => min / 2 - rounding(min) <= wait <= interval + rounding(interval),
        }
    }

    /// Checks that the policy can be asked for a retry after `n_past_retries` of them: its spans are
    /// proper ones, and if a retry is allowed, the wait can be calculated.
    pub fn can_decide(&self, n_past_retries: u32) -> (checked: bool)
        ensures
            checked == (self.well_formed() && (self.allows(n_past_retries as int)
                ==> self.can_schedule(n_past_retries as nat))),
    {
        if self.min_retry_interval.nanos >= 1_000_000_000 || self.max_retry_interval.nanos
            >= 1_000_000_000 {
            return false;
        }
        if let Some(max_n_retries) = self.max_n_retries {
            if n_past_retries >= max_n_retries {
                return true;
            }
        }
        let min: u128 = self.min_retry_interval.as_nanos();
        let max: u128 = self.max_retry_interval.as_nanos();
        let factor: u128 = scale_factor(self.base, n_past_retries) as u128;
        assert(min * factor <= 0x1_0000_0000_0000_0000 * 1_000_000_000 * 0x1_0000_0000)
            by (nonlinear_arith)
            requires
                0 <= min <= 0x1_0000_0000_0000_0000 * 1_000_000_000,
                0 <= factor <= 0x1_0000_0000,
        ;
        let scaled: u128 = min * factor;
        scaled <= MAX_SPAN_NANOS && (scaled <= MAX_WAIT_NANOS || max <= MAX_WAIT_NANOS) && (
        self.jitter != Jitter::Bounded || (min <= scaled && min <= max))
    }

    /// Whether one more retry is allowed after `n_past_retries` of them.
    pub open spec fn allows(self, n_past_retries: int) -> bool {
        match self.max_n_retries {
            Some(max) => n_past_retries < max,
            None => true,
        }
    }
}

/// The I/O error kinds of a connection that failed on the way.
pub open spec fn is_network_kind(kind: IoErrorKind) -> bool {
    ||| kind is BrokenPipe
    ||| kind is ConnectionAborted
    ||| kind is ConnectionReset
    ||| kind is InvalidData
    ||| kind is TimedOut
    ||| kind is UnexpectedEof
}

/// The status codes after which a request is worth repeating.
pub open spec fn is_retryable_status(status: u16) -> bool {
    500 <= status < 600 || status == REQUEST_TIMEOUT || status == TOO_MANY_REQUESTS
}

/// Whether an error of `reqwest` is worth another try: its own crate says so, or the status code
/// that it was made from does.
pub open spec fn is_transient_failure(failure: ReqwestFailure) -> bool {
    ||| failure.default_verdict == Some(Retryable::Transient)
    ||| failure.status matches Some(status) && is_retryable_status(status)
}

/// The error of `reqwest` that a layer is or directly holds.
pub open spec fn reqwest_failure(layer: ErrorLayer) -> Option<ReqwestFailure> {
    match layer {
        ErrorLayer::Reqwest(failure) => Some(failure),
        ErrorLayer::WrappedReqwest(wrapped) => wrapped.inner,
        ErrorLayer::Middleware(MiddlewareError::Reqwest(failure)) => Some(failure),
        _ => None,
    }
}

/// Whether one error of a chain, taken by itself, is worth another try.
pub open spec fn is_transient_layer(layer: ErrorLayer) -> bool {
    match reqwest_failure(layer) {
        Some(failure) => is_transient_failure(failure),
        None => match layer {
            ErrorLayer::H2 => true,
            ErrorLayer::Io(kind) => is_network_kind(kind),
            _ => false,
        },
    }
}

/// A chain is transient as soon as one error in it is; nothing in it makes it fatal.
pub open spec fn chain_verdict(layers: Seq<ErrorLayer>) -> Option<Retryable> {
    if exists|i: int| 0 <= i < layers.len() && is_transient_layer(#[trigger] layers[i]) {
        Some(Retryable::Transient)
    } else {
        None
    }
}

/// Whether the kind is one of a connection that failed on the way.
pub(crate) fn check_network_kind(kind: IoErrorKind) -> (retryable: bool)
    ensures
        retryable == is_network_kind(kind),
{
    matches!(
        kind,
        IoErrorKind::BrokenPipe | IoErrorKind::ConnectionAborted | IoErrorKind::ConnectionReset
            | IoErrorKind::InvalidData | IoErrorKind::TimedOut | IoErrorKind::UnexpectedEof
    )
}

/// Whether the error is a status code error that is retryable.
pub fn is_retryable_status_error(reqwest_err: &ReqwestFailure) -> (retryable: bool)
    ensures
        retryable == (reqwest_err.status matches Some(status) && is_retryable_status(status)),
{
    match reqwest_err.status {
        None => false,
        Some(status) => is_server_error(status) || status == REQUEST_TIMEOUT || status
            == TOO_MANY_REQUESTS,
    }
}

/// Whether one error of a chain, taken by itself, is worth another try.
fn is_retryable_layer(source: &ErrorLayer) -> (retryable: bool)
    ensures
        retryable == is_transient_layer(*source),
{
    // An error of `reqwest` may be nested inside one of another type.
    let reqwest_err: Option<ReqwestFailure> = match source {
        ErrorLayer::Reqwest(failure) => Some(*failure),
        ErrorLayer::WrappedReqwest(wrapped) => wrapped.inner,
        ErrorLayer::Middleware(MiddlewareError::Reqwest(failure)) => Some(*failure),
        _ => None,
    };
    if let Some(failure) = reqwest_err {
        // A fatal verdict does not end the search: a source may still be transient.
        if failure.default_verdict == Some(Retryable::Transient) {
            return true;
        }
        return is_retryable_status_error(&failure);
    }
    match source {
        ErrorLayer::H2 => true,
        ErrorLayer::Io(kind) => check_network_kind(*kind),
        _ => false,
    }
}

/// Whether the error looks like a network error that should be retried.
///
/// The error and all its sources are searched, since an I/O error may hide inside an error of the
/// HTTP client, and an error of the HTTP client behind those of the code that read the stream.
pub fn retryable_on_request_failure(err: &ErrorChain) -> (verdict: Option<Retryable>)
    ensures
        verdict == chain_verdict(err@),
{
    if is_retryable_layer(&err.error) {
        assert(is_transient_layer(err@[0]));
        return Some(Retryable::Transient);
    }
    let mut i: usize = 0;
    while i < err.sources.len()
        invariant
            i <= err.sources@.len(),
            forall|k: int| 0 <= k <= i ==> !is_transient_layer(#[trigger] err@[k]),
        decreases err.sources@.len() - i,
    {
        if is_retryable_layer(&err.sources[i]) {
            assert(is_transient_layer(err@[i + 1]));
            return Some(Retryable::Transient);
        }
        assert(!is_transient_layer(err@[i + 1]));
        i = i + 1;
    }
    None
}

/// The verdict on a request that ended with a response or with an error.
pub open spec fn outcome_verdict(res: Result<ResponseHead, ErrorChain>) -> Option<Retryable> {
    match res {
        Ok(response) => crate::trusted::success_verdict(response.status),
        Err(err) => chain_verdict(err@),
    }
}

/// The default strategy of `reqwest_retry` with more errors that are worth another try.
pub struct UvRetryableStrategy;

impl UvRetryableStrategy {
    /// Classifies a request that ended with a response or with an error.
    pub fn handle(&self, res: &Result<ResponseHead, ErrorChain>) -> (verdict: Option<Retryable>)
        requires
            res matches Ok(response) ==> response.well_formed(),
        ensures
            verdict == outcome_verdict(*res),
    {
        match res {
            Ok(success) => default_on_request_success(success.status),
            Err(err) => retryable_on_request_failure(err),
        }
    }
}

/// The state of a [`RetryState`].
pub struct RetryModel {
    pub policy: BackoffPolicy,
    pub start_time: SystemTime,
    pub total_retries: u32,
    pub url: Seq<char>,
}

impl RetryModel {
    /// Whether an error of this chain is retried, with `error_retries` retries made below.
    pub open spec fn grants(self, layers: Seq<ErrorLayer>, error_retries: nat) -> bool {
        &&& chain_verdict(layers) == Some(Retryable::Transient)
        &&& self.policy.allows(self.total_retries + error_retries)
    }

    /// The state after the budget was asked for a retry. The retries made below count as spent,
    /// whatever the answer; a retry that is granted counts as one more.
    pub open spec fn asked(self, layers: Seq<ErrorLayer>, error_retries: nat) -> RetryModel {
        let granted: int = if self.grants(layers, error_retries) {
            1
        } else {
            0
        };
        RetryModel { total_retries: (self.total_retries + error_retries + granted) as u32, ..self }
    }

    /// Whether the budget can be asked: the counter does not overflow, and a waiting time can be
    /// calculated if one is needed.
    pub open spec fn can_ask(self, layers: Seq<ErrorLayer>, error_retries: nat) -> bool {
        &&& self.total_retries + error_retries <= u32::MAX
        &&& chain_verdict(layers) == Some(Retryable::Transient) ==> {
            let total = (self.total_retries + error_retries) as nat;
            &&& self.policy.well_formed()
            &&& self.policy.allows(total as int) ==> self.policy.can_schedule(total) && total
                < u32::MAX
        }
    }

    /// Whether a retry that is granted can come with this wait, measured from the clock reading
    /// `now`: the policy of the budget has set a time, and the wait lasts until then.
    pub open spec fn sets_wait(self, error_retries: nat, now: SystemTime, span: Span) -> bool {
        exists|asked_at: SystemTime, then: SystemTime|
            {
                &&& #[trigger] is_wait(now, then, span)
                &&& #[trigger] self.policy.schedules(
                    self.total_retries as nat + error_retries,
                    asked_at,
                    then,
                )
            }
    }
}

/// Whether `span` is a time of `nanos` nanoseconds, written as an error where that is negative.
pub open spec fn is_signed_span(nanos: int, span: Result<Span, Span>) -> bool {
    match span {
        Ok(span) => span.well_formed() && nanos >= 0 && span.total_nanos() == nanos,
        Err(ahead) => ahead.well_formed() && nanos < 0 && ahead.total_nanos() == -nanos,
    }
}

/// Whether `span` is the time from the clock reading `from` to the reading `to`, or, as an error,
/// the time by which `from` lies ahead.
pub open spec fn is_time_between(from: SystemTime, to: SystemTime, span: Result<Span, Span>) -> bool {
    is_signed_span(
        crate::trusted::clock_nanos(to) - crate::trusted::clock_nanos(from),
        span,
    )
}

/// Whether `span` is the time from the clock reading `now` until `then`, which is none where `then`
/// has passed.
pub open spec fn is_wait(now: SystemTime, then: SystemTime, span: Span) -> bool {
    let nanos = crate::trusted::clock_nanos(then) - crate::trusted::clock_nanos(now);
    span.well_formed() && span.total_nanos() == if nanos > 0 {
        nanos
    } else {
        0
    }
}

/// Per-request retry state and policy.
pub struct RetryState {
    retry_policy: BackoffPolicy,
    start_time: SystemTime,
    total_retries: u32,
    url: String,
}

impl View for RetryState {
    type V = RetryModel;

    closed spec fn view(&self) -> RetryModel {
        RetryModel {
            policy: self.retry_policy,
            start_time: self.start_time,
            total_retries: self.total_retries,
            url: self.url@,
        }
    }
}

impl RetryState {
    /// Initializes the state and records the start time for the retry policy.
    pub fn start(retry_policy: BackoffPolicy, url: String) -> (state: RetryState)
        ensures
            state@.policy == retry_policy,
            state@.total_retries == 0,
            state@.url == url@,
    {
        let now: SystemTime = system_now();
        Self::start_at(retry_policy, url, &now)
    }

    /// Initializes the state with a reading of the clock as the start time.
    pub fn start_at(retry_policy: BackoffPolicy, url: String, now: &SystemTime) -> (state: RetryState)
        ensures
            state@.policy == retry_policy,
            state@.total_retries == 0,
            state@.url == url@,
            state@.start_time == *now,
    {
        RetryState { retry_policy, start_time: *now, total_retries: 0, url }
    }

    /// The number of retries across all requests.
    ///
    /// After a failed retryable request, this equals the maximum number of retries, unless the
    /// retries of a lower layer overshot it.
    pub fn total_retries(&self) -> (total: u32)
        ensures
            total == self@.total_retries,
    {
        self.total_retries
    }

    /// The URL that is requested.
    pub fn url(&self) -> (url: &str)
        ensures
            url@ == self@.url,
    {
        self.url.as_str()
    }

    /// The total duration from the first request to the (failure) of the last request.
    ///
    /// If the clock was set back meanwhile, the time by which the start lies ahead.
    pub fn duration(&self) -> (span: Result<Span, Span>)
        ensures
            exists|now: SystemTime| is_time_between(self@.start_time, now, span),
    {
        let now: SystemTime = system_now();
        self.duration_at(&now)
    }

    /// The duration from the first request to a reading of the clock.
    pub fn duration_at(&self, now: &SystemTime) -> (span: Result<Span, Span>)
        ensures
            is_time_between(self@.start_time, *now, span),
    {
        time_since(now, &self.start_time)
    }

    /// Checks that [`RetryState::should_retry`] can be asked about an error.
    pub fn can_ask(&self, err: &ErrorChain, error_retries: u32) -> (checked: bool)
        ensures
            checked == self@.can_ask(err@, error_retries as nat),
    {
        let total: Option<u32> = self.total_retries.checked_add(error_retries);
        match total {
            None => false,
            Some(total) => retryable_on_request_failure(err) != Some(Retryable::Transient) || (
            self.retry_policy.can_decide(total) && (self.retry_policy.max_n_retries.is_some()
                || total < u32::MAX)),
        }
    }

    /// Determines whether request should be retried.
    ///
    /// Takes the number of retries from nested layers associated with the specific error as
    /// `error_retries`.
    ///
    /// Returns the backoff duration if the request should be retried.
    #[must_use]
    pub fn should_retry(&mut self, err: &ErrorChain, error_retries: u32) -> (wait: Option<Span>)
        requires
            old(self)@.can_ask(err@, error_retries as nat),
        ensures
            wait is Some <==> old(self)@.grants(err@, error_retries as nat),
            wait matches Some(span) ==> exists|now: SystemTime| #[trigger]
                old(self)@.sets_wait(error_retries as nat, now, span),
            final(self)@ == old(self)@.asked(err@, error_retries as nat),
            final(self)@.total_retries == old(self)@.total_retries + error_retries + if wait is Some {
                1int
            } else {
                0
            },
            final(self)@.policy == old(self)@.policy,
            final(self)@.start_time == old(self)@.start_time,
            final(self)@.url == old(self)@.url,
    {
        // The present is read before the policy is asked, so that the time that it sets is not in
        // the past.
        let now: SystemTime = system_now();
        self.should_retry_at(&now, err, error_retries)
    }

    /// Determines whether request should be retried, with the wait measured from a reading of the
    /// clock.
    #[must_use]
    pub fn should_retry_at(
        &mut self,
        now: &SystemTime,
        err: &ErrorChain,
        error_retries: u32,
    ) -> (wait: Option<Span>)
        requires
            old(self)@.can_ask(err@, error_retries as nat),
        ensures
            wait is Some <==> old(self)@.grants(err@, error_retries as nat),
            wait matches Some(span) ==> old(self)@.sets_wait(error_retries as nat, *now, span),
            final(self)@ == old(self)@.asked(err@, error_retries as nat),
            final(self)@.total_retries == old(self)@.total_retries + error_retries + if wait is Some {
                1int
            } else {
                0
            },
            final(self)@.policy == old(self)@.policy,
            final(self)@.start_time == old(self)@.start_time,
            final(self)@.url == old(self)@.url,
    {
        // If the middleware performed any retries, consider them in our budget.
        self.total_retries = self.total_retries + error_retries;
        match retryable_on_request_failure(err) {
            Some(Retryable::Transient) => {
                let decision: Option<SystemTime> = backoff_decision(
                    &self.retry_policy,
                    &self.start_time,
                    self.total_retries,
                );
                self.settle(now, decision)
            },
            Some(Retryable::Fatal) | None => None,
        }
    }

    /// Acts on a decision of the retry policy, which is the time of the next try if there is one, and
    /// returns how long to wait from now until then.
    ///
    /// A try whose time has passed is made at once.
    pub fn settle(&mut self, now: &SystemTime, decision: Option<SystemTime>) -> (wait: Option<Span>)
        requires
            decision is Some ==> old(self)@.total_retries < u32::MAX,
        ensures
            match decision {
                Some(execute_after) => {
                    &&& wait matches Some(span)
                    &&& is_wait(*now, execute_after, span)
                    &&& final(self)@ == (RetryModel {
                        total_retries: (old(self)@.total_retries + 1) as u32,
                        ..old(self)@
                    })
                },
                None => wait is None && final(self)@ == old(self)@,
            },
    {
        match decision {
            Some(execute_after) => {
                let span: Span = match time_since(&execute_after, now) {
                    Ok(span) => span,
                    Err(_) => Span { secs: 0, nanos: 0 },
                };
                self.total_retries = self.total_retries + 1;
                Some(span)
            },
            None => None,
        }
    }
}

/// An error type that supports URL-fallback and exponential-backoff retry logic.
///
/// It drives a retry loop that does not know the concrete error type.
pub trait RetriableError: Sized {
    /// Returns `true` if an alternative URL should be tried immediately (without backoff).
    fn should_try_next_url(&self) -> bool;

    /// Returns the number of inner retries already recorded in this error.
    fn retries(&self) -> u32;

    /// Wrap the error to indicate that the operation was retried `retries` times before failing.
    #[must_use]
    fn into_retried(self, retries: u32, duration: Span) -> Self;
}

} // verus!
