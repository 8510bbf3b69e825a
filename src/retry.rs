use vstd::arithmetic::power::pow;
use vstd::prelude::*;

verus! {

/// Bounded-retry configuration. Delays are whole milliseconds; the backoff
/// multiplier is a whole number, so that every delay is exact.
#[derive(Clone, Copy, Debug, PartialEq, Eq, Structural)]
pub struct RetryConfig {
    pub max_attempts: usize,
    pub initial_delay_ms: u64,
    pub max_delay_ms: u64,
    pub backoff_multiplier: u64,
}

/// Why a retry configuration was refused at construction.
#[derive(Clone, Copy, Debug, PartialEq, Eq, Structural)]
pub enum RetryConfigError {
    ZeroAttempts,
    ZeroInitialDelay,
    ZeroMaxDelay,
    MultiplierBelowOne,
}

/// What the executor does once an attempt has finished.
#[derive(Clone, Copy, Debug, PartialEq, Eq, Structural)]
pub enum RetryDecision {
    /// Hand the attempt's own result back to the caller, unchanged.
    Finish,
    /// Sleep this many milliseconds, then make the next attempt.
    RetryAfter(u64),
}

/// `d`, but no more than `max`.
pub open spec fn capped(d: nat, max: nat) -> nat {
    if d <= max {
        d
    } else {
        max
    }
}

impl RetryConfig {
    /// At least one attempt, positive delays, and a multiplier of at least 1.0.
    pub open spec fn wf(&self) -> bool {
        &&& self.max_attempts >= 1
        &&& self.initial_delay_ms > 0
        &&& self.max_delay_ms > 0
        &&& self.backoff_multiplier >= 1
    }

    /// The delay that follows a failed attempt `attempt` (1-based):
    /// `min(initial_delay_ms * backoff_multiplier^(attempt - 1), max_delay_ms)`.
    pub open spec fn delay_after(&self, attempt: nat) -> nat {
        if attempt <= 1 {
            capped(self.initial_delay_ms as nat, self.max_delay_ms as nat)
        } else {
            capped(
                (self.initial_delay_ms * pow(self.backoff_multiplier as int, (attempt - 1) as nat)) as nat,
                self.max_delay_ms as nat,
            )
        }
    }

    /// What follows attempt `attempt` when it succeeded (`ok`) or failed.
    pub open spec fn decision(&self, attempt: nat, ok: bool) -> RetryDecision {
        if ok || attempt >= self.max_attempts {
            RetryDecision::Finish
        } else {
            RetryDecision::RetryAfter(self.delay_after(attempt) as u64)
        }
    }

    /// Three attempts, 100 ms initial delay, 30 s cap, multiplier 2.
    pub fn default() -> (r: RetryConfig)
        ensures
            r.max_attempts == 3,
            r.initial_delay_ms == 100,
            r.max_delay_ms == 30_000,
            r.backoff_multiplier == 2,
            r.wf(),
    {
        RetryConfig {
            max_attempts: 3,
            initial_delay_ms: 100,
            max_delay_ms: 30_000,
            backoff_multiplier: 2,
        }
    }

    /// Builds a configuration, refusing an invalid one up front.
    pub fn new(
        max_attempts: usize,
        initial_delay_ms: u64,
        max_delay_ms: u64,
        backoff_multiplier: u64,
    ) -> (r: Result<RetryConfig, RetryConfigError>)
        ensures
            max_attempts == 0 ==> r == Err::<RetryConfig, _>(RetryConfigError::ZeroAttempts),
            max_attempts > 0 && initial_delay_ms == 0 ==> r == Err::<RetryConfig, _>(
                RetryConfigError::ZeroInitialDelay,
            ),
            max_attempts > 0 && initial_delay_ms > 0 && max_delay_ms == 0 ==> r == Err::<
                RetryConfig,
                _,
            >(RetryConfigError::ZeroMaxDelay),
            max_attempts > 0 && initial_delay_ms > 0 && max_delay_ms > 0
                && backoff_multiplier == 0 ==> r == Err::<RetryConfig, _>(
                RetryConfigError::MultiplierBelowOne,
            ),
            r is Ok <==> (max_attempts > 0 && initial_delay_ms > 0 && max_delay_ms > 0
                && backoff_multiplier >= 1),
            r matches Ok(c) ==> c.wf() && c == (RetryConfig {
                max_attempts,
                initial_delay_ms,
                max_delay_ms,
                backoff_multiplier,
            }),
    {
        if max_attempts == 0 {
            Err(RetryConfigError::ZeroAttempts)
        } else if initial_delay_ms == 0 {
            Err(RetryConfigError::ZeroInitialDelay)
        } else if max_delay_ms == 0 {
            Err(RetryConfigError::ZeroMaxDelay)
        } else if backoff_multiplier == 0 {
            Err(RetryConfigError::MultiplierBelowOne)
        } else {
            Ok(RetryConfig { max_attempts, initial_delay_ms, max_delay_ms, backoff_multiplier })
        }
    }
}

/// One backoff step: multiply by the configured factor and cap.
fn backoff_step(d: u64, config: &RetryConfig) -> (r: u64)
    ensures
        r == capped(d as nat * (config.backoff_multiplier as nat), config.max_delay_ms as nat),
{
    proof {
        assert((d as nat) * (config.backoff_multiplier as nat) <= (u64::MAX as nat) * (
        u64::MAX as nat)) by (nonlinear_arith)
            requires
                d <= u64::MAX,
                config.backoff_multiplier <= u64::MAX,
        ;
    }
    let wide: u128 = (d as u128) * (config.backoff_multiplier as u128);
    if wide <= config.max_delay_ms as u128 {
        wide as u64
    } else {
        config.max_delay_ms
    }
}

/// The delay to wait after failed attempt `attempt` (1-based) before the next one.
pub fn next_delay(attempt: usize, config: &RetryConfig) -> (r: u64)
    requires
        config.wf(),
        attempt >= 1,
    ensures
        r == config.delay_after(attempt as nat),
{
    let mut d: u64 = if config.initial_delay_ms <= config.max_delay_ms {
        config.initial_delay_ms
    } else {
        config.max_delay_ms
    };
    let mut k: usize = 1;
    while k < attempt
        invariant
            config.wf(),
            1 <= k <= attempt,
            d == config.delay_after(k as nat),
            d <= config.max_delay_ms,
        decreases attempt - k,
    {
        proof {
            lemma_delay_step(*config, k as nat);
        }
        d = backoff_step(d, config);
        k = k + 1;
    }
    d
}

/// Decides what follows attempt `attempt` (1-based) of a retried operation:
/// finish on success or once `max_attempts` attempts have been made,
/// otherwise wait `next_delay(attempt)` and try again.
pub fn after_attempt(config: &RetryConfig, attempt: usize, succeeded: bool) -> (r: RetryDecision)
    requires
        config.wf(),
        attempt >= 1,
    ensures
        r == config.decision(attempt as nat, succeeded),
{
    if succeeded || attempt >= config.max_attempts {
        RetryDecision::Finish
    } else {
        RetryDecision::RetryAfter(next_delay(attempt, config))
    }
}

/// A run of the retry executor under `config`: `trace` holds the result of
/// each attempt, in order, and `delays` the milliseconds slept between them.
/// Every attempt but the last failed; the last succeeded or was attempt
/// `max_attempts`; one delay, `delay_after(k)`, follows each failed attempt `k`
/// that is not the last, and none follows the last.
pub open spec fn is_retry_run<T, E>(
    config: RetryConfig,
    trace: Seq<Result<T, E>>,
    delays: Seq<u64>,
) -> bool {
    &&& 1 <= trace.len() <= config.max_attempts
    &&& forall|i: int| 0 <= i < trace.len() - 1 ==> #[trigger] trace[i] is Err
    &&& (trace.last() is Ok || trace.len() == config.max_attempts)
    &&& delays.len() == trace.len() - 1
    &&& forall|i: int|
        0 <= i < delays.len() ==> #[trigger] delays[i] == config.delay_after((i + 1) as nat)
}

/// Runs `operation` until it succeeds or `max_attempts` attempts have been
/// made, calling it with the attempt's number (1-based) and calling `sleep`
/// with `next_delay(k)` between failed attempt `k` and attempt `k + 1`.
/// Returns the last attempt's result unchanged: the first success, or the
/// error of the final attempt. `trace[k - 1]` is what `operation(k)` returned.
pub fn with_retry<T, E, F: Fn(usize) -> Result<T, E>, S: Fn(u64)>(
    config: &RetryConfig,
    operation: F,
    sleep: S,
) -> (r: Result<T, E>)
    requires
        config.wf(),
        forall|k: usize| operation.requires((k,)),
        forall|d: u64| sleep.requires((d,)),
    ensures
        exists|trace: Seq<Result<T, E>>, delays: Seq<u64>|
            #[trigger] is_retry_run(*config, trace, delays) && r == trace.last() && (forall|i: int|
                0 <= i < trace.len() ==> operation.ensures(((i + 1) as usize,), #[trigger] trace[i]))
                && (forall|
                i: int|
                0 <= i < delays.len() ==> sleep.ensures((#[trigger] delays[i],), ())),
{
    let mut attempt: usize = 1;
    let ghost mut trace: Seq<Result<T, E>> = Seq::empty();
    let ghost mut delays: Seq<u64> = Seq::empty();
    loop
        invariant
            config.wf(),
            1 <= attempt <= config.max_attempts,
            forall|k: usize| operation.requires((k,)),
            forall|d: u64| sleep.requires((d,)),
            trace.len() == attempt - 1,
            delays.len() == attempt - 1,
            forall|i: int| 0 <= i < trace.len() ==> #[trigger] trace[i] is Err,
            forall|i: int|
                0 <= i < trace.len() ==> operation.ensures(((i + 1) as usize,), #[trigger] trace[i]),
            forall|i: int|
                0 <= i < delays.len() ==> #[trigger] delays[i] == config.delay_after(
                    (i + 1) as nat,
                ),
            forall|i: int| 0 <= i < delays.len() ==> sleep.ensures((#[trigger] delays[i],), ()),
        decreases config.max_attempts - attempt,
    {
        let outcome = operation(attempt);
        let ghost seen = outcome;
        proof {
            trace = trace.push(seen);
        }
        match after_attempt(config, attempt, outcome.is_ok()) {
            RetryDecision::Finish => {
                assert(is_retry_run(*config, trace, delays));
                assert(trace.last() == seen);
                return outcome;
            },
            RetryDecision::RetryAfter(delay) => {
                sleep(delay);
                proof {
                    delays = delays.push(delay);
                }
                attempt = attempt + 1;
            },
        }
    }
}

/// An operation that fails on every attempt is invoked exactly `max_attempts`
/// times: the run hands back the error of that last attempt, after sleeping
/// `delay_after(1)`, ..., `delay_after(max_attempts - 1)`.
pub proof fn law_always_failing<T, E>(config: RetryConfig, trace: Seq<Result<T, E>>, delays: Seq<u64>)
    requires
        is_retry_run(config, trace, delays),
        forall|i: int| 0 <= i < trace.len() ==> #[trigger] trace[i] is Err,
    ensures
        trace.len() == config.max_attempts,
        trace.last() == trace[config.max_attempts - 1],
        delays.len() == config.max_attempts - 1,
        forall|i: int|
            0 <= i < config.max_attempts - 1 ==> delays[i] == config.delay_after((i + 1) as nat),
{
    assert(trace.last() is Err);
}

/// When the first `k - 1` attempts fail and attempt `k <= max_attempts`
/// succeeds, the operation is invoked exactly `k` times, the run hands back
/// that success, and no delay follows it: only the `k - 1` delays between
/// the failed attempts are slept.
pub proof fn law_first_success<T, E>(
    config: RetryConfig,
    trace: Seq<Result<T, E>>,
    delays: Seq<u64>,
    k: int,
)
    requires
        is_retry_run(config, trace, delays),
        1 <= k <= config.max_attempts,
        forall|i: int| 0 <= i < k - 1 && i < trace.len() ==> #[trigger] trace[i] is Err,
        trace.len() >= k ==> trace[k - 1] is Ok,
    ensures
        trace.len() == k,
        trace.last() == trace[k - 1],
        trace.last() is Ok,
        delays.len() == k - 1,
{
    if trace.len() < k {
        assert(trace[trace.len() - 1] is Err);
    }
}

/// For an operation whose attempt `j` succeeds exactly when `ok(j)` holds
/// (as `with_retry`'s trace records it), a first success on attempt
/// `k <= max_attempts` means exactly `k` attempts, that success handed back,
/// and only the `k - 1` delays `delay_after(1)`, ..., `delay_after(k - 1)` slept.
pub proof fn law_first_success_at<T, E>(
    config: RetryConfig,
    trace: Seq<Result<T, E>>,
    delays: Seq<u64>,
    ok: spec_fn(nat) -> bool,
    k: nat,
)
    requires
        is_retry_run(config, trace, delays),
        forall|i: int| 0 <= i < trace.len() ==> (#[trigger] trace[i] is Ok <==> ok((i + 1) as nat)),
        1 <= k <= config.max_attempts,
        ok(k),
        forall|j: nat| 1 <= j < k ==> !#[trigger] ok(j),
    ensures
        trace.len() == k,
        trace.last() is Ok,
        delays.len() == k - 1,
        forall|i: int| 0 <= i < k - 1 ==> delays[i] == config.delay_after((i + 1) as nat),
{
    assert forall|i: int| 0 <= i < k - 1 && i < trace.len() implies #[trigger] trace[i] is Err by {
        assert(!ok((i + 1) as nat));
    }
    if trace.len() >= k {
        assert(ok(((k - 1) + 1) as nat));
    }
    law_first_success(config, trace, delays, k as int);
}

proof fn lemma_delays_ordered(config: RetryConfig, a: nat, b: nat)
    requires
        config.wf(),
        1 <= a <= b,
    ensures
        config.delay_after(a) <= config.delay_after(b),
    decreases b - a,
{
    if a < b {
        lemma_delays_ordered(config, a, (b - 1) as nat);
        law_delays_monotone_capped(config, (b - 1) as nat);
    }
}

/// The delays a run sleeps never decrease, never exceed `max_delay_ms`, and
/// start at `min(initial_delay_ms, max_delay_ms)`.
pub proof fn law_slept_delays<T, E>(config: RetryConfig, trace: Seq<Result<T, E>>, delays: Seq<u64>)
    requires
        config.wf(),
        is_retry_run(config, trace, delays),
    ensures
        forall|i: int, j: int| 0 <= i <= j < delays.len() ==> #[trigger] delays[i] <= #[trigger] delays[j],
        forall|i: int| 0 <= i < delays.len() ==> #[trigger] delays[i] <= config.max_delay_ms,
        delays.len() > 0 ==> delays[0] == capped(
            config.initial_delay_ms as nat,
            config.max_delay_ms as nat,
        ),
{
    assert forall|i: int, j: int| 0 <= i <= j < delays.len() implies #[trigger] delays[i] <= #[trigger] delays[j] by {
        lemma_delays_ordered(config, (i + 1) as nat, (j + 1) as nat);
    }
    assert forall|i: int| 0 <= i < delays.len() implies #[trigger] delays[i] <= config.max_delay_ms by {
        law_delays_monotone_capped(config, (i + 1) as nat);
    }
}

proof fn lemma_pow_at_least_one(f: nat, e: nat)
    requires
        f >= 1,
    ensures
        pow(f as int, e) >= 1,
    decreases e,
{
    reveal(pow);
    if e > 0 {
        lemma_pow_at_least_one(f, (e - 1) as nat);
        assert(f * pow(f as int, (e - 1) as nat) >= 1) by (nonlinear_arith)
            requires
                f >= 1,
                pow(f as int, (e - 1) as nat) >= 1,
        ;
    }
}

/// Each delay is the one before it multiplied by the factor, then capped.
proof fn lemma_delay_step(config: RetryConfig, k: nat)
    requires
        config.wf(),
        k >= 1,
    ensures
        config.delay_after(k + 1) == capped(
            config.delay_after(k) * (config.backoff_multiplier as nat),
            config.max_delay_ms as nat,
        ),
        config.delay_after(k) <= config.max_delay_ms,
{
    reveal(pow);
    let f = config.backoff_multiplier as nat;
    let m = config.max_delay_ms as nat;
    let i = config.initial_delay_ms as nat;
    lemma_pow_at_least_one(f, (k - 1) as nat);
    let p = pow(f as int, (k - 1) as nat);
    let x = i * p;
    assert(pow(f as int, 0) == 1);
    assert(config.delay_after(k) == capped(x as nat, m));
    assert(pow(f as int, k) == f * p);
    assert(x >= 0) by (nonlinear_arith)
        requires
            x == i * p,
            i >= 0,
            p >= 1,
    ;
    assert(i * (f * p) == x * f) by (nonlinear_arith)
        requires
            x == i * p,
    ;
    if x > m {
        assert(x * f >= x) by (nonlinear_arith)
            requires
                f >= 1,
                x >= 0,
        ;
        assert(m * f >= m) by (nonlinear_arith)
            requires
                f >= 1,
        ;
    }
}

/// Backoff delays never decrease from one attempt to the next and never
/// exceed `max_delay_ms`.
pub proof fn law_delays_monotone_capped(config: RetryConfig, attempt: nat)
    requires
        config.wf(),
        attempt >= 1,
    ensures
        config.delay_after(attempt) <= config.delay_after(attempt + 1),
        config.delay_after(attempt) <= config.max_delay_ms,
{
    lemma_delay_step(config, attempt);
    let d = config.delay_after(attempt);
    let f = config.backoff_multiplier as nat;
    assert(d * f >= d) by (nonlinear_arith)
        requires
            f >= 1,
    ;
}

} // verus!
