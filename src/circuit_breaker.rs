use vstd::prelude::*;
use vstd::string::*;

verus! {

/// The three states of a breaker.
#[derive(Clone, Copy, Debug, PartialEq, Eq, Structural)]
pub enum CircuitState {
    /// Calls pass through; failures are counted.
    Closed,
    /// Calls are rejected without running the operation.
    Open,
    /// One trial call is in flight; every other call is rejected.
    HalfOpen,
}

/// Breaker configuration. `timeout_ms` is how long the breaker stays open
/// after its last recorded failure before it admits a trial call.
/// `success_threshold` is kept for callers but not consulted: one successful
/// trial closes the breaker.
#[derive(Clone, Copy, Debug, PartialEq, Eq, Structural)]
pub struct CircuitBreakerConfig {
    pub failure_threshold: usize,
    pub timeout_ms: u64,
    pub success_threshold: usize,
}

/// Why a breaker configuration was refused at construction.
#[derive(Clone, Copy, Debug, PartialEq, Eq, Structural)]
pub enum CircuitBreakerConfigError {
    ZeroFailureThreshold,
    ZeroTimeout,
}

/// Why a guarded call did not produce a value.
#[derive(Debug, PartialEq, Eq)]
pub enum CircuitBreakerError {
    /// The breaker rejected the call; the operation was not run.
    CircuitOpen,
    /// The operation ran and failed with this message.
    OperationFailed(String),
}

/// A circuit breaker over a clock of milliseconds supplied by the caller.
/// Only `try_enter`, `on_success` and `on_failure` change it. It is neither
/// `Clone` nor `Copy`: there is one owner of each breaker's state.
#[derive(Debug, PartialEq, Eq, Structural)]
pub struct CircuitBreaker {
    state: CircuitState,
    failure_count: usize,
    last_failure_ms: Option<u64>,
    config: CircuitBreakerConfig,
}

impl CircuitBreakerError {
    /// A readable description: `Circuit breaker is open`, or
    /// `Operation failed: <message>`.
    pub fn message(&self) -> (r: String)
        ensures
            r@ == match self {
                CircuitBreakerError::CircuitOpen => "Circuit breaker is open"@,
                CircuitBreakerError::OperationFailed(m) => "Operation failed: "@ + m@,
            },
    {
        match self {
            CircuitBreakerError::CircuitOpen => String::from_str("Circuit breaker is open"),
            CircuitBreakerError::OperationFailed(m) => {
                let mut r = String::from_str("Operation failed: ");
                r.append(m.as_str());
                r
            },
        }
    }
}

impl CircuitBreakerConfig {
    /// Builds a configuration, refusing one whose breaker would open before
    /// any failure or never wait before a trial.
    pub fn new(failure_threshold: usize, timeout_ms: u64, success_threshold: usize) -> (r: Result<
        CircuitBreakerConfig,
        CircuitBreakerConfigError,
    >)
        ensures
            failure_threshold == 0 ==> r == Err::<CircuitBreakerConfig, _>(
                CircuitBreakerConfigError::ZeroFailureThreshold,
            ),
            failure_threshold > 0 && timeout_ms == 0 ==> r == Err::<CircuitBreakerConfig, _>(
                CircuitBreakerConfigError::ZeroTimeout,
            ),
            failure_threshold > 0 && timeout_ms > 0 ==> r == Ok::<_, CircuitBreakerConfigError>(
                CircuitBreakerConfig { failure_threshold, timeout_ms, success_threshold },
            ),
    {
        if failure_threshold == 0 {
            Err(CircuitBreakerConfigError::ZeroFailureThreshold)
        } else if timeout_ms == 0 {
            Err(CircuitBreakerConfigError::ZeroTimeout)
        } else {
            Ok(CircuitBreakerConfig { failure_threshold, timeout_ms, success_threshold })
        }
    }

    /// Five failures open the breaker, which then waits 60 s.
    pub fn default() -> (r: CircuitBreakerConfig)
        ensures
            r.failure_threshold == 5,
            r.timeout_ms == 60_000,
            r.success_threshold == 2,
    {
        CircuitBreakerConfig { failure_threshold: 5, timeout_ms: 60_000, success_threshold: 2 }
    }
}

/// `now - then`, or zero if the clock reads earlier than `then`.
pub open spec fn elapsed(then: u64, now: u64) -> nat {
    if now >= then {
        (now - then) as nat
    } else {
        0
    }
}

/// `n + 1`, staying at `usize::MAX` once there.
pub open spec fn sat_inc(n: usize) -> usize {
    if n < usize::MAX {
        (n + 1) as usize
    } else {
        n
    }
}

/// What a breaker is, as its contracts speak of it.
pub struct BreakerModel {
    pub state: CircuitState,
    pub failure_count: usize,
    pub last_failure_ms: Option<u64>,
    pub config: CircuitBreakerConfig,
}

impl BreakerModel {
    /// A closed breaker with no failures recorded.
    pub open spec fn initial(config: CircuitBreakerConfig) -> BreakerModel {
        BreakerModel {
            state: CircuitState::Closed,
            failure_count: 0,
            last_failure_ms: None,
            config,
        }
    }

    /// An open or half-open breaker always has a recorded failure.
    pub open spec fn wf(&self) -> bool {
        self.state != CircuitState::Closed ==> self.last_failure_ms is Some
    }

    /// Whether an open breaker has waited out its timeout at time `now`.
    pub open spec fn timed_out(&self, now: u64) -> bool {
        match self.last_failure_ms {
            Some(t) => elapsed(t, now) >= self.config.timeout_ms,
            None => false,
        }
    }

    /// Whether a call arriving at `now` is let through.
    pub open spec fn lets_in(&self, now: u64) -> bool {
        match self.state {
            CircuitState::Closed => true,
            CircuitState::Open => self.timed_out(now),
            CircuitState::HalfOpen => false,
        }
    }

    /// The breaker after deciding on a call that arrives at `now`: an open
    /// breaker whose timeout has passed becomes half-open before the trial
    /// runs; in every other case nothing changes.
    pub open spec fn after_try_enter(self, now: u64) -> BreakerModel {
        if self.state == CircuitState::Open && self.timed_out(now) {
            BreakerModel { state: CircuitState::HalfOpen, ..self }
        } else {
            self
        }
    }

    /// The breaker after an admitted call succeeded.
    pub open spec fn after_success(self) -> BreakerModel {
        match self.state {
            CircuitState::Closed => BreakerModel { failure_count: 0, ..self },
            CircuitState::HalfOpen => BreakerModel {
                state: CircuitState::Closed,
                failure_count: 0,
                last_failure_ms: None,
                ..self
            },
            CircuitState::Open => self,
        }
    }

    /// The breaker after an admitted call failed at `now`.
    pub open spec fn after_failure(self, now: u64) -> BreakerModel {
        match self.state {
            CircuitState::Closed => {
                let count = sat_inc(self.failure_count);
                BreakerModel {
                    state: if count >= self.config.failure_threshold {
                        CircuitState::Open
                    } else {
                        CircuitState::Closed
                    },
                    failure_count: count,
                    last_failure_ms: Some(now),
                    ..self
                }
            },
            CircuitState::HalfOpen => BreakerModel {
                state: CircuitState::Open,
                last_failure_ms: Some(now),
                ..self
            },
            CircuitState::Open => BreakerModel {
                failure_count: sat_inc(self.failure_count),
                last_failure_ms: Some(now),
                ..self
            },
        }
    }

    /// The breaker after a call that arrived at `start` and, if let in, ended
    /// with `outcome` at `end`.
    pub open spec fn after_call<T>(self, start: u64, outcome: Result<T, String>, end: u64) -> BreakerModel {
        if !self.lets_in(start) {
            self
        } else {
            match outcome {
                Ok(_) => self.after_try_enter(start).after_success(),
                Err(_) => self.after_try_enter(start).after_failure(end),
            }
        }
    }
}

impl View for CircuitBreaker {
    type V = BreakerModel;

    closed spec fn view(&self) -> BreakerModel {
        BreakerModel {
            state: self.state,
            failure_count: self.failure_count,
            last_failure_ms: self.last_failure_ms,
            config: self.config,
        }
    }
}

impl CircuitBreaker {
    /// A closed breaker with no failures recorded.
    pub fn new(config: CircuitBreakerConfig) -> (r: CircuitBreaker)
        ensures
            r@ == BreakerModel::initial(config),
            r@.wf(),
    {
        CircuitBreaker {
            state: CircuitState::Closed,
            failure_count: 0,
            last_failure_ms: None,
            config,
        }
    }

    pub fn get_state(&self) -> (r: CircuitState)
        ensures
            r == self@.state,
    {
        self.state
    }

    pub fn failure_count(&self) -> (r: usize)
        ensures
            r == self@.failure_count,
    {
        self.failure_count
    }

    pub fn last_failure_ms(&self) -> (r: Option<u64>)
        ensures
            r == self@.last_failure_ms,
    {
        self.last_failure_ms
    }

    pub fn config(&self) -> (r: CircuitBreakerConfig)
        ensures
            r == self@.config,
    {
        self.config
    }

    fn timed_out_at(&self, now_ms: u64) -> (r: bool)
        ensures
            r == self@.timed_out(now_ms),
    {
        match self.last_failure_ms {
            Some(t) => {
                let waited: u64 = if now_ms >= t {
                    now_ms - t
                } else {
                    0
                };
                waited >= self.config.timeout_ms
            },
            None => false,
        }
    }

    /// Decides whether a call arriving at `now_ms` may run. A closed breaker
    /// admits it. An open breaker admits it as the single trial once
    /// `timeout_ms` has passed since the last failure, turning half-open first,
    /// and otherwise rejects it. A half-open breaker rejects it, since its
    /// trial is still in flight. A rejection changes nothing.
    pub fn try_enter(&mut self, now_ms: u64) -> (r: bool)
        requires
            old(self)@.wf(),
        ensures
            r == old(self)@.lets_in(now_ms),
            final(self)@ == old(self)@.after_try_enter(now_ms),
            final(self)@.wf(),
            !r ==> final(self)@ == old(self)@,
    {
        match self.state {
            CircuitState::Closed => true,
            CircuitState::Open => {
                if self.timed_out_at(now_ms) {
                    self.state = CircuitState::HalfOpen;
                    true
                } else {
                    false
                }
            },
            CircuitState::HalfOpen => false,
        }
    }

    /// Records that an admitted call succeeded: a half-open breaker closes and
    /// its counters reset; a closed one resets its failure count.
    pub fn on_success(&mut self)
        requires
            old(self)@.wf(),
        ensures
            final(self)@ == old(self)@.after_success(),
            final(self)@.wf(),
    {
        match self.state {
            CircuitState::Closed => {
                self.failure_count = 0;
            },
            CircuitState::HalfOpen => {
                self.state = CircuitState::Closed;
                self.failure_count = 0;
                self.last_failure_ms = None;
            },
            CircuitState::Open => {},
        }
    }

    /// Records that an admitted call failed at `now_ms`: a closed breaker
    /// counts the failure and opens once the count reaches
    /// `failure_threshold`; a half-open breaker reopens, its timer restarting
    /// from this failure.
    pub fn on_failure(&mut self, now_ms: u64)
        requires
            old(self)@.wf(),
        ensures
            final(self)@ == old(self)@.after_failure(now_ms),
            final(self)@.wf(),
    {
        self.last_failure_ms = Some(now_ms);
        match self.state {
            CircuitState::Closed => {
                if self.failure_count < usize::MAX {
                    self.failure_count = self.failure_count + 1;
                }
                if self.failure_count >= self.config.failure_threshold {
                    self.state = CircuitState::Open;
                }
            },
            CircuitState::HalfOpen => {
                self.state = CircuitState::Open;
            },
            CircuitState::Open => {
                if self.failure_count < usize::MAX {
                    self.failure_count = self.failure_count + 1;
                }
            },
        }
    }

    /// Runs `operation` behind the breaker, reading `clock` when the call
    /// arrives and again when it ends. A rejected call returns `CircuitOpen`
    /// without running the operation and changes nothing; an admitted one
    /// returns the operation's value, or its error as `OperationFailed`, and
    /// records the outcome.
    pub fn call<T, F: FnOnce() -> Result<T, String>, C: Fn() -> u64>(
        &mut self,
        clock: &C,
        operation: F,
    ) -> (r: Result<T, CircuitBreakerError>)
        requires
            old(self)@.wf(),
            operation.requires(()),
            clock.requires(()),
        ensures
            final(self)@.wf(),
            exists|start: u64|
                #[trigger] clock.ensures((), start) && if old(self)@.lets_in(start) {
                    exists|outcome: Result<T, String>, end: u64|
                        #[trigger] operation.ensures((), outcome) && #[trigger] clock.ensures((), end)
                            && final(self)@ == old(self)@.after_call(start, outcome, end) && r
                            == match outcome {
                            Ok(v) => Ok::<T, CircuitBreakerError>(v),
                            Err(m) => Err(CircuitBreakerError::OperationFailed(m)),
                        }
                } else {
                    final(self)@ == old(self)@ && r == Err::<T, CircuitBreakerError>(
                        CircuitBreakerError::CircuitOpen,
                    )
                },
    {
        let start = clock();
        if !self.try_enter(start) {
            return Err(CircuitBreakerError::CircuitOpen);
        }
        let outcome = operation();
        let ghost kept = outcome;
        let end = clock();
        let r = self.complete(outcome, end);
        assert(operation.ensures((), kept) && clock.ensures((), end));
        r
    }

    /// Records the outcome of an admitted call that finished at `now_ms` and
    /// hands it back, a failure as `OperationFailed` with its message.
    pub fn complete<T>(&mut self, outcome: Result<T, String>, now_ms: u64) -> (r: Result<
        T,
        CircuitBreakerError,
    >)
        requires
            old(self)@.wf(),
        ensures
            final(self)@.wf(),
            match outcome {
                Ok(v) => final(self)@ == old(self)@.after_success() && r == Ok::<
                    T,
                    CircuitBreakerError,
                >(v),
                Err(m) => final(self)@ == old(self)@.after_failure(now_ms) && r == Err::<
                    T,
                    CircuitBreakerError,
                >(CircuitBreakerError::OperationFailed(m)),
            },
    {
        match outcome {
            Ok(v) => {
                self.on_success();
                Ok(v)
            },
            Err(m) => {
                self.on_failure(now_ms);
                Err(CircuitBreakerError::OperationFailed(m))
            },
        }
    }
}

/// The breaker after admitted calls failed, one after another, at the
/// times in `times`.
pub open spec fn after_failures(b: BreakerModel, times: Seq<u64>) -> BreakerModel
    decreases times.len(),
{
    if times.len() == 0 {
        b
    } else {
        after_failures(b, times.drop_last()).after_failure(times.last())
    }
}

/// The breaker, and how many calls it let in, after calls arrived at the times
/// in `nows` with none of them finishing in between.
pub open spec fn after_arrivals(b: BreakerModel, nows: Seq<u64>) -> (BreakerModel, nat)
    decreases nows.len(),
{
    if nows.len() == 0 {
        (b, 0)
    } else {
        let rest = after_arrivals(b.after_try_enter(nows[0]), nows.drop_first());
        (rest.0, rest.1 + if b.lets_in(nows[0]) {
            1nat
        } else {
            0nat
        })
    }
}

proof fn lemma_failures_from_fresh(b: BreakerModel, times: Seq<u64>)
    requires
        b.wf(),
        b.state == CircuitState::Closed,
        b.failure_count == 0,
        times.len() <= b.config.failure_threshold,
    ensures
        after_failures(b, times).wf(),
        after_failures(b, times).failure_count == times.len(),
        after_failures(b, times).config == b.config,
        times.len() < b.config.failure_threshold ==> after_failures(b, times).state
            == CircuitState::Closed,
        0 < times.len() == b.config.failure_threshold ==> after_failures(b, times).state
            == CircuitState::Open,
        times.len() > 0 ==> after_failures(b, times).last_failure_ms == Some(times.last()),
    decreases times.len(),
{
    if times.len() > 0 {
        lemma_failures_from_fresh(b, times.drop_last());
    }
}

/// A fresh breaker stays closed through its first `failure_threshold - 1`
/// consecutive failures and opens on the `failure_threshold`-th, which it
/// records as its last failure.
pub proof fn law_consecutive_failures_open(config: CircuitBreakerConfig, times: Seq<u64>)
    requires
        1 <= times.len() <= config.failure_threshold,
    ensures
        ({
            let b = after_failures(BreakerModel::initial(config), times);
            &&& b.wf()
            &&& b.failure_count == times.len()
            &&& b.last_failure_ms == Some(times.last())
            &&& b.state == if times.len() == config.failure_threshold {
                CircuitState::Open
            } else {
                CircuitState::Closed
            }
        }),
{
    lemma_failures_from_fresh(BreakerModel::initial(config), times);
}

/// While an open breaker's timeout has not passed since its last failure, a
/// call is rejected and the breaker, counters included, is left as it was.
pub proof fn law_open_rejects_within_timeout(b: BreakerModel, now: u64)
    requires
        b.wf(),
        b.state == CircuitState::Open,
        b.last_failure_ms matches Some(t) && elapsed(t, now) < b.config.timeout_ms,
    ensures
        !b.lets_in(now),
        b.after_try_enter(now) == b,
{
}

/// Once an open breaker's timeout has passed, the next call is let in as the
/// trial and the breaker turns half-open. If the trial succeeds the breaker
/// closes with no failures recorded; if it fails at `failed_at` the breaker
/// reopens, and rejects calls until `timeout_ms` has passed since `failed_at`.
pub proof fn law_trial_decides(b: BreakerModel, now: u64, failed_at: u64, later: u64)
    requires
        b.wf(),
        b.state == CircuitState::Open,
        b.last_failure_ms matches Some(t) && elapsed(t, now) >= b.config.timeout_ms,
        elapsed(failed_at, later) < b.config.timeout_ms,
    ensures
        b.lets_in(now),
        b.after_try_enter(now).state == CircuitState::HalfOpen,
        b.after_try_enter(now).after_success().state == CircuitState::Closed,
        b.after_try_enter(now).after_success().failure_count == 0,
        b.after_try_enter(now).after_failure(failed_at).state == CircuitState::Open,
        b.after_try_enter(now).after_failure(failed_at).last_failure_ms == Some(failed_at),
        !b.after_try_enter(now).after_failure(failed_at).lets_in(later),
{
}

proof fn lemma_half_open_lets_none_in(b: BreakerModel, nows: Seq<u64>)
    requires
        b.state == CircuitState::HalfOpen,
    ensures
        after_arrivals(b, nows) == (b, 0nat),
    decreases nows.len(),
{
    if nows.len() > 0 {
        lemma_half_open_lets_none_in(b, nows.drop_first());
    }
}

/// However many calls arrive at an open or half-open breaker, at whatever
/// times, at most one of them is let in as long as none finishes: a half-open
/// breaker lets none in, and an open one lets in only the first call after its
/// timeout. Calls that are all rejected leave the breaker, failure count and
/// last failure time included, exactly as it was.
pub proof fn law_single_trial(b: BreakerModel, nows: Seq<u64>)
    requires
        b.wf(),
        b.state != CircuitState::Closed,
    ensures
        after_arrivals(b, nows).1 <= 1,
        b.state == CircuitState::HalfOpen ==> after_arrivals(b, nows).1 == 0,
        after_arrivals(b, nows).1 == 0 ==> after_arrivals(b, nows).0 == b,
    decreases nows.len(),
{
    if nows.len() > 0 {
        let b1 = b.after_try_enter(nows[0]);
        if b.lets_in(nows[0]) {
            lemma_half_open_lets_none_in(b1, nows.drop_first());
        } else {
            law_single_trial(b, nows.drop_first());
        }
    } else {
    }
}

/// A breaker only ever enters `Closed` from another state by a successful
/// trial, and does so with its failure count at zero and no failure time
/// recorded; no other step leaves `Open` or `HalfOpen` for `Closed`.
pub proof fn law_closing_resets_counters(b: BreakerModel, now: u64)
    requires
        b.wf(),
        b.state != CircuitState::Closed,
    ensures
        b.after_success().state == CircuitState::Closed ==> b.after_success().failure_count == 0
            && b.after_success().last_failure_ms is None,
        b.after_failure(now).state != CircuitState::Closed,
        b.after_try_enter(now).state != CircuitState::Closed,
{
}

/// A guarded call that is rejected leaves the breaker exactly as it was, so
/// any number of rejections in a row change neither the failure count nor
/// the last failure time.
pub proof fn law_rejected_call_changes_nothing<T>(
    b: BreakerModel,
    start: u64,
    outcome: Result<T, String>,
    end: u64,
)
    requires
        !b.lets_in(start),
    ensures
        b.after_call(start, outcome, end) == b,
{
}

/// A guarded call that an open breaker lets in as its trial once the timeout
/// has passed, and that fails at `end`, reopens the breaker with its timer
/// restarted from `end`: every call arriving before `timeout_ms` has passed
/// since `end` is rejected.
pub proof fn law_failed_trial_restarts_timer<T>(
    b: BreakerModel,
    start: u64,
    outcome: Result<T, String>,
    end: u64,
    later: u64,
)
    requires
        b.wf(),
        b.state == CircuitState::Open,
        b.lets_in(start),
        outcome is Err,
        elapsed(end, later) < b.config.timeout_ms,
    ensures
        b.after_call(start, outcome, end).state == CircuitState::Open,
        b.after_call(start, outcome, end).last_failure_ms == Some(end),
        !b.after_call(start, outcome, end).lets_in(later),
{
}

/// A guarded call let in as the trial that succeeds closes the breaker with
/// no failures recorded.
pub proof fn law_successful_trial_closes<T>(
    b: BreakerModel,
    start: u64,
    outcome: Result<T, String>,
    end: u64,
)
    requires
        b.wf(),
        b.state == CircuitState::Open,
        b.lets_in(start),
        outcome is Ok,
    ensures
        b.after_call(start, outcome, end).state == CircuitState::Closed,
        b.after_call(start, outcome, end).failure_count == 0,
        b.after_call(start, outcome, end).last_failure_ms is None,
{
}

} // verus!
