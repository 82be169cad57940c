use vstd::prelude::*;
use crate::error::ZecDevError;

verus! {

/// A bounded-attempt, fixed-interval retry budget.  Worst-case wall time is
/// about `max_attempts * interval_ms`, plus what the attempts themselves
/// take; each service class gets its own values.
pub struct RetryPolicy {
    pub max_attempts: u32,
    pub interval_ms: u64,
    pub per_attempt_timeout_ms: u64,
}

impl RetryPolicy {
    /// At least one attempt, and bounds generous enough for any real
    /// deployment while keeping every accumulated wait inside `u64`.
    pub open spec fn wf(self) -> bool {
        &&& 1 <= self.max_attempts <= 1_000_000
        &&& self.interval_ms <= 86_400_000
    }
}

/// Policy for probing the core chain node: a larger budget than the funding
/// service gets, since the node must index its chain state before answering.
pub fn core_policy() -> (p: RetryPolicy)
    ensures
        p.wf(),
        p.max_attempts == 90,
        p.interval_ms == 2000,
        p.per_attempt_timeout_ms == 5000,
{
    RetryPolicy { max_attempts: 90, interval_ms: 2000, per_attempt_timeout_ms: 5000 }
}

/// Policy for probing the funding service.
pub fn funding_policy() -> (p: RetryPolicy)
    ensures
        p.wf(),
        p.max_attempts == 60,
        p.interval_ms == 2000,
        p.per_attempt_timeout_ms == 5000,
{
    RetryPolicy { max_attempts: 60, interval_ms: 2000, per_attempt_timeout_ms: 5000 }
}

/// Policy for probing the indexing backend: the largest budget of the three
/// (half an hour of polling), because its startup is the slowest and is
/// observable only as a raw TCP connect with a short per-attempt timeout.
pub fn backend_policy() -> (p: RetryPolicy)
    ensures
        p.wf(),
        p.max_attempts == 900,
        p.interval_ms == 2000,
        p.per_attempt_timeout_ms == 2000,
{
    RetryPolicy { max_attempts: 900, interval_ms: 2000, per_attempt_timeout_ms: 2000 }
}

/// How many attempts the scheduler has already spent on the current probe.
#[derive(Clone, Copy)]
pub struct RetryState {
    pub attempts_made: u32,
}

/// What the scheduler does after one probe attempt: stop with success, sleep
/// one interval and try again, or give up with `ServiceNotReady`.
pub enum RetryDecision {
    Succeeded,
    SleepAndRetry(RetryState),
    Exhausted,
}

/// One scheduling decision.  Every non-ready outcome is treated identically:
/// it consumes one attempt of the budget, whatever the probe's reason was.
pub fn retry_step(policy: &RetryPolicy, st: RetryState, ready: bool) -> (d: RetryDecision)
    requires
        policy.wf(),
        st.attempts_made < policy.max_attempts,
    ensures
        ready ==> d is Succeeded,
        !ready && st.attempts_made + 1 < policy.max_attempts ==> (d matches
            RetryDecision::SleepAndRetry(n) && n.attempts_made == st.attempts_made + 1),
        !ready && st.attempts_made + 1 == policy.max_attempts ==> d is Exhausted,
{
    if ready {
        RetryDecision::Succeeded
    } else if st.attempts_made + 1 < policy.max_attempts {
        RetryDecision::SleepAndRetry(RetryState { attempts_made: st.attempts_made + 1 })
    } else {
        RetryDecision::Exhausted
    }
}

/// The error an exhausted budget terminates in, naming the service that
/// never became ready.
pub fn exhausted_error(name: &String) -> (e: ZecDevError)
    ensures
        e is ServiceNotReady,
        e.detail_view() == name@,
{
    ZecDevError::ServiceNotReady(name.clone())
}

/// The record of one whole scheduling run: whether the probe ever became
/// ready, how many attempts were spent, and how long the inter-attempt
/// sleeps added up to.  Real elapsed time is at least `waited_ms`.
pub struct ScheduleReport {
    pub succeeded: bool,
    pub attempts: u32,
    pub waited_ms: u64,
}

/// Drives the retry loop over a pre-recorded sequence of probe outcomes;
/// entry `k` stands for what the probe would report on attempt `k`.
///
/// The contract pins both scheduling laws: a probe that never becomes ready
/// costs exactly `max_attempts` attempts and `(max_attempts - 1)` sleeps of
/// one interval each, and a probe that becomes ready on attempt `k` stops
/// after exactly `k` attempts with `(k - 1)` sleeps, leaving the rest of the
/// budget unspent.
pub fn run_schedule(policy: &RetryPolicy, outcomes: &Vec<bool>) -> (r: ScheduleReport)
    requires
        policy.wf(),
        outcomes@.len() >= policy.max_attempts,
    ensures
        r.succeeded ==> {
            &&& 1 <= r.attempts <= policy.max_attempts
            &&& outcomes@[r.attempts - 1]
            &&& forall|j: int| 0 <= j < r.attempts - 1 ==> !outcomes@[j]
            &&& r.waited_ms == (r.attempts - 1) * policy.interval_ms
        },
        !r.succeeded ==> {
            &&& r.attempts == policy.max_attempts
            &&& forall|j: int| 0 <= j < policy.max_attempts ==> !outcomes@[j]
            &&& r.waited_ms == (policy.max_attempts - 1) * policy.interval_ms
        },
{
    let mut st = RetryState { attempts_made: 0 };
    let mut waited: u64 = 0;
    loop
        invariant
            policy.wf(),
            outcomes@.len() >= policy.max_attempts,
            st.attempts_made < policy.max_attempts,
            forall|j: int| 0 <= j < st.attempts_made ==> !outcomes@[j],
            waited == st.attempts_made * policy.interval_ms,
        decreases policy.max_attempts - st.attempts_made,
    {
        let ready = outcomes[st.attempts_made as usize];
        match retry_step(policy, st, ready) {
            RetryDecision::Succeeded => {
                return ScheduleReport {
                    succeeded: true,
                    attempts: st.attempts_made + 1,
                    waited_ms: waited,
                };
            },
            RetryDecision::SleepAndRetry(next) => {
                proof {
                    assert(next.attempts_made * policy.interval_ms == st.attempts_made
                        * policy.interval_ms + policy.interval_ms) by (nonlinear_arith)
                        requires
                            next.attempts_made == st.attempts_made + 1,
                    ;
                    assert(next.attempts_made * policy.interval_ms <= 1_000_000
                        * 86_400_000) by (nonlinear_arith)
                        requires
                            next.attempts_made <= 1_000_000,
                            policy.interval_ms <= 86_400_000,
                    ;
                }
                waited = waited + policy.interval_ms;
                st = next;
            },
            RetryDecision::Exhausted => {
                return ScheduleReport {
                    succeeded: false,
                    attempts: st.attempts_made + 1,
                    waited_ms: waited,
                };
            },
        }
    }
}

} // verus!
