use vstd::prelude::*;

verus! {

/// Budget of the mining barrier: poll the chain height every
/// `poll_interval_ms` until it reaches `threshold_height`, giving up once
/// the accumulated waiting passes `max_wait_ms`.  The wait is the single
/// most expensive bootstrap step by design, so its budget is generous
/// relative to every other timeout in the system.
pub struct MiningBarrierConfig {
    pub threshold_height: u64,
    pub poll_interval_ms: u64,
    pub max_wait_ms: u64,
}

impl MiningBarrierConfig {
    pub open spec fn wf(self) -> bool {
        &&& 1 <= self.threshold_height <= 1_000_000_000
        &&& 1 <= self.poll_interval_ms <= 3_600_000
        &&& self.max_wait_ms <= 86_400_000_000
    }
}

/// The barrier used after bootstrap: one more block than the coinbase
/// maturity window, polled every two seconds for at most 2000 seconds.
pub fn maturity_barrier() -> (c: MiningBarrierConfig)
    ensures
        c.wf(),
        c.threshold_height == 101,
        c.poll_interval_ms == 2000,
        c.max_wait_ms == 2_000_000,
{
    MiningBarrierConfig { threshold_height: 101, poll_interval_ms: 2000, max_wait_ms: 2_000_000 }
}

/// A height observation satisfies the barrier when the query succeeded and
/// the height has reached the threshold.  A failed query is merely "not
/// yet": transient query failures never abort the barrier.
pub open spec fn height_ready(observed: Option<u64>, threshold: u64) -> bool {
    observed matches Some(h) && h >= threshold
}

/// What the barrier does after one poll: succeed with the observed height,
/// keep polling, or fail fatally because the wall-clock budget ran out.
pub enum BarrierDecision {
    Satisfied(u64),
    KeepWaiting,
    TimedOut,
}

/// One barrier decision, from the latest height query (`None` when the
/// query itself failed) and the waiting already spent.
pub fn barrier_step(cfg: &MiningBarrierConfig, elapsed_ms: u64, observed: Option<u64>) -> (d:
    BarrierDecision)
    ensures
        height_ready(observed, cfg.threshold_height) ==> (d matches BarrierDecision::Satisfied(h)
            && observed == Some(h) && h >= cfg.threshold_height),
        !height_ready(observed, cfg.threshold_height) && elapsed_ms > cfg.max_wait_ms ==> d
            is TimedOut,
        !height_ready(observed, cfg.threshold_height) && elapsed_ms <= cfg.max_wait_ms ==> d
            is KeepWaiting,
{
    match observed {
        Some(h) => {
            if h >= cfg.threshold_height {
                return BarrierDecision::Satisfied(h);
            }
            if elapsed_ms > cfg.max_wait_ms {
                BarrierDecision::TimedOut
            } else {
                BarrierDecision::KeepWaiting
            }
        },
        None => {
            if elapsed_ms > cfg.max_wait_ms {
                BarrierDecision::TimedOut
            } else {
                BarrierDecision::KeepWaiting
            }
        },
    }
}

/// Progress toward the threshold as a percentage, clamped so it never
/// exceeds 100 before the barrier is satisfied.
pub fn barrier_progress_percent(cfg: &MiningBarrierConfig, observed: u64) -> (p: u64)
    requires
        cfg.wf(),
    ensures
        observed >= cfg.threshold_height ==> p == 100,
        observed < cfg.threshold_height ==> p == (observed * 100) / (cfg.threshold_height as int),
        p <= 100,
{
    if observed >= cfg.threshold_height {
        100
    } else {
        proof {
            assert((observed * 100) / (cfg.threshold_height as int) < 100) by (nonlinear_arith)
                requires
                    observed < cfg.threshold_height,
                    cfg.threshold_height >= 1,
            ;
        }
        (observed * 100) / cfg.threshold_height
    }
}

/// The record of one whole barrier run over a pre-recorded sequence of
/// height queries: success with the height that met the threshold, a
/// wall-clock timeout, or the sequence running out first.
pub enum BarrierRun {
    Reached { height: u64, polls: usize },
    TimedOut { polls: usize },
    Exhausted,
}

/// Drives the barrier over a pre-recorded sequence of height queries; entry
/// `j` stands for what the chain reported on poll `j`, and poll `j` happens
/// after `j` whole poll intervals of waiting.
///
/// The contract pins the barrier law: a height sequence that reaches the
/// threshold satisfies the barrier with the first observed height at or
/// above it, and one that plateaus below the threshold past `max_wait_ms`
/// times out.
#[verifier::rlimit(50)]
pub fn run_barrier(cfg: &MiningBarrierConfig, observations: &Vec<Option<u64>>) -> (r: BarrierRun)
    requires
        cfg.wf(),
    ensures
        r matches BarrierRun::Reached { height, polls } ==> {
            &&& 1 <= polls <= observations@.len()
            &&& observations@[polls - 1] == Some(height)
            &&& height >= cfg.threshold_height
            &&& forall|j: int|
                0 <= j < polls - 1 ==> !height_ready(#[trigger] observations@[j],
                cfg.threshold_height)
            &&& polls >= 2 ==> (polls - 2) * cfg.poll_interval_ms <= cfg.max_wait_ms
        },
        r matches BarrierRun::TimedOut { polls } ==> {
            &&& 1 <= polls <= observations@.len()
            &&& (polls - 1) * cfg.poll_interval_ms > cfg.max_wait_ms
            &&& forall|j: int|
                0 <= j < polls ==> !height_ready(#[trigger] observations@[j],
                cfg.threshold_height)
        },
        r is Exhausted ==> {
            &&& forall|j: int|
                0 <= j < observations@.len() ==> !height_ready(#[trigger] observations@[j],
                cfg.threshold_height)
            &&& observations@.len() >= 1 ==> (observations@.len() - 1) * cfg.poll_interval_ms
                <= cfg.max_wait_ms
        },
{
    let mut i: usize = 0;
    let mut elapsed: u64 = 0;
    loop
        invariant
            cfg.wf(),
            i <= observations@.len(),
            elapsed == i * cfg.poll_interval_ms,
            elapsed <= cfg.max_wait_ms + cfg.poll_interval_ms,
            i >= 1 ==> (i - 1) * cfg.poll_interval_ms <= cfg.max_wait_ms,
            forall|j: int|
                0 <= j < i ==> !height_ready(#[trigger] observations@[j],
                cfg.threshold_height),
        decreases observations@.len() - i,
    {
        if i == observations.len() {
            return BarrierRun::Exhausted;
        }
        let observed = observations[i];
        match barrier_step(cfg, elapsed, observed) {
            BarrierDecision::Satisfied(h) => {
                return BarrierRun::Reached { height: h, polls: i + 1 };
            },
            BarrierDecision::TimedOut => {
                return BarrierRun::TimedOut { polls: i + 1 };
            },
            BarrierDecision::KeepWaiting => {
                proof {
                    assert(!height_ready(observations@[i as int], cfg.threshold_height));
                    assert(elapsed <= cfg.max_wait_ms);
                    assert((i + 1) * cfg.poll_interval_ms == i * cfg.poll_interval_ms
                        + cfg.poll_interval_ms) by (nonlinear_arith);
                }
                elapsed = elapsed + cfg.poll_interval_ms;
                i = i + 1;
            },
        }
    }
}

} // verus!
