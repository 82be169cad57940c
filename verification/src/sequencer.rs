use vstd::prelude::*;
use crate::topology::Backend;

verus! {

/// The phases of the bootstrap sequence, in the strict order they run.
#[derive(Debug, PartialEq, Eq, Structural, Clone, Copy)]
pub enum Phase {
    StartContainers,
    WaitCoreService,
    WaitBackendService,
    ResolveMinerAddress,
    ReconcileMinerConfig,
    RestartAffectedService,
    MiningBarrierWait,
    GenerateFixture,
    SyncWallet,
    CheckBalance,
    Ready,
}

/// Whether exhausting a phase's budget aborts the whole run or is only
/// logged.
#[derive(Debug, PartialEq, Eq, Structural, Clone, Copy)]
pub enum Severity {
    Fatal,
    Advisory,
}

pub open spec fn spec_phase_index(p: Phase) -> int {
    match p {
        Phase::StartContainers => 0,
        Phase::WaitCoreService => 1,
        Phase::WaitBackendService => 2,
        Phase::ResolveMinerAddress => 3,
        Phase::ReconcileMinerConfig => 4,
        Phase::RestartAffectedService => 5,
        Phase::MiningBarrierWait => 6,
        Phase::GenerateFixture => 7,
        Phase::SyncWallet => 8,
        Phase::CheckBalance => 9,
        Phase::Ready => 10,
    }
}

pub open spec fn spec_next_phase(p: Phase) -> Phase {
    match p {
        Phase::StartContainers => Phase::WaitCoreService,
        Phase::WaitCoreService => Phase::WaitBackendService,
        Phase::WaitBackendService => Phase::ResolveMinerAddress,
        Phase::ResolveMinerAddress => Phase::ReconcileMinerConfig,
        Phase::ReconcileMinerConfig => Phase::RestartAffectedService,
        Phase::RestartAffectedService => Phase::MiningBarrierWait,
        Phase::MiningBarrierWait => Phase::GenerateFixture,
        Phase::GenerateFixture => Phase::SyncWallet,
        Phase::SyncWallet => Phase::CheckBalance,
        Phase::CheckBalance => Phase::Ready,
        Phase::Ready => Phase::Ready,
    }
}

/// The fatal/advisory policy of each phase.  Waiting gates are fatal: a
/// stack that never comes up cannot be bootstrapped.  Address resolution,
/// reconciliation, the restart and everything after the mining barrier are
/// advisory: the chain still mines to its previously configured default
/// address when they fail.
pub open spec fn spec_phase_severity(p: Phase) -> Severity {
    match p {
        Phase::StartContainers => Severity::Fatal,
        Phase::WaitCoreService => Severity::Fatal,
        Phase::WaitBackendService => Severity::Fatal,
        Phase::MiningBarrierWait => Severity::Fatal,
        _ => Severity::Advisory,
    }
}

pub fn phase_severity(p: Phase) -> (s: Severity)
    ensures
        s == spec_phase_severity(p),
{
    match p {
        Phase::StartContainers => Severity::Fatal,
        Phase::WaitCoreService => Severity::Fatal,
        Phase::WaitBackendService => Severity::Fatal,
        Phase::MiningBarrierWait => Severity::Fatal,
        _ => Severity::Advisory,
    }
}

pub fn next_phase(p: Phase) -> (n: Phase)
    ensures
        n == spec_next_phase(p),
{
    match p {
        Phase::StartContainers => Phase::WaitCoreService,
        Phase::WaitCoreService => Phase::WaitBackendService,
        Phase::WaitBackendService => Phase::ResolveMinerAddress,
        Phase::ResolveMinerAddress => Phase::ReconcileMinerConfig,
        Phase::ReconcileMinerConfig => Phase::RestartAffectedService,
        Phase::RestartAffectedService => Phase::MiningBarrierWait,
        Phase::MiningBarrierWait => Phase::GenerateFixture,
        Phase::GenerateFixture => Phase::SyncWallet,
        Phase::SyncWallet => Phase::CheckBalance,
        Phase::CheckBalance => Phase::Ready,
        Phase::Ready => Phase::Ready,
    }
}

/// What the sequencer threads from phase to phase: where it stands, the
/// transparent address resolved so far, and whether the configuration was
/// actually rewritten.
pub struct BootState {
    pub phase: Phase,
    pub resolved_address: Option<String>,
    pub reconciled: bool,
}

/// A phase that does not run in this deployment or with this state: the
/// backend gate without a backend, reconciliation without a resolved
/// address, and the restart without a rewritten configuration.
pub open spec fn spec_skipped(st: BootState, backend: Backend) -> bool {
    ||| st.phase is WaitBackendService && backend is NoBackend
    ||| st.phase is ReconcileMinerConfig && st.resolved_address is None
    ||| st.phase is RestartAffectedService && !st.reconciled
}

pub fn skipped(st: &BootState, backend: Backend) -> (r: bool)
    ensures
        r == spec_skipped(*st, backend),
{
    match st.phase {
        Phase::WaitBackendService => matches!(backend, Backend::NoBackend),
        Phase::ReconcileMinerConfig => st.resolved_address.is_none(),
        Phase::RestartAffectedService => !st.reconciled,
        _ => false,
    }
}

/// The state at the next phase that actually runs.
pub open spec fn spec_advance(st: BootState, backend: Backend) -> BootState
    decreases 11 - spec_phase_index(st.phase),
{
    if st.phase is Ready {
        st
    } else {
        let n = BootState { phase: spec_next_phase(st.phase), ..st };
        if spec_skipped(n, backend) {
            spec_advance(n, backend)
        } else {
            n
        }
    }
}

pub proof fn lemma_advance(st: BootState, backend: Backend)
    ensures
        !(st.phase is Ready) ==> spec_phase_index(spec_advance(st, backend).phase)
            >= spec_phase_index(st.phase) + 1,
        spec_advance(st, backend).phase is Ready || !spec_skipped(
            spec_advance(st, backend),
            backend,
        ),
        spec_advance(st, backend).resolved_address == st.resolved_address,
        spec_advance(st, backend).reconciled == st.reconciled,
    decreases 11 - spec_phase_index(st.phase),
{
    if !(st.phase is Ready) {
        let n = BootState { phase: spec_next_phase(st.phase), ..st };
        if spec_skipped(n, backend) {
            lemma_advance(n, backend);
        }
    }
}

pub fn advance(st: BootState, backend: Backend) -> (n: BootState)
    ensures
        n == spec_advance(st, backend),
    decreases 11 - spec_phase_index(st.phase),
{
    if matches!(st.phase, Phase::Ready) {
        st
    } else {
        let n = BootState {
            phase: next_phase(st.phase),
            resolved_address: st.resolved_address,
            reconciled: st.reconciled,
        };
        if skipped(&n, backend) {
            advance(n, backend)
        } else {
            n
        }
    }
}

/// How one phase ended: success, with the resolved address as payload where
/// the phase produces one, or failure with its detail.
pub enum PhaseOutcome {
    Succeeded(Option<String>),
    Failed(String),
}

/// What a phase's success leaves in the threaded state.
pub open spec fn spec_apply_success(st: BootState, payload: Option<String>) -> BootState {
    match st.phase {
        Phase::ResolveMinerAddress => BootState { resolved_address: payload, ..st },
        Phase::ReconcileMinerConfig => BootState { reconciled: true, ..st },
        _ => st,
    }
}

/// What the driver does after a step: run the next phase from the new
/// state, or abort the whole run naming the failed phase.
pub enum StepResult {
    Continue(BootState),
    Abort(Phase, String),
}

/// One transition of the bootstrap sequence.  A successful phase records
/// its output and the run moves on; a failed fatal phase aborts the run
/// with that phase's name and detail; a failed advisory phase is skipped
/// over, its output simply absent from the state the rest of the run sees.
pub fn sequencer_step(st: BootState, backend: Backend, outcome: &PhaseOutcome) -> (r: StepResult)
    requires
        !(st.phase is Ready),
        !spec_skipped(st, backend),
    ensures
        match outcome {
            PhaseOutcome::Succeeded(payload) => (r matches StepResult::Continue(n) && n
                == spec_advance(spec_apply_success(st, *payload), backend)),
            PhaseOutcome::Failed(d) => {
                if spec_phase_severity(st.phase) is Fatal {
                    r matches StepResult::Abort(p, det) && p == st.phase && det == d
                } else {
                    r matches StepResult::Continue(n) && n == spec_advance(st, backend)
                }
            },
        },
{
    match outcome {
        PhaseOutcome::Succeeded(payload) => {
            let applied = match st.phase {
                Phase::ResolveMinerAddress => BootState {
                    phase: st.phase,
                    resolved_address: clone_address(payload),
                    reconciled: st.reconciled,
                },
                Phase::ReconcileMinerConfig => BootState {
                    phase: st.phase,
                    resolved_address: st.resolved_address,
                    reconciled: true,
                },
                _ => st,
            };
            StepResult::Continue(advance(applied, backend))
        },
        PhaseOutcome::Failed(d) => {
            match phase_severity(st.phase) {
                Severity::Fatal => StepResult::Abort(st.phase, d.clone()),
                Severity::Advisory => StepResult::Continue(advance(st, backend)),
            }
        },
    }
}

fn clone_address(o: &Option<String>) -> (r: Option<String>)
    ensures
        r == *o,
{
    match o {
        Some(s) => Some(s.clone()),
        None => None,
    }
}

/// The state every run begins in.
pub open spec fn spec_initial_state() -> BootState {
    BootState { phase: Phase::StartContainers, resolved_address: None, reconciled: false }
}

pub fn initial_state() -> (st: BootState)
    ensures
        st == spec_initial_state(),
        st.phase is StartContainers,
        st.resolved_address is None,
        !st.reconciled,
{
    BootState { phase: Phase::StartContainers, resolved_address: None, reconciled: false }
}

/// How a whole bootstrap run ends.
pub enum BootRun {
    Completed(BootState),
    Aborted(Phase, String),
    OutOfEvents(BootState),
}

/// The run the recording determines, one transition per outcome: a
/// successful phase records its payload and the run advances; a failed
/// fatal phase ends it in `Aborted` with that phase and detail; a failed
/// advisory phase is passed over; a run that stands in `Ready` is
/// `Completed`, and one whose recording ends first is `OutOfEvents`.
pub open spec fn spec_run_bootstrap(
    st: BootState,
    backend: Backend,
    evs: Seq<PhaseOutcome>,
) -> BootRun
    decreases 11 - spec_phase_index(st.phase),
    via spec_run_bootstrap_decreases
{
    if st.phase is Ready {
        BootRun::Completed(st)
    } else if evs.len() == 0 {
        BootRun::OutOfEvents(st)
    } else {
        match evs[0] {
            PhaseOutcome::Succeeded(payload) => spec_run_bootstrap(
                spec_advance(spec_apply_success(st, payload), backend),
                backend,
                evs.skip(1),
            ),
            PhaseOutcome::Failed(d) => if spec_phase_severity(st.phase) is Fatal {
                BootRun::Aborted(st.phase, d)
            } else {
                spec_run_bootstrap(spec_advance(st, backend), backend, evs.skip(1))
            },
        }
    }
}

#[via_fn]
proof fn spec_run_bootstrap_decreases(st: BootState, backend: Backend, evs: Seq<PhaseOutcome>) {
    if !(st.phase is Ready) && evs.len() > 0 {
        lemma_advance(spec_apply_success(st, evs[0]->Succeeded_0), backend);
        lemma_advance(st, backend);
    }
}

/// Drives the sequencer over a pre-recorded list of phase outcomes; entry
/// `k` stands for how the `k`-th phase that actually ran ended.
///
/// The result is exactly the run the recording determines,
/// `spec_run_bootstrap`; the remaining clauses are its readable corollaries:
/// a run completes exactly in the `Ready` phase; it aborts only in a fatal
/// phase, and only on an outcome that was a failure; and ten outcomes
/// always suffice, so a recording in which every phase succeeds drives the
/// sequence all the way to `Ready`.
pub fn run_bootstrap(backend: Backend, outcomes: &Vec<PhaseOutcome>) -> (r: BootRun)
    ensures
        r == spec_run_bootstrap(spec_initial_state(), backend, outcomes@),
        r matches BootRun::Completed(st) ==> st.phase is Ready,
        r matches BootRun::Aborted(p, d) ==> spec_phase_severity(p) is Fatal && exists|i: int|
            0 <= i < outcomes@.len() && ((#[trigger] outcomes@[i]) matches PhaseOutcome::Failed(
                det,
            ) && det@ == d@),
        outcomes@.len() >= 10 ==> !(r is OutOfEvents),
        outcomes@.len() >= 10 && (forall|i: int|
            0 <= i < outcomes@.len() ==> #[trigger] outcomes@[i] is Succeeded) ==> r
            is Completed,
{
    let mut st = initial_state();
    let mut consumed: usize = 0;
    proof {
        assert(outcomes@.skip(0) =~= outcomes@);
    }
    loop
        invariant
            consumed <= outcomes@.len(),
            spec_phase_index(st.phase) >= consumed,
            st.phase is Ready || !spec_skipped(st, backend),
            spec_run_bootstrap(spec_initial_state(), backend, outcomes@) == spec_run_bootstrap(
                st,
                backend,
                outcomes@.skip(consumed as int),
            ),
        decreases 11 - spec_phase_index(st.phase),
    {
        match st.phase {
            Phase::Ready => {
                return BootRun::Completed(st);
            },
            _ => {},
        }
        if consumed == outcomes.len() {
            proof {
                assert(spec_phase_index(st.phase) < 10);
                assert(outcomes@.len() < 10);
                assert(outcomes@.skip(consumed as int).len() == 0);
            }
            return BootRun::OutOfEvents(st);
        }
        let ev = &outcomes[consumed];
        proof {
            lemma_advance(spec_apply_success(st, ev->Succeeded_0), backend);
            lemma_advance(st, backend);
            assert(outcomes@.skip(consumed as int)[0] == outcomes@[consumed as int]);
            assert(outcomes@.skip(consumed as int).skip(1) =~= outcomes@.skip(
                consumed + 1,
            ));
        }
        match sequencer_step(st, backend, ev) {
            StepResult::Continue(n) => {
                st = n;
                consumed = consumed + 1;
            },
            StepResult::Abort(p, d) => {
                proof {
                    assert((outcomes@[consumed as int] matches PhaseOutcome::Failed(det)
                        && det == d));
                    assert(!(outcomes@[consumed as int] is Succeeded));
                }
                return BootRun::Aborted(p, d);
            },
        }
    }
}

} // verus!
