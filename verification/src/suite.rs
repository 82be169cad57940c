use vstd::prelude::*;
use crate::jsonio::{field_present_in, json_has_field, json_str_field, str_field_of};

verus! {

/// One whole coin in zatoshis: the minimum funded balance the end-to-end
/// scenario needs before it will submit a funding request.
pub const FUNDING_THRESHOLD_ZATS: u64 = 100_000_000;

/// First check: the chain node answered its RPC with a success status.
pub fn judge_core_reachability(status_success: bool) -> (r: bool)
    ensures
        r == status_success,
{
    status_success
}

/// Second check: the funding service's health endpoint answered with a
/// success status.
pub fn judge_funding_health(status_success: bool) -> (r: bool)
    ensures
        r == status_success,
{
    status_success
}

/// Third check: the stats endpoint answered with a success status and its
/// body carries both the balance field and the address field.
pub fn judge_stats_body(status_success: bool, body: &[u8]) -> (r: bool)
    ensures
        r == (status_success && field_present_in(body@, "faucet_address"@) && field_present_in(
            body@,
            "current_balance"@,
        )),
{
    status_success && json_has_field(body, "faucet_address") && json_has_field(
        body,
        "current_balance",
    )
}

/// Fourth check: the address endpoint answered with a success status and
/// its body carries an `address` field.
pub fn judge_address_body(status_success: bool, body: &[u8]) -> (r: bool)
    ensures
        r == (status_success && field_present_in(body@, "address"@)),
{
    status_success && json_has_field(body, "address")
}

/// A funding response proves the transfer only with a success status and a
/// non-empty transaction identifier.
pub open spec fn spec_send_accepted(status_success: bool, txid: Option<Seq<char>>) -> bool {
    status_success && (txid matches Some(t) && t.len() > 0)
}

pub fn judge_send_response(status_success: bool, txid: &Option<String>) -> (r: bool)
    ensures
        r == spec_send_accepted(status_success, crate::probe::opt_str_view(txid)),
{
    match txid {
        Some(t) => status_success && t.as_str().unicode_len() > 0,
        None => false,
    }
}

// ---------------------------------------------------------------------------
// The end-to-end funding scenario (the suite's fifth check)
// ---------------------------------------------------------------------------

/// Where the scenario stands: the wallet resync, the balance poll, the
/// fixture load, the funding request, and the verdict.
#[derive(PartialEq, Eq, Structural, Clone, Copy)]
pub enum Step5State {
    Syncing,
    AwaitBalance,
    AwaitFixture,
    AwaitSend,
    Done(bool),
}

/// What the fixture load found.
pub enum FixtureStatus {
    Missing,
    Invalid,
    Address(String),
}

/// What the outside world reports back to the scenario.
pub enum Step5Event {
    SyncFinished,
    BalanceKnown(Option<u64>),
    FixtureLoaded(FixtureStatus),
    SendCompleted(bool, Option<String>),
}

/// What the scenario asks its driver to do next.
pub enum Step5Action {
    QueryBalance,
    LoadFixture,
    SendRequest(String),
    Finish(bool),
}

/// The scenario's transition relation.
///
/// A balance below the funding threshold finishes the step as passed
/// without a funding request: an unfunded wallet right after bootstrap is
/// expected, not erroneous.  A missing fixture likewise skips as passed; a
/// fixture whose address cannot be read fails.  A balance that could not be
/// read (the stats endpoint did not answer successfully) is not taken as
/// proof of poverty: the scenario proceeds to the fixture.  An event that
/// does not answer the pending question finishes the step as failed.
pub open spec fn spec_step5(st: Step5State, ev: Step5Event) -> (Step5State, Step5Action) {
    match st {
        Step5State::Done(p) => (Step5State::Done(p), Step5Action::Finish(p)),
        Step5State::Syncing => match ev {
            Step5Event::SyncFinished => (Step5State::AwaitBalance, Step5Action::QueryBalance),
            _ => (Step5State::Done(false), Step5Action::Finish(false)),
        },
        Step5State::AwaitBalance => match ev {
            Step5Event::BalanceKnown(Some(b)) => if b < FUNDING_THRESHOLD_ZATS {
                (Step5State::Done(true), Step5Action::Finish(true))
            } else {
                (Step5State::AwaitFixture, Step5Action::LoadFixture)
            },
            Step5Event::BalanceKnown(None) => (
                Step5State::AwaitFixture,
                Step5Action::LoadFixture,
            ),
            _ => (Step5State::Done(false), Step5Action::Finish(false)),
        },
        Step5State::AwaitFixture => match ev {
            Step5Event::FixtureLoaded(FixtureStatus::Missing) => (
                Step5State::Done(true),
                Step5Action::Finish(true),
            ),
            Step5Event::FixtureLoaded(FixtureStatus::Invalid) => (
                Step5State::Done(false),
                Step5Action::Finish(false),
            ),
            Step5Event::FixtureLoaded(FixtureStatus::Address(a)) => (
                Step5State::AwaitSend,
                Step5Action::SendRequest(a),
            ),
            _ => (Step5State::Done(false), Step5Action::Finish(false)),
        },
        Step5State::AwaitSend => match ev {
            Step5Event::SendCompleted(ok, txid) => {
                let p = spec_send_accepted(
                    ok,
                    match txid {
                        Some(t) => Some(t@),
                        None => None,
                    },
                );
                (Step5State::Done(p), Step5Action::Finish(p))
            },
            _ => (Step5State::Done(false), Step5Action::Finish(false)),
        },
    }
}

pub fn step5_start() -> (st: Step5State)
    ensures
        st is Syncing,
{
    Step5State::Syncing
}

/// One transition of the scenario.
pub fn step5_next(st: Step5State, ev: &Step5Event) -> (r: (Step5State, Step5Action))
    ensures
        r == spec_step5(st, *ev),
{
    match st {
        Step5State::Done(p) => (Step5State::Done(p), Step5Action::Finish(p)),
        Step5State::Syncing => match ev {
            Step5Event::SyncFinished => (Step5State::AwaitBalance, Step5Action::QueryBalance),
            _ => (Step5State::Done(false), Step5Action::Finish(false)),
        },
        Step5State::AwaitBalance => match ev {
            Step5Event::BalanceKnown(Some(b)) => if *b < FUNDING_THRESHOLD_ZATS {
                (Step5State::Done(true), Step5Action::Finish(true))
            } else {
                (Step5State::AwaitFixture, Step5Action::LoadFixture)
            },
            Step5Event::BalanceKnown(None) => (
                Step5State::AwaitFixture,
                Step5Action::LoadFixture,
            ),
            _ => (Step5State::Done(false), Step5Action::Finish(false)),
        },
        Step5State::AwaitFixture => match ev {
            Step5Event::FixtureLoaded(FixtureStatus::Missing) => (
                Step5State::Done(true),
                Step5Action::Finish(true),
            ),
            Step5Event::FixtureLoaded(FixtureStatus::Invalid) => (
                Step5State::Done(false),
                Step5Action::Finish(false),
            ),
            Step5Event::FixtureLoaded(FixtureStatus::Address(a)) => (
                Step5State::AwaitSend,
                Step5Action::SendRequest(a.clone()),
            ),
            _ => (Step5State::Done(false), Step5Action::Finish(false)),
        },
        Step5State::AwaitSend => match ev {
            Step5Event::SendCompleted(ok, txid) => {
                let p = judge_send_response(*ok, txid);
                (Step5State::Done(p), Step5Action::Finish(p))
            },
            _ => (Step5State::Done(false), Step5Action::Finish(false)),
        },
    }
}

/// The funding-response event, read straight off the response body.
pub fn send_completed_event(status_success: bool, body: &[u8]) -> (ev: Step5Event)
    ensures
        ev matches Step5Event::SendCompleted(ok, txid) && ok == status_success && (match txid {
            Some(t) => str_field_of(body@, "txid"@) == Some(t@),
            None => str_field_of(body@, "txid"@) is None,
        }),
{
    Step5Event::SendCompleted(status_success, json_str_field(body, "txid"))
}

/// The actions a whole scenario run asks for, one per event consumed.
pub open spec fn spec_step5_run(st: Step5State, evs: Seq<Step5Event>) -> Seq<Step5Action>
    decreases evs.len(),
{
    if evs.len() == 0 {
        Seq::empty()
    } else {
        seq![spec_step5(st, evs[0]).1] + spec_step5_run(spec_step5(st, evs[0]).0, evs.skip(1))
    }
}

pub open spec fn spec_send_count(tr: Seq<Step5Action>) -> int
    decreases tr.len(),
{
    if tr.len() == 0 {
        0
    } else {
        (if tr[0] is SendRequest {
            1int
        } else {
            0int
        }) + spec_send_count(tr.skip(1))
    }
}

pub open spec fn spec_step5_rank(st: Step5State) -> int {
    match st {
        Step5State::Syncing => 0,
        Step5State::AwaitBalance => 1,
        Step5State::AwaitFixture => 2,
        Step5State::AwaitSend => 3,
        Step5State::Done(_) => 4,
    }
}

/// Law: however the outside world answers, one scenario run issues at most
/// one funding request, and none at all once the request was sent or the
/// step has finished.
pub proof fn lemma_step5_at_most_one_send(st: Step5State, evs: Seq<Step5Event>)
    ensures
        spec_send_count(spec_step5_run(st, evs)) <= 1,
        spec_step5_rank(st) >= 3 ==> spec_send_count(spec_step5_run(st, evs)) == 0,
    decreases evs.len(),
{
    if evs.len() > 0 {
        let a = spec_step5(st, evs[0]).1;
        let n = spec_step5(st, evs[0]).0;
        let tr = spec_step5_run(st, evs);
        assert(tr[0] == a);
        assert(tr.skip(1) =~= spec_step5_run(n, evs.skip(1)));
        lemma_step5_at_most_one_send(n, evs.skip(1));
        if a is SendRequest {
            assert(spec_step5_rank(n) >= 3);
        }
        if spec_step5_rank(st) >= 3 {
            assert(!(a is SendRequest));
            assert(spec_step5_rank(n) >= 3);
        }
    }
}

/// Law: a balance below the funding threshold finishes the scenario at once
/// as passed, and no funding request is issued then or ever after.
pub proof fn lemma_step5_skip_below_threshold(b: u64, evs: Seq<Step5Event>)
    requires
        b < FUNDING_THRESHOLD_ZATS,
    ensures
        spec_step5(Step5State::AwaitBalance, Step5Event::BalanceKnown(Some(b))).0
            == Step5State::Done(true),
        spec_step5(Step5State::AwaitBalance, Step5Event::BalanceKnown(Some(b))).1
            == Step5Action::Finish(true),
        spec_send_count(
            spec_step5_run(
                spec_step5(Step5State::AwaitBalance, Step5Event::BalanceKnown(Some(b))).0,
                evs,
            ),
        ) == 0,
{
    lemma_step5_at_most_one_send(
        spec_step5(Step5State::AwaitBalance, Step5Event::BalanceKnown(Some(b))).0,
        evs,
    );
}

// ---------------------------------------------------------------------------
// The suite's tally
// ---------------------------------------------------------------------------

pub open spec fn spec_passed_count(rs: Seq<bool>) -> int
    decreases rs.len(),
{
    if rs.len() == 0 {
        0
    } else {
        (if rs[0] {
            1int
        } else {
            0int
        }) + spec_passed_count(rs.skip(1))
    }
}

/// Counts a run's passed and failed checks; every check is counted exactly
/// once, whichever way it went.
pub fn tally(results: &Vec<bool>) -> (t: (usize, usize))
    ensures
        t.0 == spec_passed_count(results@),
        t.0 + t.1 == results@.len(),
{
    let mut passed: usize = 0;
    let mut i: usize = 0;
    proof {
        assert(results@.skip(0) =~= results@);
    }
    while i < results.len()
        invariant
            i <= results@.len(),
            passed <= i,
            spec_passed_count(results@) == passed + spec_passed_count(
                results@.skip(i as int),
            ),
        decreases results@.len() - i,
    {
        proof {
            assert(results@.skip(i as int)[0] == results@[i as int]);
            assert(results@.skip(i as int).skip(1) =~= results@.skip(i + 1));
        }
        if results[i] {
            passed = passed + 1;
        }
        i = i + 1;
    }
    (passed, results.len() - passed)
}

/// Law: the suite is fatal exactly when some check failed; a nonzero
/// failure count maps to a nonzero process exit.
pub fn suite_verdict(failed: usize) -> (fatal: bool)
    ensures
        fatal == (failed > 0),
{
    failed > 0
}

} // verus!
