//! The reaper: drains every terminated descendant — the tracked child's
//! orphans included — so that no process this init supervisor is the
//! wait-parent of is ever left a zombie.

use vstd::prelude::*;

use crate::sys::{WaitOutcome, wait_on};

verus! {

broadcast use
    vstd::seq::Seq::add_empty_left,
    vstd::seq::Seq::add_empty_right,
    vstd::seq::Seq::push_distributes_over_add;

/// Whether this outcome lets the drain loop keep going: some child
/// changed state, so another waitable child may be pending.
pub open spec fn makes_progress(outcome: WaitOutcome) -> bool {
    match outcome {
        WaitOutcome::Exited(_, _) => true,
        WaitOutcome::Signaled(_) => true,
        WaitOutcome::OtherChange(_) => true,
        _ => false,
    }
}

/// Whether this outcome reaped a terminated process (released its
/// process-table slot).
pub open spec fn reaps_one(outcome: WaitOutcome) -> bool {
    match outcome {
        WaitOutcome::Exited(_, _) => true,
        WaitOutcome::Signaled(_) => true,
        _ => false,
    }
}

/// The process id an outcome reports on.
pub open spec fn outcome_pid(outcome: WaitOutcome) -> i32 {
    match outcome {
        WaitOutcome::Exited(pid, _) => pid,
        WaitOutcome::Signaled(pid) => pid,
        WaitOutcome::OtherChange(pid) => pid,
        _ => 0,
    }
}

/// The process ids reaped when a drain loop runs over this stream of
/// wait outcomes: the terminations inside the longest prefix of state
/// changes, in order; the first "nothing waitable", "no children" or
/// wait-failure outcome stops the drain.
pub open spec fn spec_drained(outcomes: Seq<WaitOutcome>) -> Seq<i32>
    decreases outcomes.len(),
{
    if outcomes.len() == 0 || !makes_progress(outcomes[0]) {
        Seq::empty()
    } else if reaps_one(outcomes[0]) {
        seq![outcome_pid(outcomes[0])] + spec_drained(outcomes.drop_first())
    } else {
        spec_drained(outcomes.drop_first())
    }
}

/// What one drain saw and did: the outcomes the wait-any primitive
/// reported, in order, and the count of terminated descendants reaped.
/// The contract of `reap_all` ties the count and the error flag to the
/// outcome log by the same drain model that `drain_reaps` implements.
#[derive(Debug)]
pub struct ReapReport {
    /// Every outcome the wait-any primitive reported to this drain, in
    /// order; the last one is what stopped it, unless its fuel ran out.
    pub outcomes: Vec<WaitOutcome>,
    /// How many terminated descendants were reaped by this drain.
    pub reaped: u64,
    /// Whether the drain stopped on a wait failure other than
    /// "no children exist" (an abnormal, logged-and-tolerated stop).
    pub wait_error: bool,
}

/// More state changes than any process table can hold: the drain loop's
/// termination bound, never reached in practice.
pub const REAP_FUEL: u64 = 0xffff_ffff_ffff_ffff;

/// Drain all terminated descendants: repeat the non-blocking wait-any
/// call until it reports that no child is in a waitable state, that no
/// children exist at all (both normal stops), or that the wait failed
/// (an abnormal stop, still a stop — the drain never blocks and never
/// panics). Safe to call from the control loop, while paused, and as the
/// final cleanup pass; on a process with nothing to reap it reports zero
/// and stops at once, so repeating it is harmless. The report carries
/// the observed outcomes, and the contract pins the rest to them: the
/// count is what the drain model collects from that log, the drain went
/// past an outcome only while it made progress, and the error flag is
/// set exactly when a wait failure stopped it.
pub fn reap_all() -> (report: ReapReport)
    ensures
        report.reaped == spec_drained(report.outcomes@).len(),
        report.wait_error == (report.outcomes@.len() > 0 && report.outcomes@.last()
            == WaitOutcome::WaitError),
        forall|i: int|
            0 <= i < report.outcomes@.len() - 1 ==> makes_progress(#[trigger] report.outcomes@[i]),
{
    let mut outcomes: Vec<WaitOutcome> = Vec::new();
    let mut reaped: u64 = 0;
    let mut wait_error = false;
    let mut fuel: u64 = REAP_FUEL;
    while fuel > 0
        invariant_except_break
            !wait_error,
            forall|i: int| 0 <= i < outcomes@.len() ==> makes_progress(#[trigger] outcomes@[i]),
        invariant
            reaped == spec_drained(outcomes@).len(),
            reaped <= outcomes@.len(),
            outcomes@.len() == REAP_FUEL - fuel,
        ensures
            reaped == spec_drained(outcomes@).len(),
            wait_error == (outcomes@.len() > 0 && outcomes@.last() == WaitOutcome::WaitError),
            forall|i: int| 0 <= i < outcomes@.len() - 1 ==> makes_progress(
                #[trigger] outcomes@[i],
            ),
        decreases fuel,
    {
        fuel = fuel - 1;
        let outcome = wait_on(-1, true);
        let ghost seen = outcomes@;
        outcomes.push(outcome);
        proof {
            lemma_drained_extend(seen, outcome);
        }
        match outcome {
            WaitOutcome::Exited(_, _) | WaitOutcome::Signaled(_) => {
                reaped = reaped + 1;
            },
            WaitOutcome::OtherChange(_) => {},
            WaitOutcome::StillAlive | WaitOutcome::NoChildren => {
                break;
            },
            WaitOutcome::WaitError => {
                wait_error = true;
                break;
            },
        }
    }
    ReapReport { outcomes, reaped, wait_error }
}

/// Appending one outcome to an all-progress log extends what the drain
/// model collects by exactly that outcome's termination, if it is one.
proof fn lemma_drained_extend(log: Seq<WaitOutcome>, outcome: WaitOutcome)
    requires
        forall|i: int| 0 <= i < log.len() ==> makes_progress(#[trigger] log[i]),
    ensures
        spec_drained(log.push(outcome)) == if reaps_one(outcome) {
            spec_drained(log).push(outcome_pid(outcome))
        } else {
            spec_drained(log)
        },
    decreases log.len(),
{
    let whole = log.push(outcome);
    reveal_with_fuel(spec_drained, 2);
    if log.len() == 0 {
        assert(whole[0] == outcome);
        assert(whole.drop_first() =~= Seq::<WaitOutcome>::empty());
        if reaps_one(outcome) {
            assert(spec_drained(whole) =~= spec_drained(log).push(outcome_pid(outcome)));
        } else {
            assert(spec_drained(whole) =~= spec_drained(log));
        }
    } else {
        let rest = log.drop_first();
        assert(whole[0] == log[0]);
        assert(makes_progress(log[0]));
        assert(whole.drop_first() =~= rest.push(outcome));
        lemma_drained_extend(rest, outcome);
        if reaps_one(log[0]) {
            assert(spec_drained(whole) == seq![outcome_pid(log[0])] + spec_drained(
                rest.push(outcome),
            ));
            assert(spec_drained(log) == seq![outcome_pid(log[0])] + spec_drained(rest));
        } else {
            assert(spec_drained(whole) == spec_drained(rest.push(outcome)));
            assert(spec_drained(log) == spec_drained(rest));
        }
        if reaps_one(outcome) {
            assert(spec_drained(whole) =~= spec_drained(log).push(outcome_pid(outcome)));
        } else {
            assert(spec_drained(whole) =~= spec_drained(log));
        }
    }
}

/// The drain loop of `reap_all`, run on a predetermined stream of wait
/// outcomes: collects the process id of every termination the stream
/// reports before its first non-progress outcome, each exactly once and
/// in order.
pub fn drain_reaps(outcomes: &Vec<WaitOutcome>) -> (reaped: Vec<i32>)
    ensures
        reaped@ == spec_drained(outcomes@),
{
    let n = outcomes.len();
    let mut reaped: Vec<i32> = Vec::new();
    let mut i: usize = 0;
    proof {
        assert(outcomes@.skip(0) =~= outcomes@);
    }
    while i < n
        invariant
            n == outcomes@.len(),
            i <= n,
            spec_drained(outcomes@) == reaped@ + spec_drained(outcomes@.skip(i as int)),
        ensures
            reaped@ == spec_drained(outcomes@),
        decreases n - i,
    {
        proof {
            assert(outcomes@.skip(i as int)[0] == outcomes@[i as int]);
            assert(outcomes@.skip(i as int).drop_first() =~= outcomes@.skip(i as int + 1));
        }
        match outcomes[i] {
            WaitOutcome::Exited(pid, _) => {
                reaped.push(pid);
                proof {
                    assert(spec_drained(outcomes@) =~= reaped@ + spec_drained(
                        outcomes@.skip(i as int + 1),
                    ));
                }
            },
            WaitOutcome::Signaled(pid) => {
                reaped.push(pid);
                proof {
                    assert(spec_drained(outcomes@) =~= reaped@ + spec_drained(
                        outcomes@.skip(i as int + 1),
                    ));
                }
            },
            WaitOutcome::OtherChange(_) => {},
            _ => {
                proof {
                    assert(spec_drained(outcomes@.skip(i as int)) =~= Seq::<i32>::empty());
                }
                break;
            },
        }
        i = i + 1;
    }
    reaped
}

/// No zombie leak: when the wait primitive reports any number of
/// terminations and then that nothing more is waitable, the drain
/// collects every reported termination exactly once — the collected ids
/// are exactly the reported ids, index for index.
pub proof fn lemma_no_zombie_leak(terminations: Seq<WaitOutcome>, stop: WaitOutcome)
    requires
        forall|i: int| 0 <= i < terminations.len() ==> reaps_one(#[trigger] terminations[i]),
        !makes_progress(stop),
    ensures
        spec_drained(terminations.push(stop)) == terminations.map(
            |i: int, outcome: WaitOutcome| outcome_pid(outcome),
        ),
    decreases terminations.len(),
{
    let whole = terminations.push(stop);
    let mapped = terminations.map(|i: int, outcome: WaitOutcome| outcome_pid(outcome));
    if terminations.len() == 0 {
        assert(whole[0] == stop);
        assert(spec_drained(whole) =~= mapped);
    } else {
        let rest = terminations.drop_first();
        assert(whole[0] == terminations[0]);
        assert(whole.drop_first() =~= rest.push(stop));
        lemma_no_zombie_leak(rest, stop);
        let rest_mapped = rest.map(|i: int, outcome: WaitOutcome| outcome_pid(outcome));
        assert(spec_drained(whole) == seq![outcome_pid(terminations[0])] + rest_mapped);
        assert(mapped =~= seq![outcome_pid(terminations[0])] + rest_mapped);
    }
}

} // verus!
