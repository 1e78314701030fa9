//! Runs as sequences of steps, and what holds of every run.
//!
//! A driver can do two things to a run: launch the next request
//! ([`Dispatcher::launch`](crate::dispatch::Dispatcher::launch)) and complete
//! one that is in flight
//! ([`Dispatcher::complete`](crate::dispatch::Dispatcher::complete)). Whatever
//! it does, and in whatever order, the state it reaches is [`reached`] for the
//! steps it took. The proof functions of this module are stated over all such
//! sequences, so they hold at every instant of every run, however the tasks
//! interleave.

use crate::dispatch::{Action, DispatchState};
use crate::outcome::{outcome_of, Outcome, TransportResult};
use vstd::prelude::*;

verus! {

/// One thing that happens to a run.
pub enum Step {
    /// The dispatcher tries to launch the next request.
    Launch,
    /// A request task ends with this result.
    Complete(TransportResult),
}

/// The state after one step.
pub open spec fn step(s: DispatchState, e: Step) -> DispatchState {
    match e {
        Step::Launch => s.launch(),
        Step::Complete(result) => s.complete(result),
    }
}

/// The state after a sequence of steps, taken from first to last.
pub open spec fn run(s: DispatchState, steps: Seq<Step>) -> DispatchState
    decreases steps.len(),
{
    if steps.len() == 0 {
        s
    } else {
        step(run(s, steps.drop_last()), steps.last())
    }
}

/// The state that a run of `count` requests under `ceiling` is in after
/// `steps`.
pub open spec fn reached(ceiling: nat, count: nat, steps: Seq<Step>) -> DispatchState {
    run(DispatchState::init(ceiling, count), steps)
}

/// Every task that completes in `steps` is classified as `outcome`.
pub open spec fn every_outcome_is(steps: Seq<Step>, outcome: Outcome) -> bool {
    forall|i: int|
        0 <= i < steps.len() ==> (#[trigger] steps[i] matches Step::Complete(result)
            ==> outcome_of(result) == outcome)
}

/// The steps that a run can still take before it is over: a launch for each
/// request not yet issued, a completion for each not yet recorded.
pub open spec fn steps_left(s: DispatchState) -> int {
    (s.count - s.issued) + (s.count - s.tally.total())
}

/// A step keeps the invariant, the ceiling and the total.
pub proof fn lemma_step_keeps_inv(s: DispatchState, e: Step)
    requires
        s.inv(),
    ensures
        step(s, e).inv(),
        step(s, e).gate.ceiling == s.gate.ceiling,
        step(s, e).count == s.count,
{
}

/// Every state of a run satisfies the invariant, under the ceiling and the
/// total that the run started with.
pub proof fn lemma_run_keeps_inv(ceiling: nat, count: nat, steps: Seq<Step>)
    ensures
        reached(ceiling, count, steps).inv(),
        reached(ceiling, count, steps).gate.ceiling == ceiling,
        reached(ceiling, count, steps).count == count,
    decreases steps.len(),
{
    if steps.len() > 0 {
        lemma_run_keeps_inv(ceiling, count, steps.drop_last());
        lemma_step_keeps_inv(reached(ceiling, count, steps.drop_last()), steps.last());
    }
}

/// After a completed run every request has been classified exactly once:
/// successes and failures add up to the number of requests asked for.
pub proof fn lemma_finished_run_counts_all(ceiling: nat, count: nat, steps: Seq<Step>)
    requires
        reached(ceiling, count, steps).finished(),
    ensures
        reached(ceiling, count, steps).tally.successes + reached(
            ceiling,
            count,
            steps,
        ).tally.failures == count,
{
    lemma_run_keeps_inv(ceiling, count, steps);
}

/// At every instant of a run the capacity of the admission gate lies between
/// zero and the ceiling, and the slots that are taken are exactly the
/// requests in flight: those issued and not yet completed.
pub proof fn lemma_gate_counts_in_flight(ceiling: nat, count: nat, steps: Seq<Step>)
    ensures
        0 <= reached(ceiling, count, steps).gate.capacity <= ceiling,
        ceiling - reached(ceiling, count, steps).gate.capacity == reached(
            ceiling,
            count,
            steps,
        ).in_flight(),
{
    lemma_run_keeps_inv(ceiling, count, steps);
}

/// The requests in flight never exceed the ceiling, whatever the total and
/// whatever the ceiling.
pub proof fn lemma_in_flight_within_ceiling(ceiling: nat, count: nat, steps: Seq<Step>)
    ensures
        0 <= reached(ceiling, count, steps).in_flight() <= ceiling,
{
    lemma_run_keeps_inv(ceiling, count, steps);
}

/// A run of no requests is over before it starts, with nothing counted, and
/// no step ever launches a request in it.
pub proof fn lemma_empty_run_reports_zero(ceiling: nat, steps: Seq<Step>)
    ensures
        DispatchState::init(ceiling, 0).action() == (Action::Report { successes: 0, failures: 0 }),
        reached(ceiling, 0, steps) == DispatchState::init(ceiling, 0),
        !reached(ceiling, 0, steps).can_launch(),
    decreases steps.len(),
{
    if steps.len() > 0 {
        lemma_empty_run_reports_zero(ceiling, steps.drop_last());
    }
}

/// With a ceiling of one the requests run one after the other: never are two
/// of them in flight together, and while one is, none is launched.
pub proof fn lemma_single_slot_serializes(count: nat, steps: Seq<Step>)
    ensures
        reached(1, count, steps).in_flight() <= 1,
        reached(1, count, steps).in_flight() == 1 ==> !reached(1, count, steps).can_launch(),
{
    lemma_run_keeps_inv(1, count, steps);
}

/// Where every completed task is classified alike, the other counter stays
/// at zero throughout the run.
pub proof fn lemma_uniform_outcomes(ceiling: nat, count: nat, steps: Seq<Step>, outcome: Outcome)
    requires
        every_outcome_is(steps, outcome),
    ensures
        outcome == Outcome::Failure ==> reached(ceiling, count, steps).tally.successes == 0,
        outcome == Outcome::Success ==> reached(ceiling, count, steps).tally.failures == 0,
    decreases steps.len(),
{
    if steps.len() > 0 {
        let front = steps.drop_last();
        assert forall|i: int| 0 <= i < front.len() implies (#[trigger] front[i] matches Step::Complete(
            result,
        ) ==> outcome_of(result) == outcome) by {
            assert(front[i] == steps[i]);
        }
        lemma_uniform_outcomes(ceiling, count, front, outcome);
        assert(steps.last() == steps[steps.len() - 1]);
    }
}

/// With a transport that always fails, a completed run of `count` requests
/// has counted `count` failures and no success.
pub proof fn lemma_all_failures(ceiling: nat, count: nat, steps: Seq<Step>)
    requires
        every_outcome_is(steps, Outcome::Failure),
        reached(ceiling, count, steps).finished(),
    ensures
        reached(ceiling, count, steps).tally.failures == count,
        reached(ceiling, count, steps).tally.successes == 0,
{
    lemma_uniform_outcomes(ceiling, count, steps, Outcome::Failure);
    lemma_finished_run_counts_all(ceiling, count, steps);
}

/// With a transport that always gets an answer, a completed run of `count`
/// requests has counted `count` successes and no failure.
pub proof fn lemma_all_successes(ceiling: nat, count: nat, steps: Seq<Step>)
    requires
        every_outcome_is(steps, Outcome::Success),
        reached(ceiling, count, steps).finished(),
    ensures
        reached(ceiling, count, steps).tally.successes == count,
        reached(ceiling, count, steps).tally.failures == 0,
{
    lemma_uniform_outcomes(ceiling, count, steps, Outcome::Success);
    lemma_finished_run_counts_all(ceiling, count, steps);
}

/// The drain monitor does not fire early: while a request is in flight, its
/// slot not yet given back, the admission gate is not drained and the run
/// does not report; and the admission gate is drained as soon as none is.
pub proof fn lemma_drain_waits_for_every_release(ceiling: nat, count: nat, steps: Seq<Step>)
    ensures
        reached(ceiling, count, steps).in_flight() > 0 ==> !reached(ceiling, count, steps).drained(),
        reached(ceiling, count, steps).in_flight() > 0 ==> !reached(ceiling, count, steps).finished(),
        reached(ceiling, count, steps).in_flight() > 0 ==> !(reached(
            ceiling,
            count,
            steps,
        ).action() is Report),
        reached(ceiling, count, steps).in_flight() == 0 ==> reached(ceiling, count, steps).drained(),
{
    lemma_run_keeps_inv(ceiling, count, steps);
}

/// A gate with at least one slot never brings a run to a halt: the run does
/// not abort, and whenever the driver is told to wait, a request is in
/// flight whose completion ends the wait.
pub proof fn lemma_never_stuck(ceiling: nat, count: nat, steps: Seq<Step>)
    requires
        ceiling >= 1,
    ensures
        !(reached(ceiling, count, steps).action() is Abort),
        reached(ceiling, count, steps).action() is AwaitRelease || reached(
            ceiling,
            count,
            steps,
        ).action() is Poll ==> reached(ceiling, count, steps).in_flight() > 0,
        reached(ceiling, count, steps).action() is Launch ==> reached(
            ceiling,
            count,
            steps,
        ).can_launch(),
{
    lemma_run_keeps_inv(ceiling, count, steps);
}

/// A gate without a slot lets nothing through: a run that has requests to
/// issue aborts, in whatever state it is.
pub proof fn lemma_no_slot_aborts(count: nat, steps: Seq<Step>)
    requires
        count >= 1,
    ensures
        reached(0, count, steps).action() is Abort,
        reached(0, count, steps) == DispatchState::init(0, count),
    decreases steps.len(),
{
    if steps.len() > 0 {
        lemma_no_slot_aborts(count, steps.drop_last());
    }
}

/// Every step that the driver is asked for brings the run nearer to its end:
/// a launch that is due, and a completion while a request is in flight, each
/// take one from the steps that are left, and a run with none left is over.
pub proof fn lemma_steps_run_out(s: DispatchState, result: TransportResult)
    requires
        s.inv(),
    ensures
        steps_left(s) >= 0,
        s.can_launch() ==> steps_left(s.launch()) == steps_left(s) - 1,
        s.in_flight() > 0 ==> steps_left(s.complete(result)) == steps_left(s) - 1,
        steps_left(s) == 0 <==> s.finished(),
{
}

} // verus!
