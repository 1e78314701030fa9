//! A run played through from a list of results, without a network.

use crate::dispatch::{Action, Dispatcher};
use crate::history::steps_left;
use crate::outcome::{outcome_of, Outcome, TransportResult};
use vstd::prelude::*;

verus! {

/// How many of `results` are classified as `outcome`.
pub open spec fn occurrences(results: Seq<TransportResult>, outcome: Outcome) -> nat
    decreases results.len(),
{
    if results.len() == 0 {
        0
    } else {
        occurrences(results.drop_last(), outcome) + if outcome_of(results.last()) == outcome {
            1nat
        } else {
            0nat
        }
    }
}

/// Each result is classified one way or the other.
pub proof fn lemma_occurrences_add_up(results: Seq<TransportResult>)
    ensures
        occurrences(results, Outcome::Success) + occurrences(results, Outcome::Failure)
            == results.len(),
    decreases results.len(),
{
    if results.len() > 0 {
        lemma_occurrences_add_up(results.drop_last());
    }
}

/// Plays a whole run in one thread: one request for each entry of `results`,
/// at most `max_conn` of them in flight, the requests completing in the order
/// in which they were launched, the one launched as number `i` with
/// `results[i]`. The dispatcher launches while a slot is free and completes
/// the oldest request when it has to wait.
///
/// Returns the final tally, or `None` where the run aborts because the
/// admission gate has no slot.
pub fn replay(max_conn: usize, results: &Vec<TransportResult>) -> (tally: Option<(usize, usize)>)
    ensures
        tally is None <==> max_conn == 0 && results.len() > 0,
        tally matches Some(pair) ==> pair.0 == occurrences(results@, Outcome::Success),
        tally matches Some(pair) ==> pair.1 == occurrences(results@, Outcome::Failure),
        tally matches Some(pair) ==> pair.0 + pair.1 == results.len(),
{
    proof {
        lemma_occurrences_add_up(results@);
    }
    let mut dispatcher = Dispatcher::new(max_conn, results.len());
    let mut done: usize = 0;
    loop
        invariant
            dispatcher.wf(),
            dispatcher@.count == results.len(),
            dispatcher@.gate.ceiling == max_conn,
            done == dispatcher@.tally.total(),
            max_conn == 0 ==> dispatcher@.issued == 0,
            dispatcher@.tally.successes == occurrences(results@.take(done as int), Outcome::Success),
            dispatcher@.tally.failures == occurrences(results@.take(done as int), Outcome::Failure),
        decreases steps_left(dispatcher@),
    {
        match dispatcher.next_action() {
            Action::Launch { .. } => {
                dispatcher.launch();
            },
            Action::AwaitRelease | Action::Poll { .. } => {
                proof {
                    let next = results@.take(done + 1);
                    assert(next.drop_last() == results@.take(done as int));
                    assert(next.last() == results@[done as int]);
                }
                dispatcher.complete(results[done]);
                done = done + 1;
            },
            Action::Report { successes, failures } => {
                proof {
                    assert(results@.take(done as int) == results@);
                }
                return Some((successes, failures));
            },
            Action::Abort => {
                return None;
            },
        }
    }
}

} // verus!
