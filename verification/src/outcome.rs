//! Outcomes of single requests and their tally.

use vstd::prelude::*;

verus! {

/// What one outbound call came to, as the transport reported it.
#[derive(Clone, Copy, Debug, PartialEq, Eq, Structural)]
pub enum TransportResult {
    /// The server answered; `status` is the HTTP status code of the answer.
    Response { status: u16 },
    /// No answer was received: connection refused, timeout, name not resolved.
    Failed,
}

/// The classification of one completed request.
#[derive(Clone, Copy, Debug, PartialEq, Eq, Structural)]
pub enum Outcome {
    Success,
    Failure,
}

/// The classification policy: every answer is a success, whatever its status
/// code; only a call that got no answer is a failure.
pub open spec fn outcome_of(result: TransportResult) -> Outcome {
    match result {
        TransportResult::Response { .. } => Outcome::Success,
        TransportResult::Failed => Outcome::Failure,
    }
}

/// Classifies the result of one call.
pub fn classify(result: TransportResult) -> (outcome: Outcome)
    ensures
        outcome == outcome_of(result),
{
    match result {
        TransportResult::Response { .. } => Outcome::Success,
        TransportResult::Failed => Outcome::Failure,
    }
}

/// The two counters as mathematical values.
pub struct Tally {
    pub successes: nat,
    pub failures: nat,
}

impl Tally {
    /// Nothing recorded yet.
    pub open spec fn zero() -> Tally {
        Tally { successes: 0, failures: 0 }
    }

    /// The number of outcomes recorded so far.
    pub open spec fn total(self) -> nat {
        self.successes + self.failures
    }

    /// One more outcome: exactly one of the two counters grows, by exactly one.
    pub open spec fn record(self, outcome: Outcome) -> Tally {
        match outcome {
            Outcome::Success => Tally { successes: self.successes + 1, ..self },
            Outcome::Failure => Tally { failures: self.failures + 1, ..self },
        }
    }
}

/// The tally of successes and failures of a run.
///
/// The counter is handed to whoever records an outcome; exclusive access
/// (`&mut`) is what makes each increment atomic.
pub struct OutcomeCounter {
    successes: usize,
    failures: usize,
}

impl View for OutcomeCounter {
    type V = Tally;

    closed spec fn view(&self) -> Tally {
        Tally { successes: self.successes as nat, failures: self.failures as nat }
    }
}

impl OutcomeCounter {
    /// A counter that has recorded nothing.
    pub fn new() -> (counter: OutcomeCounter)
        ensures
            counter@ == Tally::zero(),
    {
        OutcomeCounter { successes: 0, failures: 0 }
    }

    /// Counts one success.
    pub fn record_success(&mut self)
        requires
            old(self)@.successes < usize::MAX,
        ensures
            final(self)@ == old(self)@.record(Outcome::Success),
    {
        self.successes = self.successes + 1;
    }

    /// Counts one failure.
    pub fn record_failure(&mut self)
        requires
            old(self)@.failures < usize::MAX,
        ensures
            final(self)@ == old(self)@.record(Outcome::Failure),
    {
        self.failures = self.failures + 1;
    }

    /// Counts one outcome on the counter it belongs to.
    pub fn record(&mut self, outcome: Outcome)
        requires
            outcome == Outcome::Success ==> old(self)@.successes < usize::MAX,
            outcome == Outcome::Failure ==> old(self)@.failures < usize::MAX,
        ensures
            final(self)@ == old(self)@.record(outcome),
    {
        match outcome {
            Outcome::Success => self.record_success(),
            Outcome::Failure => self.record_failure(),
        }
    }

    /// The successes counted so far.
    pub fn successes(&self) -> (n: usize)
        ensures
            n == self@.successes,
    {
        self.successes
    }

    /// The failures counted so far.
    pub fn failures(&self) -> (n: usize)
        ensures
            n == self@.failures,
    {
        self.failures
    }

    /// The current pair of successes and failures.
    pub fn snapshot(&self) -> (pair: (usize, usize))
        ensures
            pair.0 == self@.successes,
            pair.1 == self@.failures,
    {
        (self.successes, self.failures)
    }
}

} // verus!
