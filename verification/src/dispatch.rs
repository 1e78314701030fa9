//! The dispatcher: the decisions of one load run.
//!
//! A run is a state machine. The driver asks [`Dispatcher::next_action`] what
//! to do, does it (starts a request, waits, sleeps, prints), and reports back
//! with [`Dispatcher::launch`] and [`Dispatcher::complete`]. The network, the
//! scheduler and the clock stay with the driver; every decision is taken here.

use crate::gate::{AdmissionGate, GateState};
use crate::history::{reached, Step};
use crate::outcome::{classify, outcome_of, OutcomeCounter, Tally, TransportResult};
use vstd::prelude::*;

verus! {

/// The pause between two looks of the drain monitor, in milliseconds.
pub const POLL_INTERVAL_MILLIS: u64 = 200;

/// What the driver of a run has to do next.
#[derive(Clone, Copy, Debug, PartialEq, Eq, Structural)]
pub enum Action {
    /// A slot is free and requests remain: call `launch` and start request
    /// number `index` as a task of its own, without waiting for it.
    Launch { index: usize },
    /// Requests remain but the admission gate is saturated: suspend the
    /// dispatch loop, and only it, until a task in flight has completed.
    AwaitRelease,
    /// Every request was issued and some are still in flight: look again
    /// after `interval_millis`.
    Poll { interval_millis: u64 },
    /// Every request was issued and every slot is free again: the run is
    /// over, with this tally.
    Report { successes: usize, failures: usize },
    /// Requests remain and the admission gate has no slot at all, held or
    /// free: it will never let a request through, and the run cannot go on.
    Abort,
}

/// One load run as a mathematical value.
pub struct DispatchState {
    /// The requests that the run has to issue in all.
    pub count: nat,
    /// The requests that were let through the admission gate so far.
    pub issued: nat,
    /// The admission gate.
    pub gate: GateState,
    /// The outcomes recorded so far.
    pub tally: Tally,
}

impl DispatchState {
    /// The start of a run: nothing issued, every slot free, nothing recorded.
    pub open spec fn init(ceiling: nat, count: nat) -> DispatchState {
        DispatchState { count, issued: 0, gate: GateState::fresh(ceiling), tally: Tally::zero() }
    }

    /// The requests that were issued and have not completed yet.
    pub open spec fn in_flight(self) -> int {
        self.issued - self.tally.total()
    }

    /// What holds in every state of a run: the admission gate stays within
    /// its bounds, no more is issued than was asked for, and the slots that
    /// are held are exactly the requests in flight.
    pub open spec fn inv(self) -> bool {
        &&& self.gate.inv()
        &&& self.issued <= self.count
        &&& self.gate.in_flight() == self.in_flight()
    }

    /// A request remains and a slot is free for it.
    pub open spec fn can_launch(self) -> bool {
        self.issued < self.count && self.gate.has_room()
    }

    /// The next request takes a slot and counts as issued; where none can be
    /// launched the state stays as it is.
    pub open spec fn launch(self) -> DispatchState {
        if self.can_launch() {
            DispatchState { issued: self.issued + 1, gate: self.gate.acquire(), ..self }
        } else {
            self
        }
    }

    /// A request in flight ends with `result`: its outcome is recorded, then
    /// its slot is given back, whatever the outcome was. With nothing in
    /// flight the state stays as it is.
    pub open spec fn complete(self, result: TransportResult) -> DispatchState {
        if self.gate.in_flight() > 0 {
            DispatchState {
                gate: self.gate.release(),
                tally: self.tally.record(outcome_of(result)),
                ..self
            }
        } else {
            self
        }
    }

    /// The drain monitor's signal: the full capacity of the admission gate
    /// is idle.
    pub open spec fn drained(self) -> bool {
        self.gate.idle()
    }

    /// The run is over: every request was issued and the admission gate has
    /// drained.
    pub open spec fn finished(self) -> bool {
        self.issued == self.count && self.drained()
    }

    /// The decision table of the run.
    pub open spec fn action(self) -> Action {
        if self.issued < self.count {
            if self.gate.has_room() {
                Action::Launch { index: self.issued as usize }
            } else if self.gate.in_flight() > 0 {
                Action::AwaitRelease
            } else {
                Action::Abort
            }
        } else if !self.drained() {
            Action::Poll { interval_millis: POLL_INTERVAL_MILLIS }
        } else {
            Action::Report {
                successes: self.tally.successes as usize,
                failures: self.tally.failures as usize,
            }
        }
    }
}

/// The state of one load run: how many requests it has to issue, how many it
/// has issued, the admission gate and the outcome counter.
pub struct Dispatcher {
    count: usize,
    issued: usize,
    gate: AdmissionGate,
    counter: OutcomeCounter,
    steps: Ghost<Seq<Step>>,
}

impl View for Dispatcher {
    type V = DispatchState;

    closed spec fn view(&self) -> DispatchState {
        DispatchState {
            count: self.count as nat,
            issued: self.issued as nat,
            gate: self.gate@,
            tally: self.counter@,
        }
    }
}

impl Dispatcher {
    /// The steps that were taken on this dispatcher since it was made, in
    /// their order: one for each call of `launch` and of `complete`.
    pub closed spec fn history(&self) -> Seq<Step> {
        self.steps@
    }

    /// Well-formedness: the state is the one that the steps taken so far
    /// lead to, from the start of a run with this ceiling and this total; so
    /// the invariant of the run holds. And the total fits the machine's
    /// integers.
    pub open spec fn wf(&self) -> bool {
        &&& self@ == reached(self@.gate.ceiling, self@.count, self.history())
        &&& self@.inv()
        &&& self@.count <= usize::MAX
    }

    /// A run of `count` requests with at most `max_conn` of them in flight.
    pub fn new(max_conn: usize, count: usize) -> (d: Dispatcher)
        ensures
            d.wf(),
            d@ == DispatchState::init(max_conn as nat, count as nat),
            d.history() == Seq::<Step>::empty(),
    {
        Dispatcher {
            count,
            issued: 0,
            gate: AdmissionGate::new(max_conn),
            counter: OutcomeCounter::new(),
            steps: Ghost(Seq::empty()),
        }
    }

    /// The requests that the run has to issue in all.
    pub fn count(&self) -> (n: usize)
        ensures
            n == self@.count,
    {
        self.count
    }

    /// The requests issued so far.
    pub fn issued(&self) -> (n: usize)
        ensures
            n == self@.issued,
    {
        self.issued
    }

    /// The concurrency ceiling of the run.
    pub fn max_conn(&self) -> (n: usize)
        ensures
            n == self@.gate.ceiling,
    {
        self.gate.ceiling()
    }

    /// The slots of the admission gate that are free now.
    pub fn available(&self) -> (n: usize)
        ensures
            n == self@.gate.capacity,
    {
        self.gate.available()
    }

    /// The requests in flight now.
    pub fn in_flight(&self) -> (n: usize)
        requires
            self.wf(),
        ensures
            n == self@.in_flight(),
            n <= self@.gate.ceiling,
    {
        self.gate.in_flight()
    }

    /// The outcomes recorded so far, as successes and failures.
    pub fn snapshot(&self) -> (pair: (usize, usize))
        ensures
            pair.0 == self@.tally.successes,
            pair.1 == self@.tally.failures,
    {
        self.counter.snapshot()
    }

    /// What the driver has to do next.
    pub fn next_action(&self) -> (action: Action)
        requires
            self.wf(),
        ensures
            action == self@.action(),
    {
        if self.issued < self.count {
            if self.gate.available() > 0 {
                Action::Launch { index: self.issued }
            } else if self.gate.in_flight() > 0 {
                Action::AwaitRelease
            } else {
                Action::Abort
            }
        } else if !self.gate.is_idle() {
            Action::Poll { interval_millis: POLL_INTERVAL_MILLIS }
        } else {
            Action::Report { successes: self.counter.successes(), failures: self.counter.failures() }
        }
    }

    /// The dispatcher's step: takes a slot for the next request, if one
    /// remains and a slot is free, and returns the number of that request.
    /// Requests are numbered from zero in the order in which they pass the
    /// admission gate.
    pub fn launch(&mut self) -> (index: Option<usize>)
        requires
            old(self).wf(),
        ensures
            final(self).wf(),
            final(self)@ == old(self)@.launch(),
            final(self).history() == old(self).history().push(Step::Launch),
            index is Some <==> old(self)@.can_launch(),
            index is Some ==> index->0 == old(self)@.issued,
    {
        proof {
            assert(self.steps@.push(Step::Launch).drop_last() =~= self.steps@);
        }
        self.steps = Ghost(self.steps@.push(Step::Launch));
        if self.issued < self.count {
            if self.gate.try_acquire() {
                let index = self.issued;
                self.issued = self.issued + 1;
                return Some(index);
            }
        }
        None
    }

    /// The end of a request task: classifies `result`, records the outcome,
    /// and gives the task's slot back. Returns whether a request was in
    /// flight to be completed.
    pub fn complete(&mut self, result: TransportResult) -> (released: bool)
        requires
            old(self).wf(),
        ensures
            final(self).wf(),
            final(self)@ == old(self)@.complete(result),
            final(self).history() == old(self).history().push(Step::Complete(result)),
            released == (old(self)@.in_flight() > 0),
    {
        proof {
            assert(self.steps@.push(Step::Complete(result)).drop_last() =~= self.steps@);
        }
        self.steps = Ghost(self.steps@.push(Step::Complete(result)));
        if self.gate.in_flight() > 0 {
            self.counter.record(classify(result));
            self.gate.release();
            true
        } else {
            false
        }
    }

    /// The drain monitor's look at the admission gate: whether every slot
    /// is free.
    pub fn is_drained(&self) -> (drained: bool)
        requires
            self.wf(),
        ensures
            drained == self@.drained(),
            drained <==> self@.in_flight() == 0,
    {
        self.gate.is_idle()
    }

    /// The final tally, once the run is over.
    pub fn report(&self) -> (tally: Option<(usize, usize)>)
        requires
            self.wf(),
        ensures
            tally is Some <==> self@.finished(),
            tally matches Some(pair) ==> pair.0 == self@.tally.successes,
            tally matches Some(pair) ==> pair.1 == self@.tally.failures,
            tally matches Some(pair) ==> pair.0 + pair.1 == self@.count,
    {
        if self.issued == self.count && self.gate.is_idle() {
            Some(self.counter.snapshot())
        } else {
            None
        }
    }
}

} // verus!
