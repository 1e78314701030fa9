//! The admission gate: a counting semaphore over plain integers.

use vstd::prelude::*;

verus! {

/// The admission gate as a mathematical value: its fixed ceiling and the
/// slots that are free at the moment.
pub struct GateState {
    pub ceiling: nat,
    pub capacity: nat,
}

impl GateState {
    /// A fresh gate: every slot is free.
    pub open spec fn fresh(ceiling: nat) -> GateState {
        GateState { ceiling, capacity: ceiling }
    }

    /// The capacity never leaves the range from zero to the ceiling.
    pub open spec fn inv(self) -> bool {
        self.capacity <= self.ceiling
    }

    /// The slots that were acquired and not yet released.
    pub open spec fn in_flight(self) -> nat {
        (self.ceiling - self.capacity) as nat
    }

    /// At least one slot is free.
    pub open spec fn has_room(self) -> bool {
        self.capacity > 0
    }

    /// No slot is held: the full capacity is idle again.
    pub open spec fn idle(self) -> bool {
        self.capacity == self.ceiling
    }

    /// Taking one slot; a saturated gate stays as it is.
    pub open spec fn acquire(self) -> GateState {
        if self.has_room() {
            GateState { capacity: (self.capacity - 1) as nat, ..self }
        } else {
            self
        }
    }

    /// Giving one slot back; an idle gate stays as it is, so the capacity
    /// never exceeds the ceiling.
    pub open spec fn release(self) -> GateState {
        if self.capacity < self.ceiling {
            GateState { capacity: self.capacity + 1, ..self }
        } else {
            self
        }
    }
}

/// A counting semaphore that bounds the work in flight to a fixed ceiling.
///
/// The admission gate does not suspend anybody: `try_acquire` says whether a
/// slot was free, and the caller waits for a release when it was not.
pub struct AdmissionGate {
    ceiling: usize,
    capacity: usize,
}

impl View for AdmissionGate {
    type V = GateState;

    closed spec fn view(&self) -> GateState {
        GateState { ceiling: self.ceiling as nat, capacity: self.capacity as nat }
    }
}

impl AdmissionGate {
    #[verifier::type_invariant]
    spec fn well_formed(self) -> bool {
        self.capacity <= self.ceiling
    }

    /// A gate with `ceiling` slots, all of them free.
    pub fn new(ceiling: usize) -> (gate: AdmissionGate)
        ensures
            gate@ == GateState::fresh(ceiling as nat),
    {
        AdmissionGate { ceiling, capacity: ceiling }
    }

    /// The fixed ceiling.
    pub fn ceiling(&self) -> (n: usize)
        ensures
            n == self@.ceiling,
            self@.inv(),
    {
        proof {
            use_type_invariant(self);
        }
        self.ceiling
    }

    /// The slots that are free now.
    pub fn available(&self) -> (n: usize)
        ensures
            n == self@.capacity,
            self@.inv(),
    {
        proof {
            use_type_invariant(self);
        }
        self.capacity
    }

    /// The slots that are held now.
    pub fn in_flight(&self) -> (n: usize)
        ensures
            n == self@.in_flight(),
            n <= self@.ceiling,
            self@.inv(),
    {
        proof {
            use_type_invariant(self);
        }
        self.ceiling - self.capacity
    }

    /// Whether every slot is free.
    pub fn is_idle(&self) -> (idle: bool)
        ensures
            idle == self@.idle(),
            idle <==> self@.in_flight() == 0,
            self@.inv(),
    {
        proof {
            use_type_invariant(self);
        }
        self.capacity == self.ceiling
    }

    /// Takes one slot if one is free, and says whether it did.
    pub fn try_acquire(&mut self) -> (acquired: bool)
        ensures
            acquired == old(self)@.has_room(),
            final(self)@ == old(self)@.acquire(),
            final(self)@.inv(),
    {
        proof {
            use_type_invariant(&*self);
        }
        if self.capacity > 0 {
            self.capacity = self.capacity - 1;
            true
        } else {
            false
        }
    }

    /// Gives one slot back if one is held, and says whether it did.
    pub fn release(&mut self) -> (released: bool)
        ensures
            released == (old(self)@.in_flight() > 0),
            final(self)@ == old(self)@.release(),
            final(self)@.inv(),
    {
        proof {
            use_type_invariant(&*self);
        }
        if self.capacity < self.ceiling {
            self.capacity = self.capacity + 1;
            true
        } else {
            false
        }
    }
}

} // verus!
