//! Admission control: a bound on the number of sessions alive at once.

use vstd::prelude::*;

verus! {

/// What the acceptor does with a new connection while no slot is free.
#[derive(Clone, Copy, Debug, PartialEq, Eq, Structural)]
pub enum AdmissionPolicy {
    /// Keep the connection and poll again after a short back-off.
    Wait,
    /// Close the connection at once.
    Reject,
}

/// The outcome of one admission attempt.
#[derive(Clone, Copy, Debug, PartialEq, Eq, Structural)]
pub enum Admission {
    /// A slot was taken; the session may start.
    Admitted,
    /// No slot is free; sleep briefly and try again.
    Backoff,
    /// No slot is free; drop the connection.
    Refused,
}

/// One operation on the admission counter, for reasoning about runs of them.
#[derive(Clone, Copy, Debug, PartialEq, Eq, Structural)]
pub enum GateOp {
    Admit,
    Release,
}

/// Live count after an admission attempt, and whether it succeeded.
pub open spec fn admit_next(live: nat, max: nat) -> (nat, bool) {
    if live < max {
        (live + 1, true)
    } else {
        (live, false)
    }
}

/// Live count after a release; releasing an empty gate changes nothing.
pub open spec fn release_next(live: nat) -> nat {
    if live > 0 {
        (live - 1) as nat
    } else {
        0
    }
}

/// Live count after one operation.
pub open spec fn gate_next(live: nat, max: nat, op: GateOp) -> nat {
    match op {
        GateOp::Admit => admit_next(live, max).0,
        GateOp::Release => release_next(live),
    }
}

/// Live count after a run of operations, applied front to back.
pub open spec fn gate_run(live: nat, max: nat, ops: Seq<GateOp>) -> nat
    decreases ops.len(),
{
    if ops.len() == 0 {
        live
    } else {
        gate_run(gate_next(live, max, ops[0]), max, ops.drop_first())
    }
}

/// The process-wide counter of live sessions, bounded by `max`.
pub struct SessionGate {
    live: usize,
    max: usize,
}

impl SessionGate {
    #[verifier::type_invariant]
    spec fn inv(self) -> bool {
        self.live <= self.max
    }

    /// Number of sessions currently holding a slot.
    pub closed spec fn live(&self) -> nat {
        self.live as nat
    }

    /// The most sessions that may hold a slot at once.
    pub closed spec fn limit(&self) -> nat {
        self.max as nat
    }

    /// An empty gate admitting at most `max` sessions.
    pub fn new(max: usize) -> (g: SessionGate)
        ensures
            g.live() == 0,
            g.limit() == max,
    {
        SessionGate { live: 0, max }
    }

    pub fn live_sessions(&self) -> (r: usize)
        ensures
            r == self.live(),
            self.live() <= self.limit(),
    {
        proof {
            use_type_invariant(self);
        }
        self.live
    }

    pub fn max_sessions(&self) -> (r: usize)
        ensures
            r == self.limit(),
    {
        self.max
    }

    /// Takes a slot if one is free; changes nothing otherwise.
    pub fn try_admit(&mut self) -> (admitted: bool)
        ensures
            (final(self).live(), admitted) == admit_next(old(self).live(), old(self).limit()),
            final(self).limit() == old(self).limit(),
            final(self).live() <= final(self).limit(),
    {
        proof {
            use_type_invariant(&*self);
        }
        if self.live < self.max {
            self.live = self.live + 1;
            true
        } else {
            false
        }
    }

    /// One admission attempt under `policy`: a full gate means back off
    /// under `Wait` and refuse under `Reject`.
    pub fn request_slot(&mut self, policy: AdmissionPolicy) -> (a: Admission)
        ensures
            (final(self).live(), a == Admission::Admitted) == admit_next(
                old(self).live(),
                old(self).limit(),
            ),
            final(self).limit() == old(self).limit(),
            final(self).live() <= final(self).limit(),
            a == Admission::Backoff <==> old(self).live() >= old(self).limit() && policy
                == AdmissionPolicy::Wait,
            a == Admission::Refused <==> old(self).live() >= old(self).limit() && policy
                == AdmissionPolicy::Reject,
    {
        if self.try_admit() {
            Admission::Admitted
        } else {
            match policy {
                AdmissionPolicy::Wait => Admission::Backoff,
                AdmissionPolicy::Reject => Admission::Refused,
            }
        }
    }

    /// Gives a slot back; on an empty gate it does nothing and returns false.
    pub fn release(&mut self) -> (freed: bool)
        ensures
            freed == (old(self).live() > 0),
            final(self).live() == release_next(old(self).live()),
            final(self).limit() == old(self).limit(),
            final(self).live() <= final(self).limit(),
    {
        proof {
            use_type_invariant(&*self);
        }
        if self.live > 0 {
            self.live = self.live - 1;
            true
        } else {
            false
        }
    }
}

/// Whatever admissions and releases happen, in whatever order, an admission counter that
/// starts within its limit never holds more than `max` sessions.
pub proof fn lemma_gate_never_exceeds(live: nat, max: nat, ops: Seq<GateOp>)
    requires
        live <= max,
    ensures
        gate_run(live, max, ops) <= max,
    decreases ops.len(),
{
    if ops.len() > 0 {
        lemma_gate_never_exceeds(gate_next(live, max, ops[0]), max, ops.drop_first());
    }
}

/// On a full gate an admission attempt is refused and changes nothing: the
/// attempt after `max` admissions does not get in.
pub proof fn lemma_full_gate_refuses(max: nat)
    ensures
        admit_next(max, max) == (max, false),
{
}

} // verus!
