//! The lifecycle of one session: open the primary, then the shadow, relay,
//! and tear everything down exactly once.
//!
//! A session is created once admission control has let in its client, so it starts
//! out holding a admission slot. The single exit path is [`SessionAction::Teardown`]:
//! close every connection of the session and release the slot.

use vstd::prelude::*;
use crate::pump::EndReason;

verus! {

/// Where a session stands.
#[derive(Clone, Copy, Debug, PartialEq, Eq, Structural)]
pub enum Phase {
    ConnectingPrimary,
    ConnectingShadow,
    Relaying,
    Closed,
}

/// What happened to a session.
#[derive(Clone, Copy, Debug, PartialEq, Eq, Structural)]
pub enum SessionEvent {
    PrimaryConnected,
    PrimaryFailed,
    ShadowConnected,
    ShadowFailed,
    /// One of the three directions stopped.
    LegEnded(EndReason),
}

/// What the caller does next.
#[derive(Clone, Copy, Debug, PartialEq, Eq, Structural)]
pub enum SessionAction {
    /// Open the connection to the shadow backend.
    ConnectShadow,
    /// Both backends are up: set the timeouts, start the two reply pumps and
    /// run the client-to-backends pump.
    StartRelay,
    /// Close every open connection of the session and release its admission slot.
    Teardown,
    /// The session is already closed.
    Nothing,
}

/// A session's state.
#[derive(Clone, Copy, Debug)]
pub struct Session {
    pub phase: Phase,
}

/// A session just admitted: it holds a slot and opens the primary first.
pub open spec fn fresh_session() -> Session {
    Session { phase: Phase::ConnectingPrimary }
}

/// Whether the session still holds its admission slot.
pub open spec fn holds_slot(s: Session) -> bool {
    s.phase != Phase::Closed
}

/// One event: the next state and the action to perform. Only the expected
/// success moves a session forward; any other event on an open session
/// tears it down. A closed session ignores everything.
pub open spec fn session_next(s: Session, ev: SessionEvent) -> (Session, SessionAction) {
    if s.phase == Phase::Closed {
        (s, SessionAction::Nothing)
    } else if s.phase == Phase::ConnectingPrimary && ev == SessionEvent::PrimaryConnected {
        (Session { phase: Phase::ConnectingShadow }, SessionAction::ConnectShadow)
    } else if s.phase == Phase::ConnectingShadow && ev == SessionEvent::ShadowConnected {
        (Session { phase: Phase::Relaying }, SessionAction::StartRelay)
    } else {
        (Session { phase: Phase::Closed }, SessionAction::Teardown)
    }
}

/// The session after a run of events.
pub open spec fn session_after(s: Session, evs: Seq<SessionEvent>) -> Session
    decreases evs.len(),
{
    if evs.len() == 0 {
        s
    } else {
        session_after(session_next(s, evs[0]).0, evs.drop_first())
    }
}

/// How many times a run of events asks for a teardown.
pub open spec fn teardowns(s: Session, evs: Seq<SessionEvent>) -> nat
    decreases evs.len(),
{
    if evs.len() == 0 {
        0
    } else {
        let (t, a) = session_next(s, evs[0]);
        (if a == SessionAction::Teardown {
            1nat
        } else {
            0nat
        }) + teardowns(t, evs.drop_first())
    }
}

/// Whether a run of events ever asks for the shadow connection.
pub open spec fn contacts_shadow(s: Session, evs: Seq<SessionEvent>) -> bool
    decreases evs.len(),
{
    if evs.len() == 0 {
        false
    } else {
        let (t, a) = session_next(s, evs[0]);
        a == SessionAction::ConnectShadow || contacts_shadow(t, evs.drop_first())
    }
}

impl Session {
    /// A session for a client admission control has just let in.
    pub fn new() -> (s: Session)
        ensures
            s == fresh_session(),
    {
        Session { phase: Phase::ConnectingPrimary }
    }

    /// Takes one event and says what to do.
    pub fn on_event(&mut self, ev: SessionEvent) -> (a: SessionAction)
        ensures
            (*final(self), a) == session_next(*old(self), ev),
    {
        match self.phase {
            Phase::Closed => SessionAction::Nothing,
            Phase::ConnectingPrimary if ev == SessionEvent::PrimaryConnected => {
                self.phase = Phase::ConnectingShadow;
                SessionAction::ConnectShadow
            },
            Phase::ConnectingShadow if ev == SessionEvent::ShadowConnected => {
                self.phase = Phase::Relaying;
                SessionAction::StartRelay
            },
            _ => {
                self.phase = Phase::Closed;
                SessionAction::Teardown
            },
        }
    }

    /// Whether the session still holds its admission slot.
    pub fn is_open(&self) -> (r: bool)
        ensures
            r == holds_slot(*self),
    {
        self.phase != Phase::Closed
    }
}

/// A closed session stays closed and asks for nothing more.
pub proof fn lemma_closed_is_final(s: Session, evs: Seq<SessionEvent>)
    requires
        s.phase == Phase::Closed,
    ensures
        session_after(s, evs) == s,
        teardowns(s, evs) == 0,
        !contacts_shadow(s, evs),
    decreases evs.len(),
{
    if evs.len() > 0 {
        lemma_closed_is_final(s, evs.drop_first());
    }
}

/// Whatever happens to a session, its slot is released exactly once if it
/// has ended and not at all while it is still open.
pub proof fn lemma_released_once(s: Session, evs: Seq<SessionEvent>)
    ensures
        teardowns(s, evs) == if holds_slot(s) && !holds_slot(session_after(s, evs)) {
            1nat
        } else {
            0nat
        },
    decreases evs.len(),
{
    if evs.len() > 0 {
        let t = session_next(s, evs[0]).0;
        lemma_released_once(t, evs.drop_first());
        if t.phase == Phase::Closed {
            lemma_closed_is_final(t, evs.drop_first());
        }
    }
}

/// When the primary refuses the connection, the session closes at once and
/// gives its slot back, and the shadow is never contacted, whatever follows.
pub proof fn lemma_primary_refused(evs: Seq<SessionEvent>)
    requires
        evs.len() > 0,
        evs[0] == SessionEvent::PrimaryFailed,
    ensures
        session_next(fresh_session(), evs[0]) == (
            Session { phase: Phase::Closed },
            SessionAction::Teardown,
        ),
        !holds_slot(session_after(fresh_session(), evs)),
        teardowns(fresh_session(), evs) == 1,
        !contacts_shadow(fresh_session(), evs),
{
    lemma_closed_is_final(Session { phase: Phase::Closed }, evs.drop_first());
}

/// When any direction of a running session stops (end of stream, idle
/// limit, an I/O error), the session tears down and gives its slot back.
pub proof fn lemma_leg_end_releases(s: Session, why: EndReason)
    requires
        s.phase == Phase::Relaying,
    ensures
        session_next(s, SessionEvent::LegEnded(why)).1 == SessionAction::Teardown,
        !holds_slot(session_next(s, SessionEvent::LegEnded(why)).0),
{
}

} // verus!
