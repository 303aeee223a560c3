//! Session metadata and the per-session lifecycle state machine.
//!
//! The registry holds only this non-owning record per flow; the data-transfer
//! handle itself stays with the handler task that owns it.

use vstd::prelude::*;

verus! {

/// What the registry tracks for one live flow: when it was created, when it
/// was last active, and the idle timeout its protocol is configured with.
#[derive(Clone, Copy, PartialEq, Eq, Structural, Debug)]
pub struct SessionRecord {
    pub created_at: u64,
    pub last_activity: u64,
    pub timeout_secs: u64,
}

impl SessionRecord {
    /// A session is expired when its last activity lies further in the past
    /// than its configured idle timeout.
    pub open spec fn expired(self, now: u64) -> bool {
        now - self.last_activity > self.timeout_secs
    }

    /// The same record with its activity clock reset to `now`.
    pub open spec fn touched(self, now: u64) -> SessionRecord {
        SessionRecord { last_activity: now, ..self }
    }

    /// Decides whether this session has been idle past its timeout at `now`.
    pub fn is_expired(&self, now: u64) -> (r: bool)
        ensures
            r == self.expired(now),
    {
        now > self.last_activity && now - self.last_activity > self.timeout_secs
    }
}

/// Lifecycle of one session. `Closed`, `Evicted` and `Aborted` are terminal;
/// all three converge on removal of the registry entry.
#[derive(Clone, Copy, PartialEq, Eq, Structural, Debug)]
pub enum SessionState {
    Created,
    Active,
    Closed,
    Evicted,
    Aborted,
}

/// Events that drive a session's lifecycle.
#[derive(Clone, Copy, PartialEq, Eq, Structural, Debug)]
pub enum SessionEvent {
    Activity,
    HandlerFinished,
    IdleTimeout,
    FatalError,
}

/// Whether a state accepts no further transitions.
pub open spec fn is_terminal(s: SessionState) -> bool {
    s == SessionState::Closed || s == SessionState::Evicted || s == SessionState::Aborted
}

/// The session lifecycle transition: activity keeps a session live, a
/// finished handler closes it, an idle timeout evicts it, a fatal fault
/// aborts it, and a terminal state never changes again.
pub open spec fn session_step_spec(s: SessionState, e: SessionEvent) -> SessionState {
    if is_terminal(s) {
        s
    } else {
        match e {
            SessionEvent::Activity => SessionState::Active,
            SessionEvent::HandlerFinished => SessionState::Closed,
            SessionEvent::IdleTimeout => SessionState::Evicted,
            SessionEvent::FatalError => SessionState::Aborted,
        }
    }
}

/// Applies one lifecycle event to a session state. A terminal state is
/// returned unchanged: there is no resurrection.
pub fn session_step(s: SessionState, e: SessionEvent) -> (r: SessionState)
    ensures
        r == session_step_spec(s, e),
        is_terminal(s) ==> r == s,
{
    match s {
        SessionState::Closed => s,
        SessionState::Evicted => s,
        SessionState::Aborted => s,
        _ => match e {
            SessionEvent::Activity => SessionState::Active,
            SessionEvent::HandlerFinished => SessionState::Closed,
            SessionEvent::IdleTimeout => SessionState::Evicted,
            SessionEvent::FatalError => SessionState::Aborted,
        },
    }
}

} // verus!
