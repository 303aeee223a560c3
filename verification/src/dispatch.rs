//! The connection dispatcher: registers each TCP connection the stack
//! accepts, and rejects a duplicate identity without touching the live
//! session it collides with.

use crate::config::Config;
use crate::flow::FlowIdentity;
use crate::registry::Registry;
use crate::session::SessionRecord;
use vstd::prelude::*;

verus! {

/// A session's record at the moment it is created: both clocks at `now`,
/// the idle timeout its protocol is configured with.
pub open spec fn fresh_record(now: u64, timeout_secs: u64) -> SessionRecord {
    SessionRecord { created_at: now, last_activity: now, timeout_secs }
}

/// What the registry holds after one accepted connection is offered to it.
pub open spec fn accept_result(
    m: Map<FlowIdentity, SessionRecord>,
    id: FlowIdentity,
    rec: SessionRecord,
) -> Map<FlowIdentity, SessionRecord> {
    if m.contains_key(id) {
        m
    } else {
        m.insert(id, rec)
    }
}

/// Outcome of offering one accepted TCP connection to the dispatcher.
#[derive(Clone, Copy, PartialEq, Eq, Structural, Debug)]
pub enum AcceptOutcome {
    /// The identity was fresh: a session was registered; spawn its handler
    /// and hand it the stream.
    Registered,
    /// A live session already carries this identity: a protocol-consistency
    /// fault. Close the new connection; the original session is untouched.
    DuplicateRejected,
}

/// Offers one accepted TCP connection, arriving at `now` under `id`, to the
/// registry. A fresh identity is registered with the configured TCP idle
/// timeout; a duplicate is rejected and the registry — the original session
/// included — is left exactly as it was.
pub fn accept_connection(reg: &mut Registry, cfg: &Config, id: FlowIdentity, now: u64) -> (r:
    AcceptOutcome)
    requires
        old(reg).wf(),
    ensures
        final(reg).wf(),
        final(reg)@ == accept_result(
            old(reg)@,
            id,
            fresh_record(now, cfg.timeout_spec(id.protocol)),
        ),
        r == AcceptOutcome::Registered <==> !old(reg)@.contains_key(id),
        old(reg)@.contains_key(id) ==> final(reg)@ == old(reg)@,
{
    let timeout_secs = cfg.timeout_for(id.protocol);
    let rec = SessionRecord { created_at: now, last_activity: now, timeout_secs };
    if reg.insert_if_absent(id, rec) {
        AcceptOutcome::Registered
    } else {
        AcceptOutcome::DuplicateRejected
    }
}

/// Each accepted connection with a fresh identity yields exactly one
/// registry entry — its own, freshly created — and a later duplicate accept
/// of the same identity is rejected without affecting it.
pub proof fn lemma_accept_exactly_once(
    m: Map<FlowIdentity, SessionRecord>,
    id: FlowIdentity,
    rec: SessionRecord,
    rec2: SessionRecord,
)
    requires
        !m.contains_key(id),
    ensures
        accept_result(m, id, rec).contains_key(id),
        accept_result(m, id, rec)[id] == rec,
        accept_result(m, id, rec).dom() =~= m.dom().insert(id),
        accept_result(accept_result(m, id, rec), id, rec2) == accept_result(m, id, rec),
        accept_result(accept_result(m, id, rec), id, rec2)[id] == rec,
{
}

} // verus!
