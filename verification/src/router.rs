//! The datagram session router: attributes each UDP datagram the stack
//! emits to the session carrying its identity, creating the session on the
//! first datagram and refreshing its activity clock on every later one.

use crate::config::Config;
use crate::dispatch::fresh_record;
use crate::flow::FlowIdentity;
use crate::registry::Registry;
use crate::session::SessionRecord;
use vstd::prelude::*;

verus! {

/// What the registry holds after one datagram with identity `id` arriving
/// at `now` is routed: the session's activity clock refreshed if it was
/// live, a fresh session otherwise.
pub open spec fn route_result(
    m: Map<FlowIdentity, SessionRecord>,
    id: FlowIdentity,
    now: u64,
    timeout_secs: u64,
) -> Map<FlowIdentity, SessionRecord> {
    if m.contains_key(id) {
        m.insert(id, m[id].touched(now))
    } else {
        m.insert(id, fresh_record(now, timeout_secs))
    }
}

/// Where one routed datagram goes.
#[derive(Clone, Copy, PartialEq, Eq, Structural, Debug)]
pub enum RouteOutcome {
    /// A session already carries this identity: forward the payload to its
    /// existing handler's inbound queue.
    DeliverToExisting,
    /// First datagram of its identity: a session was registered; spawn a
    /// handler bound to the identity and forward the payload to it.
    NewSession,
}

/// Routes one datagram with identity `id` arriving at `now`. A datagram of
/// a live session refreshes that session's activity clock and goes to the
/// existing handler; the first datagram of an identity registers a session
/// with the configured UDP idle timeout. Either way the registry afterwards
/// carries `id`, and no other entry moves.
pub fn route_datagram(reg: &mut Registry, cfg: &Config, id: FlowIdentity, now: u64) -> (r:
    RouteOutcome)
    requires
        old(reg).wf(),
    ensures
        final(reg)@ == route_result(old(reg)@, id, now, cfg.timeout_spec(id.protocol)),
        r == RouteOutcome::DeliverToExisting <==> old(reg)@.contains_key(id),
        final(reg).wf(),
{
    if reg.touch(id, now) {
        RouteOutcome::DeliverToExisting
    } else {
        let timeout_secs = cfg.timeout_for(id.protocol);
        let rec = SessionRecord { created_at: now, last_activity: now, timeout_secs };
        let inserted = reg.insert_if_absent(id, rec);
        proof {
            assert(inserted);
        }
        RouteOutcome::NewSession
    }
}

/// A session's timestamp is refreshed when its handler sends a datagram
/// out, just as when one arrives: the send path reuses the activity clock.
pub fn note_datagram_sent(reg: &mut Registry, id: FlowIdentity, now: u64) -> (r: bool)
    requires
        old(reg).wf(),
    ensures
        final(reg).wf(),
        r == old(reg)@.contains_key(id),
        r ==> final(reg)@ == old(reg)@.insert(id, old(reg)@[id].touched(now)),
        !r ==> final(reg)@ == old(reg)@,
{
    reg.touch(id, now)
}

/// Of all datagrams sharing one identity, only the first creates a session:
/// every later one is delivered to the same live session, whose entry keeps
/// its creation time and only moves its activity clock; no second session
/// appears.
pub proof fn lemma_route_single_session(
    m: Map<FlowIdentity, SessionRecord>,
    id: FlowIdentity,
    now1: u64,
    now2: u64,
    timeout_secs: u64,
)
    requires
        !m.contains_key(id),
    ensures
        route_result(m, id, now1, timeout_secs).contains_key(id),
        route_result(route_result(m, id, now1, timeout_secs), id, now2, timeout_secs).dom()
            =~= route_result(m, id, now1, timeout_secs).dom(),
        route_result(route_result(m, id, now1, timeout_secs), id, now2, timeout_secs)[id]
            == fresh_record(now1, timeout_secs).touched(now2),
        route_result(route_result(m, id, now1, timeout_secs), id, now2, timeout_secs)[id].created_at
            == now1,
        forall|k: FlowIdentity|
            k != id ==> route_result(
                route_result(m, id, now1, timeout_secs),
                id,
                now2,
                timeout_secs,
            ).contains_key(k) == m.contains_key(k),
{
    let m1 = route_result(m, id, now1, timeout_secs);
    assert(m1.dom() =~= m.dom().insert(id));
    let m2 = route_result(m1, id, now2, timeout_secs);
    assert(m2.dom() =~= m1.dom());
}

} // verus!
