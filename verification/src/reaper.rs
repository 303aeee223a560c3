//! The reaper's view of the registry: which sessions a scan at a given tick
//! evicts, what the registry holds afterwards, and why repeated scans are
//! harmless.

use crate::flow::FlowIdentity;
use crate::session::SessionRecord;
use vstd::prelude::*;

verus! {

/// What the registry holds after a reaper scan at `now`: every session not
/// idle past its timeout, unchanged; nothing else.
pub open spec fn reap_map(m: Map<FlowIdentity, SessionRecord>, now: u64) -> Map<
    FlowIdentity,
    SessionRecord,
> {
    Map::new(|k: FlowIdentity| m.contains_key(k) && !m[k].expired(now), |k: FlowIdentity| m[k])
}

/// The sessions a reaper scan at `now` evicts: exactly those idle past
/// their configured timeout.
pub open spec fn expired_set(m: Map<FlowIdentity, SessionRecord>, now: u64) -> Set<FlowIdentity> {
    Set::new(|k: FlowIdentity| m.contains_key(k) && m[k].expired(now))
}

/// Repeated reaper scans with no new activity evict each idle session
/// exactly once: a second scan at the same tick finds nothing to evict and
/// leaves the registry as it is, and whatever a later scan evicts is
/// disjoint from what this one already evicted.
pub proof fn lemma_reaper_idempotent(m: Map<FlowIdentity, SessionRecord>, now: u64, later: u64)
    requires
        now <= later,
    ensures
        expired_set(reap_map(m, now), now) =~= Set::<FlowIdentity>::empty(),
        reap_map(reap_map(m, now), now) =~= reap_map(m, now),
        expired_set(reap_map(m, now), later).disjoint(expired_set(m, now)),
{
    assert forall|k: FlowIdentity| !(expired_set(reap_map(m, now), later).contains(k)
        && expired_set(m, now).contains(k)) by {
        if reap_map(m, now).contains_key(k) {
            assert(!m[k].expired(now));
        }
    };
}

} // verus!
