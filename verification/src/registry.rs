//! The session registry: the one shared record of live flows. It maps each
//! flow identity to its session metadata and supports insert-if-absent,
//! timestamp refresh, removal, a snapshot of the live identities, and the
//! reaper's scan.
//!
//! Its view is the map from identities to records; no two entries ever share
//! an identity.

use crate::flow::FlowIdentity;
use crate::reaper::reap_map;
use crate::session::SessionRecord;
use vstd::prelude::*;

verus! {

/// The registry of live sessions.
pub struct Registry {
    entries: Vec<(FlowIdentity, SessionRecord)>,
}

/// The map described by a sequence of keyed entries, later entries winning.
spec fn map_of(s: Seq<(FlowIdentity, SessionRecord)>) -> Map<FlowIdentity, SessionRecord>
    decreases s.len(),
{
    if s.len() == 0 {
        Map::empty()
    } else {
        map_of(s.drop_last()).insert(s.last().0, s.last().1)
    }
}

/// No two entries share an identity.
spec fn keys_distinct(s: Seq<(FlowIdentity, SessionRecord)>) -> bool {
    forall|i: int, j: int| 0 <= i < j < s.len() ==> (#[trigger] s[i]).0 != (#[trigger] s[j]).0
}

/// `map_of(s)` holds a key exactly when some entry carries it; with
/// distinct keys, each entry's value is the map's, and the entries count
/// the domain.
proof fn lemma_map_of(s: Seq<(FlowIdentity, SessionRecord)>)
    ensures
        map_of(s).dom().finite(),
        forall|k: FlowIdentity| #[trigger]
            map_of(s).contains_key(k) <==> exists|i: int|
                0 <= i < s.len() && (#[trigger] s[i]).0 == k,
        keys_distinct(s) ==> forall|i: int|
            0 <= i < s.len() ==> map_of(s)[(#[trigger] s[i]).0] == s[i].1,
        keys_distinct(s) ==> map_of(s).dom().len() == s.len(),
    decreases s.len(),
{
    if s.len() > 0 {
        let t = s.drop_last();
        lemma_map_of(t);
        assert(forall|i: int| 0 <= i < t.len() ==> t[i] == s[i]);
        assert forall|k: FlowIdentity| #[trigger]
            map_of(s).contains_key(k) <==> exists|i: int|
                0 <= i < s.len() && (#[trigger] s[i]).0 == k by {
            if map_of(s).contains_key(k) {
                if k == s.last().0 {
                    assert((s[s.len() - 1]).0 == k);
                } else {
                    let i = choose|i: int| 0 <= i < t.len() && (#[trigger] t[i]).0 == k;
                    assert((s[i]).0 == k);
                }
            }
            if exists|i: int| 0 <= i < s.len() && (#[trigger] s[i]).0 == k {
                let i = choose|i: int| 0 <= i < s.len() && (#[trigger] s[i]).0 == k;
                if i < s.len() - 1 {
                    assert((t[i]).0 == k);
                }
            }
        };
        if keys_distinct(s) {
            assert(keys_distinct(t));
            assert(!map_of(t).contains_key(s.last().0)) by {
                if map_of(t).contains_key(s.last().0) {
                    let i = choose|i: int|
                        0 <= i < t.len() && (#[trigger] t[i]).0 == s.last().0;
                    assert((s[i]).0 == (s[s.len() - 1]).0);
                }
            }
            assert forall|i: int| 0 <= i < s.len() implies map_of(s)[(#[trigger] s[i]).0]
                == s[i].1 by {
                if i < s.len() - 1 {
                    assert((s[i]).0 != (s[s.len() - 1]).0);
                    assert(map_of(s)[s[i].0] == map_of(t)[t[i].0]);
                }
            };
            assert(map_of(s).dom() =~= map_of(t).dom().insert(s.last().0));
        }
    }
}

impl View for Registry {
    type V = Map<FlowIdentity, SessionRecord>;

    closed spec fn view(&self) -> Map<FlowIdentity, SessionRecord> {
        map_of(self.entries@)
    }
}

impl Registry {
    /// A registry is well formed when no two entries share an identity.
    pub closed spec fn wf(self) -> bool {
        keys_distinct(self.entries@)
    }

    /// Creates an empty registry.
    pub fn new() -> (r: Registry)
        ensures
            r.wf(),
            r@ == Map::<FlowIdentity, SessionRecord>::empty(),
    {
        Registry { entries: Vec::new() }
    }

    /// Index of the entry carrying `id`, if one does.
    fn index_of(&self, id: FlowIdentity) -> (r: Option<usize>)
        ensures
            match r {
                Some(i) => i < self.entries@.len() && (self.entries@[i as int]).0 == id,
                None => forall|j: int|
                    0 <= j < self.entries@.len() ==> (#[trigger] self.entries@[j]).0 != id,
            },
    {
        let mut i: usize = 0;
        while i < self.entries.len()
            invariant
                i <= self.entries@.len(),
                forall|j: int| 0 <= j < i ==> (#[trigger] self.entries@[j]).0 != id,
            decreases self.entries@.len() - i,
        {
            if self.entries[i].0 == id {
                return Some(i);
            }
            i = i + 1;
        }
        None
    }

    /// How many sessions are live.
    pub fn len(&self) -> (r: usize)
        requires
            self.wf(),
        ensures
            r == self@.dom().len(),
    {
        proof {
            lemma_map_of(self.entries@);
        }
        self.entries.len()
    }

    /// Whether a live session carries `id`.
    pub fn contains(&self, id: FlowIdentity) -> (r: bool)
        ensures
            r == self@.contains_key(id),
    {
        proof {
            lemma_map_of(self.entries@);
        }
        self.index_of(id).is_some()
    }

    /// The record of the live session carrying `id`, if one does.
    pub fn get(&self, id: FlowIdentity) -> (r: Option<SessionRecord>)
        requires
            self.wf(),
        ensures
            match r {
                Some(rec) => self@.contains_key(id) && rec == self@[id],
                None => !self@.contains_key(id),
            },
    {
        proof {
            lemma_map_of(self.entries@);
        }
        match self.index_of(id) {
            Some(i) => Some(self.entries[i].1),
            None => None,
        }
    }

    /// Registers a session under `id` unless one is live already; the
    /// atomic insert-if-absent that keeps identities unique. Returns whether
    /// the session was registered.
    pub fn insert_if_absent(&mut self, id: FlowIdentity, rec: SessionRecord) -> (r: bool)
        requires
            old(self).wf(),
        ensures
            final(self).wf(),
            r == !old(self)@.contains_key(id),
            r ==> final(self)@ == old(self)@.insert(id, rec),
            !r ==> final(self)@ == old(self)@,
    {
        proof {
            lemma_map_of(self.entries@);
        }
        match self.index_of(id) {
            Some(_) => false,
            None => {
                self.entries.push((id, rec));
                proof {
                    let s_old = old(self).entries@;
                    let s_new = self.entries@;
                    assert(s_new.drop_last() =~= s_old);
                    assert forall|i: int, j: int| 0 <= i < j < s_new.len() implies (#[trigger]
                        s_new[i]).0 != (#[trigger] s_new[j]).0 by {
                        assert(s_new[i] == s_old[i]);
                        if j < s_new.len() - 1 {
                            assert(s_new[j] == s_old[j]);
                        }
                    };
                }
                true
            },
        }
    }

    /// Refreshes the last-activity timestamp of the session carrying `id`,
    /// if one is live. Returns whether there was one.
    pub fn touch(&mut self, id: FlowIdentity, now: u64) -> (r: bool)
        requires
            old(self).wf(),
        ensures
            final(self).wf(),
            r == old(self)@.contains_key(id),
            r ==> final(self)@ == old(self)@.insert(id, old(self)@[id].touched(now)),
            !r ==> final(self)@ == old(self)@,
    {
        proof {
            lemma_map_of(self.entries@);
        }
        match self.index_of(id) {
            Some(i) => {
                let rec = self.entries[i].1;
                let touched = SessionRecord { last_activity: now, ..rec };
                self.entries.set(i, (id, touched));
                proof {
                    let s_old = old(self).entries@;
                    let s_new = self.entries@;
                    assert(forall|j: int|
                        0 <= j < s_new.len() ==> (#[trigger] s_new[j]).0 == (s_old[j]).0);
                    assert(keys_distinct(s_new));
                    lemma_map_of(s_new);
                    assert forall|k: FlowIdentity| #[trigger]
                        map_of(s_new).contains_key(k) implies map_of(s_old).insert(
                        id,
                        s_old[i as int].1.touched(now),
                    ).contains_key(k) by {
                        let a = choose|a: int| 0 <= a < s_new.len() && (#[trigger] s_new[a]).0 == k;
                        assert((s_old[a]).0 == k);
                    };
                    assert forall|k: FlowIdentity|
                        map_of(s_old).insert(id, s_old[i as int].1.touched(now)).contains_key(
                        k) implies #[trigger] map_of(s_new).contains_key(k) by {
                        if k == id {
                            assert((s_new[i as int]).0 == k);
                        } else {
                            let a = choose|a: int|
                                0 <= a < s_old.len() && (#[trigger] s_old[a]).0 == k;
                            assert((s_new[a]).0 == k);
                        }
                    };
                    assert forall|k: FlowIdentity| map_of(s_new).contains_key(k) implies map_of(
                        s_new,
                    )[k] == map_of(s_old).insert(id, s_old[i as int].1.touched(now))[k] by {
                        let a = choose|a: int| 0 <= a < s_new.len() && (#[trigger] s_new[a]).0 == k;
                        assert(map_of(s_new)[k] == s_new[a].1);
                        if k == id {
                            assert(a == i) by {
                                if a != i {
                                    assert((s_new[a]).0 != (s_new[i as int]).0);
                                }
                            }
                        } else {
                            assert((s_old[a]).0 == k);
                            assert(a != i);
                            assert(map_of(s_old)[k] == s_old[a].1);
                        }
                    };
                    assert(map_of(s_new) =~= map_of(s_old).insert(
                        id,
                        s_old[i as int].1.touched(now),
                    ));
                    assert(s_old[i as int].1 == map_of(s_old)[id]);
                }
                true
            },
            None => false,
        }
    }

    /// Removes the session carrying `id`. Removing an identity with no live
    /// session is a no-op, not an error: the race between natural completion
    /// and the reaper is expected. Returns whether a session was removed.
    pub fn remove(&mut self, id: FlowIdentity) -> (r: bool)
        requires
            old(self).wf(),
        ensures
            final(self).wf(),
            r == old(self)@.contains_key(id),
            final(self)@ == old(self)@.remove(id),
    {
        proof {
            lemma_map_of(self.entries@);
        }
        match self.index_of(id) {
            Some(i) => {
                self.entries.remove(i);
                proof {
                    let s_old = old(self).entries@;
                    let s_new = self.entries@;
                    assert forall|a: int, b: int| 0 <= a < b < s_new.len() implies (#[trigger]
                        s_new[a]).0 != (#[trigger] s_new[b]).0 by {
                        let a2: int = if a < i { a } else { a + 1 };
                        let b2: int = if b < i { b } else { b + 1 };
                        assert(s_new[a] == s_old[a2]);
                        assert(s_new[b] == s_old[b2]);
                    };
                    lemma_map_of(s_new);
                    assert forall|k: FlowIdentity| #[trigger]
                        map_of(s_new).contains_key(k) implies (map_of(s_old).remove(
                        id,
                    ).contains_key(k) && map_of(s_new)[k] == map_of(s_old).remove(id)[k]) by {
                        let a = choose|a: int| 0 <= a < s_new.len() && (#[trigger] s_new[a]).0 == k;
                        let a2: int = if a < i { a } else { a + 1 };
                        assert(s_new[a] == s_old[a2]);
                        assert(a2 != i ==> (s_old[a2]).0 != (s_old[i as int]).0);
                        assert(k != id);
                        assert(map_of(s_new)[k] == s_new[a].1);
                        assert(map_of(s_old)[k] == s_old[a2].1);
                    };
                    assert forall|k: FlowIdentity|
                        map_of(s_old).remove(id).contains_key(k) implies #[trigger] map_of(
                        s_new,
                    ).contains_key(k) by {
                        let a = choose|a: int| 0 <= a < s_old.len() && (#[trigger] s_old[a]).0 == k;
                        assert(a != i);
                        let a2: int = if a < i { a } else { a - 1 };
                        assert(s_new[a2] == s_old[a]);
                    };
                    assert(map_of(s_new) =~= map_of(s_old).remove(id));
                }
                true
            },
            None => {
                proof {
                    assert(old(self)@.remove(id) =~= old(self)@);
                }
                false
            },
        }
    }

    /// A snapshot of the live identities, for a scan; each appears once.
    pub fn identities(&self) -> (r: Vec<FlowIdentity>)
        requires
            self.wf(),
        ensures
            r@.len() == self@.dom().len(),
            forall|k: FlowIdentity| #[trigger] r@.contains(k) <==> self@.contains_key(k),
            forall|a: int, b: int| 0 <= a < b < r@.len() ==> r@[a] != r@[b],
    {
        proof {
            lemma_map_of(self.entries@);
        }
        let mut out: Vec<FlowIdentity> = Vec::new();
        let mut i: usize = 0;
        while i < self.entries.len()
            invariant
                i <= self.entries@.len(),
                out@.len() == i,
                forall|j: int| 0 <= j < i ==> out@[j] == (#[trigger] self.entries@[j]).0,
            decreases self.entries@.len() - i,
        {
            out.push(self.entries[i].0);
            i = i + 1;
        }
        proof {
            let s = self.entries@;
            assert forall|k: FlowIdentity| #[trigger] out@.contains(k) implies self@.contains_key(
                k,
            ) by {
                let j = choose|j: int| 0 <= j < out@.len() && out@[j] == k;
                assert((s[j]).0 == k);
            };
            assert forall|k: FlowIdentity| self@.contains_key(k) implies #[trigger] out@.contains(
                k,
            ) by {
                let j = choose|j: int| 0 <= j < s.len() && (#[trigger] s[j]).0 == k;
                assert(out@[j] == k);
            };
            assert forall|a: int, b: int| 0 <= a < b < out@.len() implies out@[a] != out@[b] by {
                assert(out@[a] == (s[a]).0);
                assert(out@[b] == (s[b]).0);
            };
        }
        out
    }

    /// One reaper scan at `now`: every session idle past its timeout is
    /// evicted — its entry removed and its identity returned, each exactly
    /// once — and every other session is left untouched.
    pub fn reap(&mut self, now: u64) -> (evicted: Vec<FlowIdentity>)
        requires
            old(self).wf(),
        ensures
            final(self).wf(),
            final(self)@ == reap_map(old(self)@, now),
            forall|k: FlowIdentity| #[trigger]
                evicted@.contains(k) <==> old(self)@.contains_key(k) && old(self)@[k].expired(now),
            forall|a: int, b: int| 0 <= a < b < evicted@.len() ==> evicted@[a] != evicted@[b],
            forall|k: FlowIdentity|
                old(self)@.contains_key(k) && old(self)@[k].expired(now)
                    ==> !final(self)@.contains_key(k),
            forall|k: FlowIdentity|
                old(self)@.contains_key(k) && !old(self)@[k].expired(now)
                    ==> final(self)@.contains_key(k) && final(self)@[k] == old(self)@[k],
    {
        proof {
            lemma_map_of(self.entries@);
        }
        let mut kept: Vec<(FlowIdentity, SessionRecord)> = Vec::new();
        let mut evicted: Vec<FlowIdentity> = Vec::new();
        let mut i: usize = 0;
        while i < self.entries.len()
            invariant
                old(self).wf(),
                self.entries@ == old(self).entries@,
                i <= self.entries@.len(),
                keys_distinct(kept@),
                forall|j: int| 0 <= j < kept@.len() ==> exists|j2: int|
                    0 <= j2 < i && #[trigger] kept@[j] == old(self).entries@[j2],
                map_of(kept@) == reap_map(map_of(old(self).entries@.take(i as int)), now),
                forall|k: FlowIdentity| #[trigger]
                    evicted@.contains(k) <==> map_of(old(self).entries@.take(i as int)).contains_key(
                        k,
                    ) && map_of(old(self).entries@.take(i as int))[k].expired(now),
                forall|a: int, b: int| 0 <= a < b < evicted@.len() ==> evicted@[a] != evicted@[b],
            decreases self.entries@.len() - i,
        {
            let e = self.entries[i];
            proof {
                let s = old(self).entries@;
                let m_i = map_of(s.take(i as int));
                assert(s.take(i + 1 as int).drop_last() =~= s.take(i as int));
                assert(s.take(i + 1 as int).last() == s[i as int]);
                lemma_map_of(s.take(i as int));
                assert(!m_i.contains_key(e.0)) by {
                    if m_i.contains_key(e.0) {
                        let j = choose|j: int|
                            0 <= j < s.take(i as int).len() && (#[trigger] s.take(i as int)[j]).0
                                == e.0;
                        assert((s[j]).0 == (s[i as int]).0);
                    }
                }
            }
            if e.1.is_expired(now) {
                let ghost ev_pre = evicted@;
                evicted.push(e.0);
                proof {
                    let s = old(self).entries@;
                    let m_i = map_of(s.take(i as int));
                    let m_i1 = map_of(s.take(i + 1 as int));
                    assert(m_i1 == m_i.insert(e.0, e.1));
                    assert(reap_map(m_i1, now) =~= reap_map(m_i, now));
                    assert forall|k: FlowIdentity| #[trigger]
                        evicted@.contains(k) <==> m_i1.contains_key(k) && m_i1[k].expired(now) by {
                        if evicted@.contains(k) {
                            let idx = choose|idx: int|
                                0 <= idx < evicted@.len() && evicted@[idx] == k;
                            if idx < ev_pre.len() {
                                assert(ev_pre[idx] == k);
                                assert(ev_pre.contains(k));
                                assert(m_i.contains_key(k) && m_i[k].expired(now));
                            } else {
                                assert(k == e.0);
                            }
                        }
                        if m_i1.contains_key(k) && m_i1[k].expired(now) {
                            if k == e.0 {
                                assert(evicted@[evicted@.len() - 1] == k);
                            } else {
                                assert(m_i.contains_key(k) && m_i[k].expired(now));
                                assert(ev_pre.contains(k));
                                let idx = choose|idx: int|
                                    0 <= idx < ev_pre.len() && ev_pre[idx] == k;
                                assert(evicted@[idx] == k);
                            }
                        }
                    };
                    assert forall|a: int, b: int| 0 <= a < b < evicted@.len() implies evicted@[a]
                        != evicted@[b] by {
                        if b < evicted@.len() - 1 {
                            assert(ev_pre[a] == evicted@[a]);
                            assert(ev_pre[b] == evicted@[b]);
                        } else {
                            assert(evicted@[b] == e.0);
                            assert(ev_pre[a] == evicted@[a]);
                            assert(ev_pre.contains(ev_pre[a]));
                            assert(!m_i.contains_key(e.0));
                        }
                    };
                }
            } else {
                let ghost kept_pre = kept@;
                kept.push(e);
                proof {
                    let s = old(self).entries@;
                    let m_i = map_of(s.take(i as int));
                    let m_i1 = map_of(s.take(i + 1 as int));
                    assert(m_i1 == m_i.insert(e.0, e.1));
                    assert(kept@.drop_last() =~= kept_pre);
                    assert forall|a: int, b: int| 0 <= a < b < kept@.len() implies (#[trigger]
                        kept@[a]).0 != (#[trigger] kept@[b]).0 by {
                        assert(kept@[a] == kept@.drop_last()[a]);
                        if b < kept@.len() - 1 {
                            assert(kept@[b] == kept@.drop_last()[b]);
                        } else {
                            assert(kept@[b] == e);
                            let j2 = choose|j2: int|
                                0 <= j2 < i && #[trigger] kept@.drop_last()[a] == s[j2];
                            assert((s[j2]).0 != (s[i as int]).0);
                        }
                    };
                    assert forall|j: int| 0 <= j < kept@.len() implies exists|j2: int|
                        0 <= j2 < i + 1 && #[trigger] kept@[j] == s[j2] by {
                        if j < kept@.len() - 1 {
                            let j2 = choose|j2: int|
                                0 <= j2 < i && #[trigger] kept@.drop_last()[j] == s[j2];
                            assert(kept@[j] == s[j2]);
                        } else {
                            assert(kept@[j] == s[i as int]);
                        }
                    };
                    assert(map_of(kept@) =~= reap_map(m_i1, now)) by {
                        assert(map_of(kept@) == map_of(kept@.drop_last()).insert(e.0, e.1));
                        assert(reap_map(m_i1, now) =~= reap_map(m_i, now).insert(e.0, e.1));
                    }
                }
            }
            i = i + 1;
        }
        proof {
            assert(old(self).entries@.take(old(self).entries@.len() as int) =~= old(
                self,
            ).entries@);
        }
        self.entries = kept;
        evicted
    }
}

} // verus!
