//! Anti-replay timestamp cache.
//!
//! In a mutually authenticated network, a handshake initiation carries a
//! millisecond timestamp. A responder accepts a timestamp for a peer only if
//! it is strictly greater than the last one accepted for that peer, so a
//! captured initiation message cannot be replayed. Entries are never removed:
//! the trusted-peer population is small and slowly changing, so the cache
//! stays small in practice.

use crate::key::PeerStaticKey;
use vstd::prelude::*;

verus! {

/// Whether `timestamp` counts as a replay for `key` against the recorded
/// bounds `m`: a bound is recorded for `key` and `timestamp` does not exceed
/// it strictly.
pub open spec fn is_replay_spec(m: Map<Seq<u8>, u64>, key: Seq<u8>, timestamp: u64) -> bool {
    m.contains_key(key) && timestamp <= m[key]
}

/// Per-peer cache of the last accepted handshake timestamp, viewed as a map
/// from key bytes to that timestamp.
pub struct AntiReplayTimestamps {
    entries: Vec<(PeerStaticKey, u64)>,
}

/// The map recorded by a sequence of (key, timestamp) entries; a later entry
/// for the same key wins.
spec fn entries_map(s: Seq<(PeerStaticKey, u64)>) -> Map<Seq<u8>, u64>
    decreases s.len(),
{
    if s.len() == 0 {
        Map::empty()
    } else {
        entries_map(s.drop_last()).insert(s.last().0@, s.last().1)
    }
}

/// No two entries record the same key.
spec fn keys_distinct(s: Seq<(PeerStaticKey, u64)>) -> bool {
    forall|i: int, j: int| 0 <= i < j < s.len() ==> s[i].0@ != s[j].0@
}

proof fn lemma_keys_distinct_drop_last(s: Seq<(PeerStaticKey, u64)>)
    requires
        keys_distinct(s),
        s.len() > 0,
    ensures
        keys_distinct(s.drop_last()),
{
    assert forall|i: int, j: int|
        0 <= i < j < s.drop_last().len() implies s.drop_last()[i].0@ != s.drop_last()[j].0@ by {
        assert(s[i].0@ != s[j].0@);
    }
}

proof fn lemma_entries_map_contains(s: Seq<(PeerStaticKey, u64)>, key: Seq<u8>)
    ensures
        entries_map(s).contains_key(key) <==> exists|i: int| 0 <= i < s.len() && s[i].0@ == key,
    decreases s.len(),
{
    if s.len() == 0 {
    } else {
        lemma_entries_map_contains(s.drop_last(), key);
        if s.last().0@ == key {
            assert(s[s.len() - 1].0@ == key);
        } else {
            if exists|i: int| 0 <= i < s.len() && s[i].0@ == key {
                let i = choose|i: int| 0 <= i < s.len() && s[i].0@ == key;
                assert(s.drop_last()[i].0@ == key);
            }
            if exists|i: int| 0 <= i < s.drop_last().len() && s.drop_last()[i].0@ == key {
                let i = choose|i: int| 0 <= i < s.drop_last().len() && s.drop_last()[i].0@ == key;
                assert(s[i].0@ == key);
            }
        }
    }
}

proof fn lemma_entries_map_value(s: Seq<(PeerStaticKey, u64)>, i: int)
    requires
        keys_distinct(s),
        0 <= i < s.len(),
    ensures
        entries_map(s).contains_key(s[i].0@),
        entries_map(s)[s[i].0@] == s[i].1,
    decreases s.len(),
{
    if i == s.len() - 1 {
    } else {
        lemma_keys_distinct_drop_last(s);
        lemma_entries_map_value(s.drop_last(), i);
        assert(s.drop_last()[i] == s[i]);
        assert(s[i].0@ != s[s.len() - 1].0@);
    }
}

proof fn lemma_entries_map_update(s: Seq<(PeerStaticKey, u64)>, i: int, p: PeerStaticKey, t: u64)
    requires
        keys_distinct(s),
        0 <= i < s.len(),
        s[i].0@ == p@,
    ensures
        entries_map(s.update(i, (p, t))) == entries_map(s).insert(p@, t),
    decreases s.len(),
{
    let s2 = s.update(i, (p, t));
    if i == s.len() - 1 {
        assert(s2.drop_last() =~= s.drop_last());
        assert(s2.last() == (p, t));
        assert(entries_map(s.drop_last()).insert(s.last().0@, s.last().1).insert(p@, t)
            =~= entries_map(s.drop_last()).insert(p@, t));
    } else {
        lemma_keys_distinct_drop_last(s);
        assert(s2.drop_last() =~= s.drop_last().update(i, (p, t)));
        lemma_entries_map_update(s.drop_last(), i, p, t);
        assert(s2.last() == s.last());
        assert(s[i].0@ != s[s.len() - 1].0@);
        assert(entries_map(s.drop_last()).insert(p@, t).insert(s.last().0@, s.last().1)
            =~= entries_map(s.drop_last()).insert(s.last().0@, s.last().1).insert(p@, t));
    }
}

proof fn lemma_entries_map_push(s: Seq<(PeerStaticKey, u64)>, p: PeerStaticKey, t: u64)
    ensures
        entries_map(s.push((p, t))) == entries_map(s).insert(p@, t),
{
    assert(s.push((p, t)).drop_last() =~= s);
    assert(s.push((p, t)).last() == (p, t));
}

impl View for AntiReplayTimestamps {
    type V = Map<Seq<u8>, u64>;

    closed spec fn view(&self) -> Map<Seq<u8>, u64> {
        entries_map(self.entries@)
    }
}

impl Default for AntiReplayTimestamps {
    /// An empty cache: no peer has a recorded timestamp.
    fn default() -> (r: AntiReplayTimestamps)
        ensures
            r@ == Map::<Seq<u8>, u64>::empty(),
            r.wf(),
    {
        AntiReplayTimestamps { entries: Vec::new() }
    }
}

impl AntiReplayTimestamps {
    /// Internal consistency: each peer key is recorded at most once.
    pub closed spec fn wf(&self) -> bool {
        keys_distinct(self.entries@)
    }

    /// An empty cache: no peer has a recorded timestamp.
    pub fn new() -> (r: AntiReplayTimestamps)
        ensures
            r@ == Map::<Seq<u8>, u64>::empty(),
            r.wf(),
    {
        AntiReplayTimestamps { entries: Vec::new() }
    }

    /// The position of the entry recorded for `key`, if any.
    fn find_index(&self, key: &PeerStaticKey) -> (r: Option<usize>)
        ensures
            match r {
                Some(i) => i < self.entries@.len() && self.entries@[i as int].0@ == key@,
                None => forall|i: int| 0 <= i < self.entries@.len() ==> self.entries@[i].0@ != key@,
            },
    {
        let mut i: usize = 0;
        while i < self.entries.len()
            invariant
                i <= self.entries@.len(),
                forall|j: int| 0 <= j < i ==> self.entries@[j].0@ != key@,
            decreases self.entries@.len() - i,
        {
            if self.entries[i].0.eq_key(key) {
                return Some(i);
            }
            i = i + 1;
        }
        None
    }

    /// Returns true iff a timestamp is already recorded for this peer and
    /// `timestamp` does not exceed it strictly. A peer with no recorded
    /// timestamp is never a replay: first contact is always accepted.
    pub fn is_replay(&self, pubkey: &PeerStaticKey, timestamp: u64) -> (r: bool)
        requires
            self.wf(),
        ensures
            r == is_replay_spec(self@, pubkey@, timestamp),
    {
        match self.find_index(pubkey) {
            Some(i) => {
                proof {
                    lemma_entries_map_value(self.entries@, i as int);
                }
                timestamp <= self.entries[i].1
            },
            None => {
                proof {
                    lemma_entries_map_contains(self.entries@, pubkey@);
                }
                false
            },
        }
    }

    /// Unconditionally records `timestamp` as the new bound for this peer,
    /// overwriting any earlier bound. Callers preserve monotonicity by calling
    /// `is_replay` first and storing only when it returned false.
    pub fn store_timestamp(&mut self, pubkey: &PeerStaticKey, timestamp: u64)
        requires
            old(self).wf(),
        ensures
            final(self).wf(),
            final(self)@ == old(self)@.insert(pubkey@, timestamp),
    {
        let ghost s0 = self.entries@;
        match self.find_index(pubkey) {
            Some(i) => {
                let fresh = pubkey.duplicate();
                self.entries[i] = (fresh, timestamp);
                proof {
                    assert(self.entries@ == s0.update(i as int, (fresh, timestamp)));
                    lemma_entries_map_update(s0, i as int, fresh, timestamp);
                    assert forall|a: int, b: int|
                        0 <= a < b < self.entries@.len() implies self.entries@[a].0@
                        != self.entries@[b].0@ by {
                        assert(s0[a].0@ != s0[b].0@);
                    }
                }
            },
            None => {
                let fresh = pubkey.duplicate();
                self.entries.push((fresh, timestamp));
                proof {
                    lemma_entries_map_push(s0, fresh, timestamp);
                    assert forall|a: int, b: int|
                        0 <= a < b < self.entries@.len() implies self.entries@[a].0@
                        != self.entries@[b].0@ by {
                        if b < s0.len() {
                            assert(s0[a].0@ != s0[b].0@);
                        } else {
                            assert(s0[a].0@ != pubkey@);
                        }
                    }
                }
            },
        }
    }
}

/// Monotonicity of the replay bound: once a timestamp `t` has been stored for
/// a key, every timestamp at or below `t` is classified as a replay for that
/// key, and every timestamp strictly above `t` is not, until a new store
/// updates the bound.
pub proof fn lemma_store_monotonicity(m: Map<Seq<u8>, u64>, key: Seq<u8>, t: u64, t2: u64)
    ensures
        is_replay_spec(m.insert(key, t), key, t2) <==> t2 <= t,
{
}

/// First-contact acceptance: a key with no recorded timestamp is never
/// classified as a replay, whatever the timestamp.
pub proof fn lemma_first_contact(m: Map<Seq<u8>, u64>, key: Seq<u8>, timestamp: u64)
    requires
        !m.contains_key(key),
    ensures
        !is_replay_spec(m, key, timestamp),
{
}

} // verus!
