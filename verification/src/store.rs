//! The concurrent-ready counting store: a mapping from string key to `Entry`.
//!
//! The store itself is sequential; the surrounding service shares one store
//! among its request handlers behind a reader/writer lock, so concurrent
//! calls are serialized and each behaves exactly as the contracts here state.
//! Keys are never removed: memory grows with the number of distinct keys ever
//! seen, an accepted operational limit rather than an error.

use vstd::prelude::*;
use vstd::hash_map::StringHashMap;
use crate::entry::Entry;

verus! {

/// Default counting-window length, in milliseconds: fifteen minutes.
pub const DEFAULT_TTL_MILLIS: u64 = 15 * 60 * 1000;

/// The entry a record operation starts from: the stored one when the key is
/// present, otherwise a fresh entry whose window begins at `now`.
pub open spec fn spec_base_entry(m: Map<Seq<char>, Entry>, key: Seq<char>, now: u64) -> Entry {
    if m.contains_key(key) {
        m[key]
    } else {
        Entry { value: 0, t0: now }
    }
}

/// The mapping after one request is recorded under `key` at `now`: the base
/// entry for the key, incremented, stored back; no other key is touched.
pub open spec fn spec_record(
    m: Map<Seq<char>, Entry>,
    key: Seq<char>,
    ttl: u64,
    now: u64,
) -> Map<Seq<char>, Entry> {
    m.insert(key, spec_base_entry(m, key, now).spec_inc(now, ttl))
}

/// What a read-only lookup of `key` at `now` reports: the stored count when a
/// fresh entry is present, and zero when the key is absent or its entry stale.
pub open spec fn spec_read(m: Map<Seq<char>, Entry>, key: Seq<char>, ttl: u64, now: u64) -> u64 {
    if m.contains_key(key) && !m[key].spec_is_stale(now, ttl) {
        m[key].value
    } else {
        0
    }
}

/// A mapping from key to counter entry, with lazy expiry: staleness is
/// resolved only when a key is touched, and only by the operations below.
/// Callers observe copies of an entry's scalar state, never a live reference.
pub struct CountingStore {
    entries: StringHashMap<Entry>,
}

impl View for CountingStore {
    type V = Map<Seq<char>, Entry>;

    closed spec fn view(&self) -> Map<Seq<char>, Entry> {
        self.entries@
    }
}

impl CountingStore {
    /// An empty store.
    pub fn new() -> (s: Self)
        ensures
            s@ == Map::<Seq<char>, Entry>::empty(),
    {
        CountingStore { entries: StringHashMap::new() }
    }

    /// Ensure an entry exists for `key`, record one request on it at `now`,
    /// and return the resulting count.
    ///
    /// The new mapping is exactly the old one with this key's entry replaced
    /// by its incremented base entry; every other key is left as it was.
    pub fn record_and_get(&mut self, key: String, ttl: u64, now: u64) -> (total: u64)
        ensures
            final(self)@ == spec_record(old(self)@, key@, ttl, now),
            final(self)@.contains_key(key@),
            total == final(self)@[key@].value,
            total >= 1,
    {
        let mut e = match self.entries.get(key.as_str()) {
            Some(stored) => *stored,
            None => Entry::new(now),
        };
        e.inc(now, ttl);
        let total = e.get();
        self.entries.insert(key, e);
        total
    }

    /// The current count for `key` at `now`, without recording anything:
    /// zero when the key is absent or its entry is stale.
    pub fn get(&self, key: &str, ttl: u64, now: u64) -> (total: u64)
        ensures
            total == spec_read(self@, key@, ttl, now),
    {
        match self.entries.get(key) {
            Some(stored) => {
                if stored.should_reset(now, ttl) {
                    0
                } else {
                    stored.get()
                }
            },
            None => 0,
        }
    }
}

} // verus!
