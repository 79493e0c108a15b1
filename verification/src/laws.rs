//! The counting rules the store is held to, stated and proved once and for
//! all over the store's mathematical model.

use vstd::prelude::*;
use crate::entry::Entry;
use crate::store::{spec_read, spec_record};

verus! {

/// The mapping after `n` requests are recorded under `key`, all at clock
/// reading `now`.
pub open spec fn spec_record_n(
    m: Map<Seq<char>, Entry>,
    key: Seq<char>,
    ttl: u64,
    now: u64,
    n: nat,
) -> Map<Seq<char>, Entry>
    decreases n,
{
    if n == 0 {
        m
    } else {
        spec_record(spec_record_n(m, key, ttl, now, (n - 1) as nat), key, ttl, now)
    }
}

/// Monotonic counting: starting from a store that holds nothing for `key`,
/// recording `n` requests under it at one instant leaves its count at
/// exactly `n` and its window origin at that instant. Since each record
/// returns the count it stores, the `i`-th of those records returns `i`:
/// the counts come out as 1, 2, ..., `n`, and no record is lost.
pub proof fn lemma_monotonic_count(
    m: Map<Seq<char>, Entry>,
    key: Seq<char>,
    ttl: u64,
    now: u64,
    n: nat,
)
    requires
        !m.contains_key(key),
        1 <= n <= u64::MAX,
    ensures
        spec_record_n(m, key, ttl, now, n).contains_key(key),
        spec_record_n(m, key, ttl, now, n)[key] == (Entry { value: n as u64, t0: now }),
    decreases n,
{
    if n == 1 {
        assert(spec_record_n(m, key, ttl, now, 0) == m);
        assert(spec_record_n(m, key, ttl, now, 1) == spec_record(m, key, ttl, now));
    } else {
        lemma_monotonic_count(m, key, ttl, now, (n - 1) as nat);
        assert(spec_record_n(m, key, ttl, now, n) == spec_record(
            spec_record_n(m, key, ttl, now, (n - 1) as nat),
            key,
            ttl,
            now,
        ));
    }
}

/// No lost updates, serial form: while a key's window is fresh and its count
/// below the saturation bound, one recorded request raises the stored count
/// by exactly one and leaves the window origin alone. The service serializes
/// concurrent records on one store behind a writer lock, so each of `n`
/// racing records applies this step once and none is dropped.
pub proof fn lemma_no_lost_update(m: Map<Seq<char>, Entry>, key: Seq<char>, ttl: u64, now: u64)
    requires
        m.contains_key(key),
        !m[key].spec_is_stale(now, ttl),
        m[key].value < u64::MAX,
    ensures
        spec_record(m, key, ttl, now)[key].value == m[key].value + 1,
        spec_record(m, key, ttl, now)[key].t0 == m[key].t0,
{
}

/// Expiry restarts the window: record once at `t1`, let more than the TTL
/// pass, and the next record stores a count of one — not the old count plus
/// one — in a window that begins at the later instant.
pub proof fn lemma_ttl_reset(m: Map<Seq<char>, Entry>, key: Seq<char>, ttl: u64, t1: u64, t2: u64)
    requires
        m.contains_key(key) ==> m[key].t0 <= t1,
        t2 - t1 > ttl,
    ensures
        spec_record(spec_record(m, key, ttl, t1), key, ttl, t2)[key] == (Entry {
            value: 1,
            t0: t2,
        }),
{
}

/// Key isolation: a record under one key neither adds, removes, nor changes
/// the entry of any other key, so what a read of the other key reports is
/// unchanged too.
pub proof fn lemma_key_isolation(
    m: Map<Seq<char>, Entry>,
    key: Seq<char>,
    other: Seq<char>,
    ttl: u64,
    now: u64,
)
    requires
        other != key,
    ensures
        spec_record(m, key, ttl, now).contains_key(other) == m.contains_key(other),
        m.contains_key(other) ==> spec_record(m, key, ttl, now)[other] == m[other],
        forall|read_ttl: u64, read_now: u64|
            spec_read(spec_record(m, key, ttl, now), other, read_ttl, read_now) == spec_read(
                m,
                other,
                read_ttl,
                read_now,
            ),
{
}

} // verus!
