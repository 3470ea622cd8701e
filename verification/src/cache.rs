//! The cache store: conversion results under string keys, each stamped with
//! the time of its write, usable for a fixed time to live, and purged of
//! stale entries when the store has grown past its capacity.

use vstd::hash_map::StringHashMap;
use vstd::prelude::*;
use vstd::seq_lib::seq_to_set_is_finite;

verus! {

/// Seconds for which a cached conversion stays usable after it was written.
pub const CACHE_TTL_SECS: u64 = 300;

/// Number of entries beyond which a write first purges the stale ones.
pub const CACHE_CAPACITY: usize = 1000;

/// A cached result and the time, in seconds since the epoch, of its write.
#[derive(Debug)]
pub struct CacheEntry<V> {
    pub value: V,
    pub timestamp: u64,
}

/// Whether an entry written at `timestamp` is still usable at `now`: its age
/// `now - timestamp` is below the time to live. An entry stamped later than
/// `now` has a negative age, and is fresh.
pub open spec fn is_fresh(timestamp: u64, now: u64) -> bool {
    now - timestamp < CACHE_TTL_SECS
}

/// What a read of `key` at `now` yields: the value of a fresh entry, or
/// nothing where the key is absent or its entry stale.
pub open spec fn lookup<V>(entries: Map<Seq<char>, CacheEntry<V>>, key: Seq<char>, now: u64)
    -> Option<V> {
    if entries.contains_key(key) && is_fresh(entries[key].timestamp, now) {
        Some(entries[key].value)
    } else {
        None
    }
}

/// The entries that a purge at `now` leaves: exactly the fresh ones, as they
/// were.
pub open spec fn swept<V>(entries: Map<Seq<char>, CacheEntry<V>>, now: u64) -> Map<
    Seq<char>,
    CacheEntry<V>,
> {
    Map::new(
        |key: Seq<char>| entries.contains_key(key) && is_fresh(entries[key].timestamp, now),
        |key: Seq<char>| entries[key],
    )
}

/// The entries after a write of `value` under `key` at `now`: a store past
/// its capacity is purged first, then the key's entry is set and stamped.
pub open spec fn stored<V>(
    entries: Map<Seq<char>, CacheEntry<V>>,
    key: Seq<char>,
    value: V,
    now: u64,
) -> Map<Seq<char>, CacheEntry<V>> {
    let kept = if entries.len() > CACHE_CAPACITY {
        swept(entries, now)
    } else {
        entries
    };
    kept.insert(key, CacheEntry { value, timestamp: now })
}

/// Whether `key` is the text of one of `keys`.
spec fn listed(keys: Seq<String>, key: Seq<char>) -> bool {
    exists|i: int| 0 <= i < keys.len() && (#[trigger] keys[i])@ == key
}

/// Whether no two of `keys` have the same text.
spec fn distinct(keys: Seq<String>) -> bool {
    forall|i: int, j: int|
        0 <= i < j < keys.len() ==> (#[trigger] keys[i])@ != (#[trigger] keys[j])@
}

/// A store of conversion results. Its view is the mapping from key to entry.
///
/// The store takes the time of each read and write from its caller, and it is
/// not synchronised: a caller that shares one guards it with a lock.
///
/// The entries live in a hash map; `keys` lists each key of the map once, so
/// that a purge can walk them.
#[verifier::reject_recursive_types(V)]
pub struct ConversionCache<V> {
    entries: StringHashMap<CacheEntry<V>>,
    keys: Vec<String>,
}

impl<V> View for ConversionCache<V> {
    type V = Map<Seq<char>, CacheEntry<V>>;

    closed spec fn view(&self) -> Map<Seq<char>, CacheEntry<V>> {
        self.entries@
    }
}

impl<V> ConversionCache<V> {
    /// The key list holds the keys of the map, each once.
    #[verifier::type_invariant]
    spec fn well_formed(&self) -> bool {
        &&& distinct(self.keys@)
        &&& forall|key: Seq<char>| self.entries@.contains_key(key) <==> listed(self.keys@, key)
    }

    /// An empty store.
    pub fn new() -> (cache: Self)
        ensures
            cache@ == Map::<Seq<char>, CacheEntry<V>>::empty(),
    {
        ConversionCache { entries: StringHashMap::new(), keys: Vec::new() }
    }

    /// The number of entries, stale ones included.
    pub fn len(&self) -> (count: usize)
        ensures
            self@.dom().finite(),
            count == self@.len(),
    {
        proof {
            use_type_invariant(self);
            let texts = self.keys@.map_values(|key: String| key@);
            assert forall|key: Seq<char>| self.entries@.dom().contains(key) <==> texts.to_set().contains(
                key,
            ) by {
                if listed(self.keys@, key) {
                    let i: int = choose|i: int|
                        0 <= i < self.keys@.len() && (#[trigger] self.keys@[i])@ == key;
                    assert(texts[i] == key);
                }
                if texts.to_set().contains(key) {
                    let i: int = choose|i: int| 0 <= i < texts.len() && texts[i] == key;
                    assert(self.keys@[i]@ == key);
                }
            }
            assert(self.entries@.dom() =~= texts.to_set());
            seq_to_set_is_finite(texts);
        }
        self.entries.len()
    }

    /// Writes `value` under `key`, stamped `now`. A store that holds more
    /// than `CACHE_CAPACITY` entries is first purged of its stale ones.
    pub fn set(&mut self, key: String, value: V, now: u64)
        ensures
            final(self)@ == stored(old(self)@, key@, value, now),
    {
        // The store is taken out whole, rebuilt and put back, so that what
        // stands in its place holds the invariant at every moment.
        let mut store = ConversionCache::new();
        std::mem::swap(self, &mut store);
        if store.entries.len() > CACHE_CAPACITY {
            store = store.without_stale(now);
        }
        *self = store.with_entry(key, value, now);
    }

    /// The store without its stale entries, the fresh ones kept as they are.
    fn without_stale(self, now: u64) -> (purged: Self)
        ensures
            purged@ == swept(self@, now),
    {
        proof {
            use_type_invariant(&self);
        }
        let ghost before = self.entries@;
        let ghost all = self.keys@;
        let ConversionCache { mut entries, mut keys } = self;
        let mut kept: Vec<String> = Vec::new();
        proof {
            assert(all.subrange(0, all.len() as int) == all);
        }
        while keys.len() > 0
            invariant
                keys.len() <= all.len(),
                keys@ == all.subrange(0, keys.len() as int),
                distinct(all),
                forall|key: Seq<char>| before.contains_key(key) <==> listed(all, key),
                forall|key: Seq<char>| #[trigger]
                    entries@.contains_key(key) <==> before.contains_key(key) && (is_fresh(
                        before[key].timestamp,
                        now,
                    ) || listed(keys@, key)),
                forall|key: Seq<char>| #[trigger]
                    entries@.contains_key(key) ==> entries@[key] == before[key],
                distinct(kept@),
                forall|key: Seq<char>| #[trigger]
                    listed(kept@, key) <==> listed(
                        all.subrange(keys.len() as int, all.len() as int),
                        key,
                    ) && is_fresh(before[key].timestamp, now),
            decreases keys.len(),
        {
            let ghost kept_before = kept@;
            let ghost entries_before = entries@;
            let ghost at: int = keys.len() - 1;
            let ghost text = all[at]@;
            let ghost head = all.subrange(0, at);
            let ghost tail = all.subrange(at + 1, all.len() as int);
            proof {
                lemma_listed_at(all, at);
                lemma_listed_around(all, at);
                assert(keys@ == all.subrange(0, at + 1));
                assert(listed(keys@, text));
                assert(before.contains_key(text));
                assert(entries@.contains_key(text));
            }
            match keys.pop() {
                Some(key) => {
                    assert(key@ == text);
                    assert(keys@ == head);
                    let fresh = match entries.get(key.as_str()) {
                        Some(entry) => now < entry.timestamp || now - entry.timestamp
                            < CACHE_TTL_SECS,
                        None => false,
                    };
                    assert(fresh == is_fresh(before[text].timestamp, now));
                    if fresh {
                        kept.push(key);
                        proof {
                            lemma_listed_push(kept_before, kept@[kept_before.len() as int]);
                        }
                    } else {
                        entries.remove(key.as_str());
                    }
                    proof {
                        assert forall|other: Seq<char>| #[trigger]
                            entries@.contains_key(other) <==> before.contains_key(other) && (
                            is_fresh(before[other].timestamp, now) || listed(head, other)) by {
                            assert(entries_before.contains_key(other) <==> before.contains_key(
                                other,
                            ) && (is_fresh(before[other].timestamp, now) || listed(
                                all.subrange(0, at + 1),
                                other,
                            )));
                            assert(listed(all.subrange(0, at + 1), other) <==> listed(head, other)
                                || other == text);
                        }
                        assert forall|other: Seq<char>| #[trigger]
                            listed(kept@, other) <==> listed(all.subrange(at, all.len() as int), other)
                                && is_fresh(before[other].timestamp, now) by {
                            assert(listed(kept_before, other) <==> listed(tail, other) && is_fresh(
                                before[other].timestamp,
                                now,
                            ));
                            assert(listed(all.subrange(at, all.len() as int), other) <==> listed(
                                tail,
                                other,
                            ) || other == text);
                        }
                    }
                },
                None => {},
            }
        }
        proof {
            assert(all.subrange(0, all.len() as int) == all);
            assert(entries@ =~= swept(before, now));
        }
        ConversionCache { entries, keys: kept }
    }

    /// The store with the entry of `key` set to `value`, stamped `now`.
    fn with_entry(self, key: String, value: V, now: u64) -> (written: Self)
        ensures
            written@ == self@.insert(key@, (CacheEntry { value, timestamp: now })),
    {
        proof {
            use_type_invariant(&self);
        }
        let ConversionCache { mut entries, mut keys } = self;
        let ghost keys_before = keys@;
        if !entries.contains_key(key.as_str()) {
            keys.push(key.clone());
            proof {
                lemma_listed_push(keys_before, keys@[keys_before.len() as int]);
            }
        }
        entries.insert(key, CacheEntry { value, timestamp: now });
        ConversionCache { entries, keys }
    }
}

impl<V: Copy> ConversionCache<V> {
    /// Reads `key` at time `now`. A stale entry is passed over, not removed.
    pub fn get(&self, key: &str, now: u64) -> (hit: Option<V>)
        ensures
            hit == lookup(self@, key@, now),
    {
        match self.entries.get(key) {
            Some(entry) => {
                if now < entry.timestamp || now - entry.timestamp < CACHE_TTL_SECS {
                    Some(entry.value)
                } else {
                    None
                }
            },
            None => None,
        }
    }
}

/// A value that was written is read back for as long as its age stays below
/// the time to live.
pub proof fn law_written_value_is_served_within_ttl<V>(
    entries: Map<Seq<char>, CacheEntry<V>>,
    key: Seq<char>,
    value: V,
    written_at: u64,
    asked_at: u64,
)
    requires
        asked_at - written_at < CACHE_TTL_SECS,
    ensures
        lookup(stored(entries, key, value, written_at), key, asked_at) == Some(value),
{
}

/// An entry whose age has reached the time to live is not served.
pub proof fn law_stale_entry_is_not_served<V>(
    entries: Map<Seq<char>, CacheEntry<V>>,
    key: Seq<char>,
    now: u64,
)
    requires
        entries.contains_key(key),
        now - entries[key].timestamp >= CACHE_TTL_SECS,
    ensures
        lookup(entries, key, now) is None,
{
}

/// A stale entry does not become fresh again as time goes on.
pub proof fn law_stale_entry_stays_stale(timestamp: u64, now: u64, later: u64)
    requires
        !is_fresh(timestamp, now),
        now <= later,
    ensures
        !is_fresh(timestamp, later),
{
}

/// A write stamps its entry with the time of the write, so that no overwrite
/// made at or after the time of the entry it replaces lowers the timestamp.
pub proof fn law_write_stamps_the_entry<V>(
    entries: Map<Seq<char>, CacheEntry<V>>,
    key: Seq<char>,
    value: V,
    now: u64,
)
    ensures
        stored(entries, key, value, now).contains_key(key),
        stored(entries, key, value, now)[key] == (CacheEntry { value, timestamp: now }),
        entries.contains_key(key) && entries[key].timestamp <= now ==> entries[key].timestamp
            <= stored(entries, key, value, now)[key].timestamp,
{
}

/// A write under one key changes nothing that a read of another key yields,
/// at the time of the write or later.
pub proof fn law_write_leaves_other_keys<V>(
    entries: Map<Seq<char>, CacheEntry<V>>,
    key: Seq<char>,
    value: V,
    now: u64,
    other: Seq<char>,
    asked_at: u64,
)
    requires
        other != key,
        now <= asked_at,
    ensures
        lookup(stored(entries, key, value, now), other, asked_at) == lookup(
            entries,
            other,
            asked_at,
        ),
{
}

/// A write into a store past its capacity purges the stale entries and only
/// those: of the other keys, exactly the fresh ones remain, with their
/// entries as they were. A write into a store within its capacity purges
/// nothing.
pub proof fn law_overflow_purges_the_stale_only<V>(
    entries: Map<Seq<char>, CacheEntry<V>>,
    key: Seq<char>,
    value: V,
    now: u64,
    other: Seq<char>,
)
    requires
        other != key,
    ensures
        entries.len() > CACHE_CAPACITY ==> (stored(entries, key, value, now).contains_key(other)
            <==> entries.contains_key(other) && is_fresh(entries[other].timestamp, now)),
        entries.len() <= CACHE_CAPACITY ==> (stored(entries, key, value, now).contains_key(other)
            <==> entries.contains_key(other)),
        stored(entries, key, value, now).contains_key(other) ==> stored(
            entries,
            key,
            value,
            now,
        )[other] == entries[other],
{
}

/// The key at `at` is listed, and a list of distinct keys lists it nowhere
/// else.
proof fn lemma_listed_at(keys: Seq<String>, at: int)
    requires
        0 <= at < keys.len(),
        distinct(keys),
    ensures
        listed(keys, keys[at]@),
        !listed(keys.subrange(0, at), keys[at]@),
        !listed(keys.subrange(at + 1, keys.len() as int), keys[at]@),
{
    let text = keys[at]@;
    let head = keys.subrange(0, at);
    let tail = keys.subrange(at + 1, keys.len() as int);
    if listed(head, text) {
        let j: int = choose|j: int| 0 <= j < head.len() && (#[trigger] head[j])@ == text;
        assert(head[j] == keys[j]);
    }
    if listed(tail, text) {
        let j: int = choose|j: int| 0 <= j < tail.len() && (#[trigger] tail[j])@ == text;
        assert(tail[j] == keys[at + 1 + j]);
    }
}

/// Moving the boundary `at` one key to the right moves just that key from
/// the listed tail to the listed head.
proof fn lemma_listed_around(keys: Seq<String>, at: int)
    requires
        0 <= at < keys.len(),
    ensures
        forall|key: Seq<char>| #[trigger]
            listed(keys.subrange(0, at + 1), key) <==> listed(keys.subrange(0, at), key) || key
                == keys[at]@,
        forall|key: Seq<char>| #[trigger]
            listed(keys.subrange(at, keys.len() as int), key) <==> listed(
                keys.subrange(at + 1, keys.len() as int),
                key,
            ) || key == keys[at]@,
{
    let head = keys.subrange(0, at);
    let head_after = keys.subrange(0, at + 1);
    let tail = keys.subrange(at, keys.len() as int);
    let tail_after = keys.subrange(at + 1, keys.len() as int);
    assert(head_after[at] == keys[at]);
    assert(tail[0] == keys[at]);
    assert forall|key: Seq<char>| #[trigger]
        listed(head_after, key) <==> listed(head, key) || key == keys[at]@ by {
        if listed(head_after, key) && key != keys[at]@ {
            let j: int = choose|j: int| 0 <= j < head_after.len() && (#[trigger] head_after[j])@ == key;
            assert(head[j] == head_after[j]);
        }
        if listed(head, key) {
            let j: int = choose|j: int| 0 <= j < head.len() && (#[trigger] head[j])@ == key;
            assert(head_after[j] == head[j]);
        }
    }
    assert forall|key: Seq<char>| #[trigger]
        listed(tail, key) <==> listed(tail_after, key) || key == keys[at]@ by {
        if listed(tail, key) && key != keys[at]@ {
            let j: int = choose|j: int| 0 <= j < tail.len() && (#[trigger] tail[j])@ == key;
            assert(tail_after[j - 1] == tail[j]);
        }
        if listed(tail_after, key) {
            let j: int = choose|j: int| 0 <= j < tail_after.len() && (#[trigger] tail_after[j])@ == key;
            assert(tail[j + 1] == tail_after[j]);
        }
    }
}

/// Appending a key lists it beside the keys listed before, and keeps the
/// keys distinct where it was not among them.
proof fn lemma_listed_push(keys: Seq<String>, last: String)
    ensures
        forall|key: Seq<char>| #[trigger]
            listed(keys.push(last), key) <==> listed(keys, key) || key == last@,
        distinct(keys) && !listed(keys, last@) ==> distinct(keys.push(last)),
{
    let after = keys.push(last);
    assert(after[keys.len() as int] == last);
    assert forall|key: Seq<char>| #[trigger]
        listed(after, key) <==> listed(keys, key) || key == last@ by {
        if listed(after, key) && key != last@ {
            let j: int = choose|j: int| 0 <= j < after.len() && (#[trigger] after[j])@ == key;
            assert(keys[j] == after[j]);
        }
        if listed(keys, key) {
            let j: int = choose|j: int| 0 <= j < keys.len() && (#[trigger] keys[j])@ == key;
            assert(after[j] == keys[j]);
        }
    }
    if distinct(keys) && !listed(keys, last@) {
        assert forall|a: int, b: int| 0 <= a < b < after.len() implies (#[trigger] after[a])@ != (
        #[trigger] after[b])@ by {
            assert(after[a] == keys[a]);
            if b < keys.len() {
                assert(after[b] == keys[b]);
            }
        }
    }
}

} // verus!
