//! In-memory digital twin of the sensor fleet: the latest telemetry record of
//! each device, bounded to 10,000 devices with least-recently-used eviction.
use crate::shared::TelemetryPayload;
use lru::LruCache;
use vstd::prelude::*;

verus! {

#[verifier::external_type_specification]
#[verifier::external_body]
#[verifier::reject_recursive_types(K)]
#[verifier::reject_recursive_types(V)]
#[verifier::reject_recursive_types(S)]
pub struct ExLruCache<K, V, S>(LruCache<K, V, S>);

#[verifier::external_type_specification]
#[verifier::external_body]
pub struct ExLruHasher(lru::DefaultHasher);

/// Entries of an LRU cache of telemetry records, most recently used first:
/// (device id, record).
pub uninterp spec fn lru_entries(cache: LruCache<String, TelemetryPayload>) -> Seq<
    (Seq<char>, TelemetryPayload),
>;

/// The capacity an LRU cache of telemetry records was created with.
pub uninterp spec fn lru_capacity(cache: LruCache<String, TelemetryPayload>) -> nat;

/// Number of devices the twin keeps.
pub const TWIN_CAPACITY: usize = 10_000;

/// Index of `key` among the entries, if present.
pub open spec fn key_index(entries: Seq<(Seq<char>, TelemetryPayload)>, key: Seq<char>) -> int {
    if exists|i: int| 0 <= i < entries.len() && entries[i].0 == key {
        choose|i: int| 0 <= i < entries.len() && entries[i].0 == key
    } else {
        -1
    }
}

/// The record kept for `key`, if any.
pub open spec fn lookup(entries: Seq<(Seq<char>, TelemetryPayload)>, key: Seq<char>) -> Option<
    TelemetryPayload,
> {
    if key_index(entries, key) >= 0 {
        Some(entries[key_index(entries, key)].1)
    } else {
        None
    }
}

/// No device id occurs twice.
pub open spec fn keys_distinct(entries: Seq<(Seq<char>, TelemetryPayload)>) -> bool {
    forall|i: int, j: int|
        0 <= i < entries.len() && 0 <= j < entries.len() && i != j ==> entries[i].0 != entries[j].0
}

/// Entries after `put(key, value)` on a cache of capacity `cap`: the pair
/// moves to the front; a new key evicts the least recently used entry when
/// the cache is full.
pub open spec fn after_put(
    entries: Seq<(Seq<char>, TelemetryPayload)>,
    cap: nat,
    key: Seq<char>,
    value: TelemetryPayload,
) -> Seq<(Seq<char>, TelemetryPayload)> {
    let i = key_index(entries, key);
    if i >= 0 {
        seq![(key, value)] + entries.remove(i)
    } else if entries.len() == cap {
        seq![(key, value)] + entries.drop_last()
    } else {
        seq![(key, value)] + entries
    }
}

/// Calls `lru::LruCache::new`; its source starts with no entries and keeps
/// `cap` as the capacity.
#[verifier::external_body]
fn lru_new(cap: usize) -> (cache: LruCache<String, TelemetryPayload>)
    requires
        cap > 0,
    ensures
        lru_entries(cache) == Seq::<(Seq<char>, TelemetryPayload)>::empty(),
        lru_capacity(cache) == cap,
{
    LruCache::new(std::num::NonZeroUsize::new(cap).unwrap())
}

/// Calls `lru::LruCache::put`. Its source updates an existing key in place
/// and moves it to the head of the list, returning the old value; a new key
/// goes to the head, and when the cache is full the tail (least recently
/// used) entry is removed first. Keys compare as strings. It does not
/// unwind: its one `unwrap` is on the tail entry's key, which the map holds
/// whenever the cache is full, and allocation failure aborts.
#[verifier::external_body]
fn lru_put(cache: &mut LruCache<String, TelemetryPayload>, key: String, value: TelemetryPayload) -> (old_value: Option<TelemetryPayload>)
    requires
        keys_distinct(lru_entries(*old(cache))),
        lru_entries(*old(cache)).len() <= lru_capacity(*old(cache)),
    ensures
        lru_entries(*final(cache)) == after_put(lru_entries(*old(cache)), lru_capacity(*old(cache)), key@, value),
        lru_capacity(*final(cache)) == lru_capacity(*old(cache)),
        old_value == lookup(lru_entries(*old(cache)), key@),
    no_unwind
{
    cache.put(key, value)
}

/// Calls `lru::LruCache::peek`, which reads the value of a key without
/// touching the recency order.
#[verifier::external_body]
fn lru_peek<'a>(cache: &'a LruCache<String, TelemetryPayload>, key: &str) -> (found: Option<&'a TelemetryPayload>)
    requires
        keys_distinct(lru_entries(*cache)),
    ensures
        match found {
            Some(v) => lookup(lru_entries(*cache), key@) == Some(*v),
            None => lookup(lru_entries(*cache), key@) is None,
        },
{
    cache.peek(key)
}

/// Calls `lru::LruCache::len`, the number of entries.
#[verifier::external_body]
fn lru_len(cache: &LruCache<String, TelemetryPayload>) -> (n: usize)
    ensures
        n == lru_entries(*cache).len(),
{
    cache.len()
}

/// Collects `lru::LruCache::iter`, which walks the entries from the most to
/// the least recently used.
#[verifier::external_body]
fn lru_iter<'a>(cache: &'a LruCache<String, TelemetryPayload>) -> (items: Vec<(&'a String, &'a TelemetryPayload)>)
    ensures
        items@.len() == lru_entries(*cache).len(),
        forall|i: int|
            0 <= i < items@.len() ==> (#[trigger] items@[i]).0@ == lru_entries(*cache)[i].0
                && *items@[i].1 == lru_entries(*cache)[i].1,
{
    cache.iter().collect()
}

/// Putting keeps the device ids distinct and the cache within its capacity.
proof fn lemma_after_put_wf(
    entries: Seq<(Seq<char>, TelemetryPayload)>,
    cap: nat,
    key: Seq<char>,
    value: TelemetryPayload,
)
    requires
        keys_distinct(entries),
        entries.len() <= cap,
        cap > 0,
    ensures
        keys_distinct(after_put(entries, cap, key, value)),
        after_put(entries, cap, key, value).len() <= cap,
        after_put(entries, cap, key, value).len() >= 1,
        after_put(entries, cap, key, value)[0] == (key, value),
{
    let i = key_index(entries, key);
    let r = after_put(entries, cap, key, value);
    if i >= 0 {
        let rest = entries.remove(i);
        assert forall|a: int, b: int| 0 <= a < r.len() && 0 <= b < r.len() && a != b implies r[a].0
            != r[b].0 by {
            if a > 0 && b > 0 {
                let a0 = if a - 1 < i { a - 1 } else { a };
                let b0 = if b - 1 < i { b - 1 } else { b };
                assert(r[a] == entries[a0]);
                assert(r[b] == entries[b0]);
            } else if a == 0 {
                let b0 = if b - 1 < i { b - 1 } else { b };
                assert(r[b] == entries[b0]);
            } else {
                let a0 = if a - 1 < i { a - 1 } else { a };
                assert(r[a] == entries[a0]);
            }
        }
    } else {
        assert(!exists|j: int| 0 <= j < entries.len() && entries[j].0 == key);
        assert forall|a: int, b: int| 0 <= a < r.len() && 0 <= b < r.len() && a != b implies r[a].0
            != r[b].0 by {
            if a > 0 {
                assert(r[a] == entries[a - 1]);
            }
            if b > 0 {
                assert(r[b] == entries[b - 1]);
            }
        }
    }
}

/// Looking a key up right after putting it gives the value put.
proof fn lemma_lookup_after_put_same(
    entries: Seq<(Seq<char>, TelemetryPayload)>,
    cap: nat,
    key: Seq<char>,
    value: TelemetryPayload,
)
    requires
        keys_distinct(entries),
        entries.len() <= cap,
        cap > 0,
    ensures
        lookup(after_put(entries, cap, key, value), key) == Some(value),
{
    lemma_after_put_wf(entries, cap, key, value);
    let r = after_put(entries, cap, key, value);
    assert(r[0].0 == key);
    let j = key_index(r, key);
    assert(j >= 0);
    assert(r[j].0 == key);
    assert(j == 0);
}

/// With distinct keys, the index of a key is the one position holding it.
proof fn lemma_key_index(entries: Seq<(Seq<char>, TelemetryPayload)>, key: Seq<char>, i: int)
    requires
        keys_distinct(entries),
        0 <= i < entries.len(),
        entries[i].0 == key,
    ensures
        key_index(entries, key) == i,
{
    let j = key_index(entries, key);
    assert(0 <= j < entries.len() && entries[j].0 == key);
}

/// Putting one device leaves the record of every other device as it was,
/// except that a new device evicts the least recently updated one when the
/// twin is full.
pub proof fn lemma_put_keeps_other_devices(
    entries: Seq<(Seq<char>, TelemetryPayload)>,
    key: Seq<char>,
    value: TelemetryPayload,
    other: Seq<char>,
)
    requires
        keys_distinct(entries),
        entries.len() <= TWIN_CAPACITY,
        other != key,
    ensures
        lookup(after_put(entries, TWIN_CAPACITY as nat, key, value), other) == if lookup(
            entries,
            key,
        ) is None && entries.len() == TWIN_CAPACITY && entries.last().0 == other {
            None
        } else {
            lookup(entries, other)
        },
{
    let cap = TWIN_CAPACITY as nat;
    lemma_after_put_wf(entries, cap, key, value);
    let r = after_put(entries, cap, key, value);
    let i = key_index(entries, key);
    let o = key_index(entries, other);
    // position of `other` in the new entries, from its old position
    if o >= 0 {
        assert(entries[o].0 == other);
        if i >= 0 {
            let n = if o < i { o + 1 } else { o };
            assert(r[n] == entries[o]);
            lemma_key_index(r, other, n);
        } else if entries.len() == cap && o == entries.len() - 1 {
            assert forall|j: int| 0 <= j < r.len() implies r[j].0 != other by {
                if j > 0 {
                    assert(r[j] == entries[j - 1]);
                }
            }
        } else {
            assert(r[o + 1] == entries[o]);
            lemma_key_index(r, other, o + 1);
        }
    } else {
        assert(!exists|j: int| 0 <= j < entries.len() && entries[j].0 == other);
        assert forall|j: int| 0 <= j < r.len() implies r[j].0 != other by {
            if j > 0 {
                if i >= 0 {
                    let j0 = if j - 1 < i { j - 1 } else { j };
                    assert(r[j] == entries[j0]);
                } else {
                    assert(r[j] == entries[j - 1]);
                }
            }
        }
    }
    if lookup(entries, key) is None && entries.len() == cap && entries.last().0 == other {
        lemma_key_index(entries, other, entries.len() - 1);
    }
}

/// The digital twin: the latest record of each device, for at most
/// `TWIN_CAPACITY` devices.
pub struct DigitalTwin {
    cache: LruCache<String, TelemetryPayload>,
}

impl View for DigitalTwin {
    type V = Seq<(Seq<char>, TelemetryPayload)>;

    /// (device id, latest record), most recently updated first.
    closed spec fn view(&self) -> Seq<(Seq<char>, TelemetryPayload)> {
        lru_entries(self.cache)
    }
}

impl DigitalTwin {
    /// Distinct device ids, at most `TWIN_CAPACITY` of them.
    #[verifier::type_invariant]
    spec fn well_formed(self) -> bool {
        &&& lru_capacity(self.cache) == TWIN_CAPACITY
        &&& keys_distinct(lru_entries(self.cache))
        &&& lru_entries(self.cache).len() <= TWIN_CAPACITY
    }

    /// An empty twin.
    pub fn new() -> (twin: DigitalTwin)
        ensures
            twin@ == Seq::<(Seq<char>, TelemetryPayload)>::empty(),
    {
        DigitalTwin { cache: lru_new(TWIN_CAPACITY) }
    }

    /// Records `payload` as the latest state of `device_id`, and returns the
    /// record it replaces.
    pub fn put(&mut self, device_id: String, payload: TelemetryPayload) -> (replaced: Option<
        TelemetryPayload,
    >)
        ensures
            final(self)@ == after_put(old(self)@, TWIN_CAPACITY as nat, device_id@, payload),
            replaced == lookup(old(self)@, device_id@),
            lookup(final(self)@, device_id@) == Some(payload),
            keys_distinct(final(self)@),
            final(self)@.len() <= TWIN_CAPACITY,
        no_unwind
    {
        proof {
            use_type_invariant(&*self);
            lemma_after_put_wf(lru_entries(self.cache), TWIN_CAPACITY as nat, device_id@, payload);
            lemma_lookup_after_put_same(
                lru_entries(self.cache),
                TWIN_CAPACITY as nat,
                device_id@,
                payload,
            );
        }
        lru_put(&mut self.cache, device_id, payload)
    }

    /// The latest record of `device_id`, if the twin keeps one.
    pub fn get(&self, device_id: &str) -> (found: Option<&TelemetryPayload>)
        ensures
            match found {
                Some(v) => lookup(self@, device_id@) == Some(*v),
                None => lookup(self@, device_id@) is None,
            },
    {
        proof {
            use_type_invariant(self);
        }
        lru_peek(&self.cache, device_id)
    }

    /// Number of devices kept.
    pub fn len(&self) -> (n: usize)
        ensures
            n == self@.len(),
            n <= TWIN_CAPACITY,
    {
        proof {
            use_type_invariant(self);
        }
        lru_len(&self.cache)
    }

    /// A copy of every (device id, record) pair, most recently updated first.
    pub fn snapshot(&self) -> (items: Vec<(String, TelemetryPayload)>)
        ensures
            items@.len() == self@.len(),
            forall|i: int|
                0 <= i < items@.len() ==> (#[trigger] items@[i]).0@ == self@[i].0 && items@[i].1
                    == self@[i].1,
    {
        let refs = lru_iter(&self.cache);
        let mut items: Vec<(String, TelemetryPayload)> = Vec::new();
        let mut i: usize = 0;
        while i < refs.len()
            invariant
                i <= refs@.len(),
                refs@.len() == self@.len(),
                items@.len() == i,
                forall|j: int|
                    0 <= j < refs@.len() ==> (#[trigger] refs@[j]).0@ == self@[j].0 && *refs@[j].1
                        == self@[j].1,
                forall|j: int|
                    0 <= j < i ==> (#[trigger] items@[j]).0@ == self@[j].0 && items@[j].1
                        == self@[j].1,
            decreases refs@.len() - i,
        {
            let (k, v) = refs[i];
            items.push((k.clone(), v.clone()));
            i = i + 1;
        }
        items
    }
}

} // verus!
