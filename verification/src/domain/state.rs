//! In-memory digital twin of the first ingestion service: the latest record
//! of every device, without bound.
use crate::domain::telemetry::TelemetryPayload;
use vstd::prelude::*;

verus! {

/// The map that a list of (device id, record) pairs denotes; a later pair
/// overrides an earlier one with the same id.
pub open spec fn map_of(s: Seq<(Seq<char>, TelemetryPayload)>) -> Map<Seq<char>, TelemetryPayload>
    decreases s.len(),
{
    if s.len() == 0 {
        Map::empty()
    } else {
        map_of(s.drop_last()).insert(s.last().0, s.last().1)
    }
}

/// No device id occurs twice.
pub open spec fn distinct_ids(s: Seq<(Seq<char>, TelemetryPayload)>) -> bool {
    forall|i: int, j: int| 0 <= i < s.len() && 0 <= j < s.len() && i != j ==> s[i].0 != s[j].0
}

/// Every pair of the list is in the map it denotes, under distinct ids.
proof fn lemma_map_of_member(s: Seq<(Seq<char>, TelemetryPayload)>, i: int)
    requires
        distinct_ids(s),
        0 <= i < s.len(),
    ensures
        map_of(s).contains_key(s[i].0),
        map_of(s)[s[i].0] == s[i].1,
    decreases s.len(),
{
    if i < s.len() - 1 {
        lemma_map_of_member(s.drop_last(), i);
    }
}

/// Keys absent from the list are absent from its map.
proof fn lemma_map_of_absent(s: Seq<(Seq<char>, TelemetryPayload)>, k: Seq<char>)
    requires
        forall|i: int| 0 <= i < s.len() ==> s[i].0 != k,
    ensures
        !map_of(s).contains_key(k),
    decreases s.len(),
{
    if s.len() > 0 {
        lemma_map_of_absent(s.drop_last(), k);
    }
}

/// Replacing the pair of an id updates the map at that id.
proof fn lemma_map_of_update(s: Seq<(Seq<char>, TelemetryPayload)>, i: int, v: TelemetryPayload)
    requires
        distinct_ids(s),
        0 <= i < s.len(),
    ensures
        map_of(s.update(i, (s[i].0, v))) == map_of(s).insert(s[i].0, v),
    decreases s.len(),
{
    let k = s[i].0;
    let u = s.update(i, (k, v));
    if i == s.len() - 1 {
        assert(u.drop_last() =~= s.drop_last());
        assert(map_of(u) =~= map_of(s).insert(k, v));
    } else {
        assert(u.drop_last() =~= s.drop_last().update(i, (k, v)));
        lemma_map_of_update(s.drop_last(), i, v);
        assert(s.last().0 != k);
        assert(map_of(u) =~= map_of(s).insert(k, v));
    }
}

/// The digital twin: the latest record of every device that reported. The
/// pairs are kept in a list with distinct device ids (std's `HashMap` has a
/// usable specification only for keys whose hashing vstd models, which
/// excludes `String`).
pub struct DigitalTwin {
    entries: Vec<(String, TelemetryPayload)>,
}

/// The (device id, record) pairs of the twin.
pub open spec fn entry_views(v: Seq<(String, TelemetryPayload)>) -> Seq<(Seq<char>, TelemetryPayload)> {
    v.map_values(|e: (String, TelemetryPayload)| (e.0@, e.1))
}

impl View for DigitalTwin {
    type V = Map<Seq<char>, TelemetryPayload>;

    /// Device id to latest record.
    closed spec fn view(&self) -> Map<Seq<char>, TelemetryPayload> {
        map_of(entry_views(self.entries@))
    }
}

impl DigitalTwin {
    /// Each device appears once.
    #[verifier::type_invariant]
    spec fn no_duplicates(self) -> bool {
        distinct_ids(entry_views(self.entries@))
    }

    /// An empty twin.
    pub fn new() -> (twin: DigitalTwin)
        ensures
            twin@ == Map::<Seq<char>, TelemetryPayload>::empty(),
    {
        let twin = DigitalTwin { entries: Vec::new() };
        assert(entry_views(twin.entries@) =~= Seq::<(Seq<char>, TelemetryPayload)>::empty());
        twin
    }

    /// Records `payload` as the latest state of `device_id`.
    pub fn insert(&mut self, device_id: String, payload: TelemetryPayload)
        ensures
            final(self)@ == old(self)@.insert(device_id@, payload),
            final(self)@.contains_key(device_id@),
            final(self)@[device_id@] == payload,
    {
        proof {
            use_type_invariant(&*self);
        }
        let ghost old_views = entry_views(self.entries@);
        let mut i: usize = 0;
        while i < self.entries.len()
            invariant
                i <= self.entries@.len(),
                old_views == entry_views(self.entries@),
                old(self)@ == map_of(old_views),
                distinct_ids(old_views),
                forall|j: int| 0 <= j < i ==> old_views[j].0 != device_id@,
            decreases self.entries@.len() - i,
        {
            if self.entries[i].0 == device_id {
                let mut entries: Vec<(String, TelemetryPayload)> = Vec::new();
                std::mem::swap(&mut entries, &mut self.entries);
                proof {
                    assert(old_views[i as int].0 == device_id@);
                    lemma_map_of_update(old_views, i as int, payload);
                }
                entries.set(i, (device_id, payload));
                let ghost new_views = old_views.update(i as int, (old_views[i as int].0, payload));
                assert(entry_views(entries@) =~= new_views);
                assert forall|a: int, b: int|
                    0 <= a < new_views.len() && 0 <= b < new_views.len() && a != b implies new_views[a].0
                    != new_views[b].0 by {
                    assert(new_views[a].0 == old_views[a].0);
                    assert(new_views[b].0 == old_views[b].0);
                }
                self.entries = entries;
                return;
            }
            i = i + 1;
        }
        let mut entries: Vec<(String, TelemetryPayload)> = Vec::new();
        std::mem::swap(&mut entries, &mut self.entries);
        entries.push((device_id, payload));
        assert(entry_views(entries@).drop_last() =~= old_views);
        assert(entry_views(entries@) =~= old_views.push((device_id@, payload)));
        assert forall|a: int, b: int|
            0 <= a < entry_views(entries@).len() && 0 <= b < entry_views(entries@).len() && a != b
            implies entry_views(entries@)[a].0 != entry_views(entries@)[b].0 by {
        }
        self.entries = entries;
    }

    /// The latest record of `device_id`, if it reported.
    pub fn get(&self, device_id: &str) -> (found: Option<&TelemetryPayload>)
        ensures
            match found {
                Some(v) => self@.contains_key(device_id@) && self@[device_id@] == *v,
                None => !self@.contains_key(device_id@),
            },
    {
        proof {
            use_type_invariant(self);
        }
        let ghost views = entry_views(self.entries@);
        let key = device_id.to_owned();
        let mut i: usize = 0;
        while i < self.entries.len()
            invariant
                i <= self.entries@.len(),
                views == entry_views(self.entries@),
                key@ == device_id@,
                distinct_ids(views),
                forall|j: int| 0 <= j < i ==> views[j].0 != device_id@,
            decreases self.entries@.len() - i,
        {
            if self.entries[i].0 == key {
                proof {
                    lemma_map_of_member(views, i as int);
                }
                return Some(&self.entries[i].1);
            }
            i = i + 1;
        }
        proof {
            lemma_map_of_absent(views, device_id@);
        }
        None
    }

    /// Number of devices that reported.
    pub fn len(&self) -> (n: usize)
        ensures
            n == self@.len(),
    {
        proof {
            use_type_invariant(self);
            lemma_map_of_len(entry_views(self.entries@));
        }
        self.entries.len()
    }
}

/// A list with distinct ids denotes a map with as many keys.
proof fn lemma_map_of_len(s: Seq<(Seq<char>, TelemetryPayload)>)
    requires
        distinct_ids(s),
    ensures
        map_of(s).len() == s.len(),
        map_of(s).dom().finite(),
    decreases s.len(),
{
    if s.len() > 0 {
        let p = s.drop_last();
        assert(distinct_ids(p));
        lemma_map_of_len(p);
        assert forall|i: int| 0 <= i < p.len() implies p[i].0 != s.last().0 by {
            assert(s[i].0 != s[s.len() - 1].0);
        }
        lemma_map_of_absent(p, s.last().0);
    }
}

} // verus!
