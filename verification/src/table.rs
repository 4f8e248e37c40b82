//! The set of current activities, keyed by activity identifier.
use vstd::prelude::*;

use crate::model::{IslandActivity, IslandActivityView};

verus! {

/// An activity together with the order in which it was added.
#[derive(Debug)]
pub struct ActivityRecord {
    pub activity: IslandActivity,
    pub created_order: u64,
}

pub struct ActivityRecordView {
    pub activity: IslandActivityView,
    pub created_order: u64,
}

impl View for ActivityRecord {
    type V = ActivityRecordView;

    open spec fn view(&self) -> ActivityRecordView {
        ActivityRecordView { activity: self.activity@, created_order: self.created_order }
    }
}

impl Clone for ActivityRecord {
    fn clone(&self) -> (r: Self)
        ensures
            r@ == self@,
    {
        ActivityRecord { activity: self.activity.clone(), created_order: self.created_order }
    }
}

pub open spec fn records_view(s: Seq<ActivityRecord>) -> Seq<ActivityRecordView> {
    s.map_values(|r: ActivityRecord| r@)
}

/// No two records share an activity identifier.
pub open spec fn distinct_ids(s: Seq<ActivityRecordView>) -> bool {
    forall|i: int, j: int|
        0 <= i < s.len() && 0 <= j < s.len() && i != j ==> #[trigger] s[i].activity.id
            != #[trigger] s[j].activity.id
}

/// Whether some record of `s` has identifier `k`.
pub open spec fn has_id(s: Seq<ActivityRecordView>, k: Seq<char>) -> bool {
    exists|i: int| 0 <= i < s.len() && (#[trigger] s[i]).activity.id == k
}

/// The records of `s` keyed by their activity identifiers.
pub open spec fn records_map(s: Seq<ActivityRecordView>) -> Map<Seq<char>, ActivityRecordView>
    decreases s.len(),
{
    if s.len() == 0 {
        Map::empty()
    } else {
        records_map(s.drop_last()).insert(s.last().activity.id, s.last())
    }
}

/// The keyed map of a sequence of records: its keys are the identifiers of
/// the records, and, where identifiers are distinct, it has one entry per
/// record, which maps the record's identifier to the record.
pub proof fn lemma_records_map(s: Seq<ActivityRecordView>)
    ensures
        records_map(s).dom().finite(),
        forall|k: Seq<char>| #[trigger] records_map(s).contains_key(k) <==> has_id(s, k),
        forall|k: Seq<char>|
            #[trigger] records_map(s).contains_key(k) ==> records_map(s)[k].activity.id == k,
        distinct_ids(s) ==> records_map(s).len() == s.len(),
        distinct_ids(s) ==> forall|i: int|
            0 <= i < s.len() ==> records_map(s)[#[trigger] s[i].activity.id] == s[i],
    decreases s.len(),
{
    if s.len() > 0 {
        let p = s.drop_last();
        lemma_records_map(p);
        let last = s.last();
        assert forall|k: Seq<char>| #[trigger] records_map(s).contains_key(k) <==> has_id(s, k) by {
            if has_id(s, k) {
                let i = choose|i: int| 0 <= i < s.len() && (#[trigger] s[i]).activity.id == k;
                if i < s.len() - 1 {
                    assert(p[i] == s[i]);
                    assert(has_id(p, k));
                }
            }
            if has_id(p, k) {
                let i = choose|i: int| 0 <= i < p.len() && (#[trigger] p[i]).activity.id == k;
                assert(s[i] == p[i]);
            }
            if k == last.activity.id {
                assert(s[s.len() - 1] == last);
            }
        }
        if distinct_ids(s) {
            assert(distinct_ids(p)) by {
                assert forall|i: int, j: int|
                    0 <= i < p.len() && 0 <= j < p.len() && i != j implies #[trigger] p[i].activity.id
                    != #[trigger] p[j].activity.id by {
                    assert(p[i] == s[i] && p[j] == s[j]);
                }
            }
            assert(!has_id(p, last.activity.id)) by {
                if has_id(p, last.activity.id) {
                    let i = choose|i: int|
                        0 <= i < p.len() && (#[trigger] p[i]).activity.id == last.activity.id;
                    assert(s[i] == p[i]);
                    assert(s[s.len() - 1] == last);
                }
            }
            assert forall|i: int| 0 <= i < s.len() implies records_map(s)[#[trigger] s[i].activity.id]
                == s[i] by {
                if i < s.len() - 1 {
                    assert(s[i] == p[i]);
                    assert(s[s.len() - 1] == last);
                    assert(s[i].activity.id != last.activity.id);
                }
            }
        }
    }
}

/// Replacing a record by one with the same identifier replaces the entry.
pub proof fn lemma_records_map_update(s: Seq<ActivityRecordView>, i: int, r: ActivityRecordView)
    requires
        distinct_ids(s),
        0 <= i < s.len(),
        r.activity.id == s[i].activity.id,
    ensures
        distinct_ids(s.update(i, r)),
        records_map(s.update(i, r)) == records_map(s).insert(r.activity.id, r),
{
    let t = s.update(i, r);
    assert forall|a: int, b: int|
        0 <= a < t.len() && 0 <= b < t.len() && a != b implies #[trigger] t[a].activity.id
        != #[trigger] t[b].activity.id by {
        assert(s[a].activity.id == t[a].activity.id);
        assert(s[b].activity.id == t[b].activity.id);
    }
    lemma_records_map(s);
    lemma_records_map(t);
    let m = records_map(s).insert(r.activity.id, r);
    assert forall|k: Seq<char>| #[trigger] records_map(t).contains_key(k) <==> m.contains_key(k) by {
        if has_id(t, k) {
            let j = choose|j: int| 0 <= j < t.len() && (#[trigger] t[j]).activity.id == k;
            assert(s[j].activity.id == k);
        }
        if has_id(s, k) {
            let j = choose|j: int| 0 <= j < s.len() && (#[trigger] s[j]).activity.id == k;
            assert(t[j].activity.id == k);
        }
        if k == r.activity.id {
            assert(t[i].activity.id == k);
        }
    }
    assert forall|k: Seq<char>| #[trigger] records_map(t).contains_key(k) implies records_map(t)[k]
        == m[k] by {
        let j = choose|j: int| 0 <= j < t.len() && (#[trigger] t[j]).activity.id == k;
        assert(records_map(t)[t[j].activity.id] == t[j]);
        if j != i {
            assert(records_map(s)[s[j].activity.id] == s[j]);
        }
    }
    assert(records_map(t) =~= m);
}

/// Appending a record whose identifier is new adds an entry.
pub proof fn lemma_records_map_push(s: Seq<ActivityRecordView>, r: ActivityRecordView)
    requires
        distinct_ids(s),
        !has_id(s, r.activity.id),
    ensures
        distinct_ids(s.push(r)),
        records_map(s.push(r)) == records_map(s).insert(r.activity.id, r),
{
    let t = s.push(r);
    assert(t.drop_last() =~= s);
    assert forall|a: int, b: int|
        0 <= a < t.len() && 0 <= b < t.len() && a != b implies #[trigger] t[a].activity.id
        != #[trigger] t[b].activity.id by {
        if a == s.len() {
            assert(t[b] == s[b]);
        } else if b == s.len() {
            assert(t[a] == s[a]);
        } else {
            assert(t[a] == s[a] && t[b] == s[b]);
        }
    }
}

/// Removing a record removes its entry.
pub proof fn lemma_records_map_remove(s: Seq<ActivityRecordView>, i: int)
    requires
        distinct_ids(s),
        0 <= i < s.len(),
    ensures
        distinct_ids(s.remove(i)),
        records_map(s.remove(i)) == records_map(s).remove(s[i].activity.id),
{
    let t = s.remove(i);
    let key = s[i].activity.id;
    assert forall|a: int, b: int|
        0 <= a < t.len() && 0 <= b < t.len() && a != b implies #[trigger] t[a].activity.id
        != #[trigger] t[b].activity.id by {
        let sa = if a < i { a } else { a + 1 };
        let sb = if b < i { b } else { b + 1 };
        assert(t[a] == s[sa] && t[b] == s[sb]);
    }
    lemma_records_map(s);
    lemma_records_map(t);
    let m = records_map(s).remove(key);
    assert forall|k: Seq<char>| #[trigger] records_map(t).contains_key(k) <==> m.contains_key(k) by {
        if has_id(t, k) {
            let j = choose|j: int| 0 <= j < t.len() && (#[trigger] t[j]).activity.id == k;
            let sj = if j < i { j } else { j + 1 };
            assert(t[j] == s[sj]);
            assert(sj != i);
        }
        if has_id(s, k) && k != key {
            let j = choose|j: int| 0 <= j < s.len() && (#[trigger] s[j]).activity.id == k;
            assert(j != i);
            let tj = if j < i { j } else { j - 1 };
            assert(t[tj] == s[j]);
        }
    }
    assert forall|k: Seq<char>| #[trigger] records_map(t).contains_key(k) implies records_map(t)[k]
        == m[k] by {
        let j = choose|j: int| 0 <= j < t.len() && (#[trigger] t[j]).activity.id == k;
        let sj = if j < i { j } else { j + 1 };
        assert(t[j] == s[sj]);
        assert(records_map(t)[t[j].activity.id] == t[j]);
        assert(records_map(s)[s[sj].activity.id] == s[sj]);
    }
    assert(records_map(t) =~= m);
}

/// The current activities, one record per identifier.
#[derive(Debug)]
pub struct ActivityTable {
    entries: Vec<ActivityRecord>,
}

impl ActivityTable {
    #[verifier::type_invariant]
    spec fn well_formed(self) -> bool {
        distinct_ids(records_view(self.entries@))
    }

    /// The records, one per identifier.
    spec fn records(&self) -> Seq<ActivityRecordView> {
        records_view(self.entries@)
    }

    /// The table is finite, and each record is filed under its own
    /// activity identifier.
    pub proof fn lemma_filed_by_id(&self)
        ensures
            self@.dom().finite(),
            forall|k: Seq<char>| #[trigger] self@.contains_key(k) ==> self@[k].activity.id == k,
    {
        lemma_records_map(self.records());
    }

    /// An empty table.
    pub fn new() -> (r: Self)
        ensures
            r@ == Map::<Seq<char>, ActivityRecordView>::empty(),
    {
        let r = ActivityTable { entries: Vec::new() };
        assert(records_view(r.entries@) =~= Seq::<ActivityRecordView>::empty());
        r
    }

    /// The number of activities.
    pub fn len(&self) -> (r: usize)
        ensures
            r == self@.len(),
    {
        proof {
            use_type_invariant(self);
            lemma_records_map(self.records());
        }
        self.entries.len()
    }

    /// Whether there is no activity.
    pub fn is_empty(&self) -> (r: bool)
        ensures
            r == (self@.len() == 0),
            r == (self@ == Map::<Seq<char>, ActivityRecordView>::empty()),
    {
        proof {
            use_type_invariant(self);
            lemma_records_map(self.records());
            if self@.len() == 0 {
                assert(self@.dom() =~= Set::<Seq<char>>::empty());
                assert(self@ =~= Map::<Seq<char>, ActivityRecordView>::empty());
            }
        }
        self.entries.len() == 0
    }

    /// The index of the record with identifier `id`, if there is one.
    fn position(&self, id: &String) -> (r: Option<usize>)
        ensures
            match r {
                Some(i) => i < self.entries@.len() && self.entries@[i as int].activity.id@ == id@,
                None => !has_id(self.records(), id@),
            },
    {
        let mut i: usize = 0;
        while i < self.entries.len()
            invariant
                i <= self.entries@.len(),
                forall|j: int| 0 <= j < i ==> (#[trigger] self.entries@[j]).activity.id@ != id@,
            decreases self.entries.len() - i,
        {
            if self.entries[i].activity.id == *id {
                return Some(i);
            }
            i = i + 1;
        }
        proof {
            if has_id(self.records(), id@) {
                let j = choose|j: int|
                    0 <= j < self.records().len() && (#[trigger] self.records()[j]).activity.id
                        == id@;
                assert(self.records()[j] == self.entries@[j]@);
            }
        }
        None
    }

    /// Whether there is an activity with identifier `id`.
    pub fn contains_key(&self, id: &str) -> (r: bool)
        ensures
            r == self@.contains_key(id@),
    {
        let key = String::from_str(id);
        self.contains_id(&key)
    }

    /// Whether there is an activity with identifier `id`.
    pub fn contains_id(&self, id: &String) -> (r: bool)
        ensures
            r == self@.contains_key(id@),
    {
        proof {
            lemma_records_map(self.records());
        }
        match self.position(id) {
            Some(i) => {
                assert(self.records()[i as int].activity.id == id@);
                true
            },
            None => false,
        }
    }

    /// The record with identifier `id`, if there is one.
    pub fn get(&self, id: &str) -> (r: Option<&ActivityRecord>)
        ensures
            match r {
                Some(rec) => self@.contains_key(id@) && self@[id@] == rec@,
                None => !self@.contains_key(id@),
            },
    {
        let key = String::from_str(id);
        self.get_by_id(&key)
    }

    /// The record with identifier `id`, if there is one.
    pub fn get_by_id(&self, id: &String) -> (r: Option<&ActivityRecord>)
        ensures
            match r {
                Some(rec) => self@.contains_key(id@) && self@[id@] == rec@,
                None => !self@.contains_key(id@),
            },
    {
        proof {
            use_type_invariant(self);
            lemma_records_map(self.records());
        }
        match self.position(id) {
            Some(i) => {
                assert(self.records()[i as int] == self.entries@[i as int]@);
                Some(&self.entries[i])
            },
            None => None,
        }
    }

    /// Adds `record` under its activity's identifier, replacing any record
    /// with that identifier.
    pub fn insert(&mut self, record: ActivityRecord)
        ensures
            final(self)@ == old(self)@.insert(record.activity.id@, record@),
    {
        proof {
            use_type_invariant(&*self);
        }
        let ghost before = self.records();
        let ghost rv = record@;
        match self.position(&record.activity.id) {
            Some(i) => {
                proof {
                    assert(before[i as int].activity.id == rv.activity.id);
                    lemma_records_map_update(before, i as int, rv);
                }
                let mut entries: Vec<ActivityRecord> = Vec::new();
                std::mem::swap(&mut entries, &mut self.entries);
                entries.set(i, record);
                assert(records_view(entries@) =~= before.update(i as int, rv));
                self.entries = entries;
            },
            None => {
                proof {
                    lemma_records_map_push(before, rv);
                }
                let mut entries: Vec<ActivityRecord> = Vec::new();
                std::mem::swap(&mut entries, &mut self.entries);
                entries.push(record);
                assert(records_view(entries@) =~= before.push(rv));
                self.entries = entries;
            },
        }
    }

    /// Removes the record with identifier `id` and hands it back, if there
    /// is one.
    pub fn remove(&mut self, id: &str) -> (r: Option<ActivityRecord>)
        ensures
            final(self)@ == old(self)@.remove(id@),
            r is None ==> final(self)@ == old(self)@,
            match r {
                Some(rec) => old(self)@.contains_key(id@) && old(self)@[id@] == rec@,
                None => !old(self)@.contains_key(id@),
            },
    {
        let key = String::from_str(id);
        self.remove_id(&key)
    }

    /// Removes the record with identifier `id` and hands it back, if there
    /// is one.
    pub fn remove_id(&mut self, id: &String) -> (r: Option<ActivityRecord>)
        ensures
            final(self)@ == old(self)@.remove(id@),
            r is None ==> final(self)@ == old(self)@,
            match r {
                Some(rec) => old(self)@.contains_key(id@) && old(self)@[id@] == rec@,
                None => !old(self)@.contains_key(id@),
            },
    {
        proof {
            use_type_invariant(&*self);
            lemma_records_map(self.records());
        }
        let ghost before = self.records();
        match self.position(id) {
            Some(i) => {
                proof {
                    lemma_records_map_remove(before, i as int);
                    assert(before[i as int] == self.entries@[i as int]@);
                }
                let mut entries: Vec<ActivityRecord> = Vec::new();
                std::mem::swap(&mut entries, &mut self.entries);
                let rec = entries.remove(i);
                assert(records_view(entries@) =~= before.remove(i as int));
                self.entries = entries;
                Some(rec)
            },
            None => {
                assert(records_map(before).remove(id@) =~= records_map(before));
                None
            },
        }
    }

    /// Removes every record.
    pub fn clear(&mut self)
        ensures
            final(self)@ == Map::<Seq<char>, ActivityRecordView>::empty(),
    {
        self.entries = Vec::new();
        assert(records_view(self.entries@) =~= Seq::<ActivityRecordView>::empty());
    }

    /// The records, in no particular order, one per identifier.
    pub fn records_in_order(&self) -> (r: &Vec<ActivityRecord>)
        ensures
            distinct_ids(records_view(r@)),
            records_map(records_view(r@)) == self@,
            forall|k: Seq<char>| #[trigger] self@.contains_key(k) ==> self@[k].activity.id == k,
    {
        proof {
            use_type_invariant(self);
            lemma_records_map(self.records());
        }
        &self.entries
    }
}

impl View for ActivityTable {
    type V = Map<Seq<char>, ActivityRecordView>;

    closed spec fn view(&self) -> Map<Seq<char>, ActivityRecordView> {
        records_map(records_view(self.entries@))
    }
}

} // verus!
