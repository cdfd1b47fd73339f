//! The progress store in memory: one record for each pair of user and
//! course, with get, put, the adding of a class to a record, and delete.

use crate::object_id::DocId;
use crate::progress::{ProgressRecord, RecordView};
use vstd::prelude::*;

verus! {

/// Whether one of `records` is found by `key`.
pub open spec fn holds(records: Seq<ProgressRecord>, key: (Seq<char>, DocId)) -> bool {
    exists|i: int| 0 <= i < records.len() && (#[trigger] records[i])@.key() == key
}

/// The place of the record that is found by `key`.
pub open spec fn place_of(records: Seq<ProgressRecord>, key: (Seq<char>, DocId)) -> int {
    choose|i: int| 0 <= i < records.len() && (#[trigger] records[i])@.key() == key
}

/// No two records are found by the same key.
pub open spec fn distinct_keys(records: Seq<ProgressRecord>) -> bool {
    forall|i: int, j: int|
        0 <= i < records.len() && 0 <= j < records.len() && i != j ==> (#[trigger] records[i])@.key()
            != (#[trigger] records[j])@.key()
}

/// The records of all users.
#[derive(Debug)]
pub struct Ledger {
    pub records: Vec<ProgressRecord>,
}

impl View for Ledger {
    type V = Map<(Seq<char>, DocId), RecordView>;

    open spec fn view(&self) -> Map<(Seq<char>, DocId), RecordView> {
        Map::new(
            |key: (Seq<char>, DocId)| holds(self.records@, key),
            |key: (Seq<char>, DocId)| self.records@[place_of(self.records@, key)]@,
        )
    }
}

impl Ledger {
    /// There is one record at most for each pair of user and course, and
    /// every record is well formed.
    pub open spec fn wf(&self) -> bool {
        &&& distinct_keys(self.records@)
        &&& forall|i: int| 0 <= i < self.records@.len() ==> (#[trigger] self.records@[i]).wf()
    }

    /// In a well-formed ledger a record is found by its key, at its place.
    pub proof fn lemma_place(&self, i: int)
        requires
            self.wf(),
            0 <= i < self.records@.len(),
        ensures
            holds(self.records@, self.records@[i]@.key()),
            place_of(self.records@, self.records@[i]@.key()) == i,
            self@.dom().contains(self.records@[i]@.key()),
            self@[self.records@[i]@.key()] == self.records@[i]@,
    {
    }

    /// An empty ledger.
    pub fn new() -> (l: Ledger)
        ensures
            l.wf(),
            l@ == Map::<(Seq<char>, DocId), RecordView>::empty(),
    {
        let l = Ledger { records: Vec::new() };
        assert(l@ =~= Map::<(Seq<char>, DocId), RecordView>::empty());
        l
    }

    /// The place of the record of `user_email` in `course`, if there is one.
    pub fn find(&self, user_email: &String, course: DocId) -> (r: Option<usize>)
        ensures
            r is Some <==> holds(self.records@, (user_email@, course)),
            r matches Some(i) ==> i < self.records@.len() && self.records@[i as int]@.key() == (
                user_email@,
                course,
            ),
    {
        let mut i: usize = 0;
        while i < self.records.len()
            invariant
                i <= self.records.len(),
                forall|j: int|
                    0 <= j < i ==> (#[trigger] self.records@[j])@.key() != (user_email@, course),
            decreases self.records.len() - i,
        {
            if self.records[i].is_for(user_email, course) {
                return Some(i);
            }
            i = i + 1;
        }
        None
    }

    /// The record of `user_email` in `course`, if there is one.
    pub fn get(&self, user_email: &String, course: DocId) -> (r: Option<ProgressRecord>)
        requires
            self.wf(),
        ensures
            r is Some <==> self@.dom().contains((user_email@, course)),
            r matches Some(record) ==> record@ == self@[(user_email@, course)] && record.wf(),
    {
        match self.find(user_email, course) {
            Some(i) => {
                proof {
                    self.lemma_place(i as int);
                }
                Some(self.records[i].duplicate())
            },
            None => None,
        }
    }

    /// Writes `record` in the place of the record with its key, or as a new
    /// record where there is none. Writing the same record again changes
    /// nothing.
    pub fn put(&mut self, record: ProgressRecord)
        requires
            old(self).wf(),
            record.wf(),
        ensures
            final(self).wf(),
            final(self)@ == old(self)@.insert(record@.key(), record@),
    {
        let ghost before = self.records@;
        let ghost key = record@.key();
        let ghost view = record@;
        match self.find(&record.user_email, record.course) {
            Some(i) => {
                self.records.set(i, record);
                proof {
                    let after = self.records@;
                    assert forall|j: int| 0 <= j < after.len() implies (#[trigger] after[j])@.key()
                        == before[j]@.key() by {}
                    assert(distinct_keys(after));
                    assert forall|k: (Seq<char>, DocId)| holds(after, k) == holds(before, k) by {
                        if holds(before, k) {
                            let j = place_of(before, k);
                            assert(after[j]@.key() == k);
                        }
                        if holds(after, k) {
                            let j = place_of(after, k);
                            assert(before[j]@.key() == k);
                        }
                    }
                    assert forall|k: (Seq<char>, DocId)| holds(after, k) implies after[place_of(
                        after,
                        k,
                    )]@ == (if k == key {
                        view
                    } else {
                        before[place_of(before, k)]@
                    }) by {
                        let j = place_of(after, k);
                        let b = place_of(before, k);
                        assert(before[j]@.key() == k);
                        assert(j == b);
                    }
                    assert(self@ =~= old(self)@.insert(key, view));
                }
            },
            None => {
                self.records.push(record);
                proof {
                    let after = self.records@;
                    let n = before.len() as int;
                    assert forall|j: int| 0 <= j < n implies (#[trigger] after[j]) == before[j] by {}
                    assert(after[n]@ == view);
                    assert(distinct_keys(after));
                    assert forall|k: (Seq<char>, DocId)| holds(after, k) == (holds(before, k) || k
                        == key) by {
                        if holds(before, k) {
                            let j = place_of(before, k);
                            assert(after[j]@.key() == k);
                        }
                        if k == key {
                            assert(after[n]@.key() == k);
                        }
                    }
                    assert forall|k: (Seq<char>, DocId)| holds(after, k) implies after[place_of(
                        after,
                        k,
                    )]@ == (if k == key {
                        view
                    } else {
                        before[place_of(before, k)]@
                    }) by {
                        let j = place_of(after, k);
                        if k == key {
                            assert(after[n]@.key() == k);
                            assert(j == n);
                        } else {
                            let b = place_of(before, k);
                            assert(after[b]@.key() == k);
                            assert(j == b);
                        }
                    }
                    assert(self@ =~= old(self)@.insert(key, view));
                }
            },
        }
    }

    /// Adds `class` to the completed classes of the record of `user_email`
    /// in `course`, and tells whether there is such a record. A class that
    /// is there already is not added again; nothing else of the record
    /// changes. Where there is no record, none is made.
    pub fn add_completed(&mut self, user_email: &String, course: DocId, class: DocId) -> (found:
        bool)
        requires
            old(self).wf(),
        ensures
            final(self).wf(),
            found == old(self)@.dom().contains((user_email@, course)),
            final(self)@ == if found {
                old(self)@.insert(
                    (user_email@, course),
                    old(self)@[(user_email@, course)].with_class(class),
                )
            } else {
                old(self)@
            },
    {
        match self.get(user_email, course) {
            Some(record) => {
                let mut record = record;
                record.mark_completed(class);
                self.put(record);
                true
            },
            None => false,
        }
    }

    /// Deletes the record of `user_email` in `course`, and tells whether
    /// there was one.
    pub fn remove(&mut self, user_email: &String, course: DocId) -> (found: bool)
        requires
            old(self).wf(),
        ensures
            final(self).wf(),
            found == old(self)@.dom().contains((user_email@, course)),
            final(self)@ == old(self)@.remove((user_email@, course)),
    {
        let ghost before = self.records@;
        let ghost key = (user_email@, course);
        match self.find(user_email, course) {
            Some(i) => {
                self.records.remove(i);
                proof {
                    let after = self.records@;
                    let at = i as int;
                    assert forall|j: int| 0 <= j < after.len() implies (#[trigger] after[j]) == (if j
                        < at {
                        before[j]
                    } else {
                        before[j + 1]
                    }) by {}
                    assert(distinct_keys(after)) by {
                        assert forall|a: int, b: int|
                            0 <= a < after.len() && 0 <= b < after.len() && a
                                != b implies (#[trigger] after[a])@.key() != (
                        #[trigger] after[b])@.key() by {
                            let a0 = if a < at {
                                a
                            } else {
                                a + 1
                            };
                            let b0 = if b < at {
                                b
                            } else {
                                b + 1
                            };
                            assert(before[a0]@.key() != before[b0]@.key());
                        }
                    }
                    assert forall|k: (Seq<char>, DocId)| holds(after, k) == (holds(before, k) && k
                        != key) by {
                        if holds(before, k) && k != key {
                            let j = place_of(before, k);
                            assert(j != at);
                            let j1 = if j < at {
                                j
                            } else {
                                j - 1
                            };
                            assert(after[j1]@.key() == k);
                        }
                        if holds(after, k) {
                            let j = place_of(after, k);
                            let j0 = if j < at {
                                j
                            } else {
                                j + 1
                            };
                            assert(before[j0]@.key() == k);
                            assert(before[at]@.key() == key);
                        }
                    }
                    assert forall|k: (Seq<char>, DocId)| holds(after, k) implies after[place_of(
                        after,
                        k,
                    )]@ == before[place_of(before, k)]@ by {
                        let j = place_of(after, k);
                        let j0 = if j < at {
                            j
                        } else {
                            j + 1
                        };
                        assert(before[j0]@.key() == k);
                        assert(place_of(before, k) == j0);
                    }
                    assert(self@ =~= old(self)@.remove(key));
                }
                true
            },
            None => {
                assert(self@ =~= old(self)@.remove(key));
                false
            },
        }
    }
}

} // verus!
