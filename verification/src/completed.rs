//! The set of classes that a user has completed in a course.

use crate::object_id::DocId;
use vstd::prelude::*;

verus! {

/// The ids that the texts of `texts` spell. A text that spells no id adds
/// nothing.
pub open spec fn ids_spelled(texts: Seq<String>) -> Set<DocId> {
    Set::new(
        |id: DocId|
            exists|i: int|
                0 <= i < texts.len() && #[trigger] DocId::spelled_by(texts[i]@) == Some(id),
    )
}

/// A set of class ids, kept in the order in which its members first came.
#[derive(Debug)]
pub struct CompletedSet {
    pub ids: Vec<DocId>,
}

impl View for CompletedSet {
    type V = Set<DocId>;

    open spec fn view(&self) -> Set<DocId> {
        self.ids@.to_set()
    }
}

impl CompletedSet {
    /// No id is held twice.
    pub open spec fn wf(&self) -> bool {
        self.ids@.no_duplicates()
    }

    /// A well-formed set is finite and has as many members as `ids` is long.
    pub proof fn lemma_size(&self)
        requires
            self.wf(),
        ensures
            self@.finite(),
            self@.len() == self.ids@.len(),
    {
        self.ids@.unique_seq_to_set();
        vstd::seq_lib::seq_to_set_is_finite(self.ids@);
    }

    /// The empty set.
    pub fn new() -> (s: CompletedSet)
        ensures
            s.wf(),
            s@ == Set::<DocId>::empty(),
            s.ids@ == Seq::<DocId>::empty(),
    {
        let s = CompletedSet { ids: Vec::new() };
        assert(s.ids@.to_set() =~= Set::<DocId>::empty());
        s
    }

    /// Whether `id` is a member.
    pub fn contains(&self, id: DocId) -> (found: bool)
        ensures
            found == self@.contains(id),
    {
        let mut i: usize = 0;
        while i < self.ids.len()
            invariant
                i <= self.ids.len(),
                forall|j: int| 0 <= j < i ==> self.ids@[j] != id,
            decreases self.ids.len() - i,
        {
            if self.ids[i] == id {
                return true;
            }
            i = i + 1;
        }
        false
    }

    /// Adds `id`. Adding a member again changes nothing. Returns whether the
    /// set grew.
    pub fn insert(&mut self, id: DocId) -> (added: bool)
        requires
            old(self).wf(),
        ensures
            final(self).wf(),
            final(self)@ == old(self)@.insert(id),
            added == !old(self)@.contains(id),
            final(self).ids@ == if added {
                old(self).ids@.push(id)
            } else {
                old(self).ids@
            },
    {
        if self.contains(id) {
            assert(self.ids@.to_set().insert(id) =~= self.ids@.to_set());
            false
        } else {
            let ghost before = self.ids@;
            self.ids.push(id);
            proof {
                lemma_push_is_insert(before, id);
            }
            true
        }
    }

    /// The number of members.
    pub fn len(&self) -> (n: usize)
        requires
            self.wf(),
        ensures
            n == self@.len(),
    {
        proof {
            self.lemma_size();
        }
        self.ids.len()
    }

    /// The number of members, each counted once, also where `ids` holds an id
    /// more than once.
    pub fn count(&self) -> (n: usize)
        ensures
            n == self@.len(),
            n <= self.ids@.len(),
    {
        let mut n: usize = 0;
        let mut i: usize = 0;
        proof {
            assert(self.ids@.subrange(0, 0).to_set() =~= Set::<DocId>::empty());
        }
        while i < self.ids.len()
            invariant
                i <= self.ids.len(),
                n <= i,
                n == self.ids@.subrange(0, i as int).to_set().len(),
            decreases self.ids.len() - i,
        {
            let ghost seen = self.ids@.subrange(0, i as int);
            let id = self.ids[i];
            let mut j: usize = 0;
            let mut fresh = true;
            while j < i
                invariant
                    j <= i,
                    i < self.ids.len(),
                    id == self.ids@[i as int],
                    fresh == forall|k: int| 0 <= k < j ==> self.ids@[k] != id,
                decreases i - j,
            {
                if self.ids[j] == id {
                    fresh = false;
                }
                j = j + 1;
            }
            proof {
                assert(self.ids@.subrange(0, i + 1) =~= seen.push(id));
                lemma_push_is_insert(seen, id);
                vstd::seq_lib::seq_to_set_is_finite(seen);
                if fresh {
                    assert(!seen.contains(id)) by {
                        if seen.contains(id) {
                            let k = choose|k: int| 0 <= k < seen.len() && seen[k] == id;
                            assert(self.ids@[k] == id);
                        }
                    }
                } else {
                    let k = choose|k: int| 0 <= k < i && self.ids@[k] == id;
                    assert(seen[k] == id);
                    assert(seen.to_set().contains(id));
                    assert(seen.to_set().insert(id) =~= seen.to_set());
                }
            }
            if fresh {
                n = n + 1;
            }
            i = i + 1;
        }
        assert(self.ids@.subrange(0, self.ids@.len() as int) =~= self.ids@);
        n
    }

    /// A copy of the set.
    pub fn duplicate(&self) -> (copy: CompletedSet)
        ensures
            copy.ids@ == self.ids@,
            copy@ == self@,
            copy.wf() == self.wf(),
    {
        let mut ids: Vec<DocId> = Vec::new();
        let mut i: usize = 0;
        while i < self.ids.len()
            invariant
                i <= self.ids.len(),
                ids@ == self.ids@.subrange(0, i as int),
            decreases self.ids.len() - i,
        {
            ids.push(self.ids[i]);
            assert(ids@ =~= self.ids@.subrange(0, i + 1));
            i = i + 1;
        }
        assert(ids@ =~= self.ids@);
        CompletedSet { ids }
    }

    /// The set of the ids that `texts` spell. A text that is no id is passed
    /// over, and an id that is spelled twice is held once.
    pub fn from_texts(texts: &Vec<String>) -> (s: CompletedSet)
        ensures
            s.wf(),
            s@ == ids_spelled(texts@),
    {
        let mut s = CompletedSet::new();
        let mut i: usize = 0;
        while i < texts.len()
            invariant
                i <= texts.len(),
                s.wf(),
                s@ == ids_spelled(texts@.subrange(0, i as int)),
            decreases texts.len() - i,
        {
            let ghost seen = texts@.subrange(0, i as int);
            let ghost next = texts@.subrange(0, i + 1);
            let parsed = DocId::parse(texts[i].as_str());
            proof {
                assert(forall|j: int| 0 <= j < i ==> seen[j] == next[j]);
                assert(next[i as int] == texts@[i as int]);
            }
            match parsed {
                Some(id) => {
                    s.insert(id);
                    assert(s@ =~= ids_spelled(next)) by {
                        assert forall|x: DocId| ids_spelled(next).contains(x) implies s@.contains(
                            x,
                        ) by {
                            let j = choose|j: int|
                                0 <= j < next.len() && #[trigger] DocId::spelled_by(next[j]@)
                                    == Some(x);
                            if j < i {
                                assert(DocId::spelled_by(seen[j]@) == Some(x));
                            }
                        }
                        assert forall|x: DocId| s@.contains(x) implies ids_spelled(next).contains(
                            x,
                        ) by {
                            if x == id {
                                assert(DocId::spelled_by(next[i as int]@) == Some(x));
                            } else {
                                let j = choose|j: int|
                                    0 <= j < seen.len() && #[trigger] DocId::spelled_by(seen[j]@)
                                        == Some(x);
                                assert(DocId::spelled_by(next[j]@) == Some(x));
                            }
                        }
                    }
                },
                None => {
                    assert(s@ =~= ids_spelled(next)) by {
                        assert forall|x: DocId| ids_spelled(next).contains(x) implies s@.contains(
                            x,
                        ) by {
                            let j = choose|j: int|
                                0 <= j < next.len() && #[trigger] DocId::spelled_by(next[j]@)
                                    == Some(x);
                            assert(j < i);
                            assert(DocId::spelled_by(seen[j]@) == Some(x));
                        }
                        assert forall|x: DocId| s@.contains(x) implies ids_spelled(next).contains(
                            x,
                        ) by {
                            let j = choose|j: int|
                                0 <= j < seen.len() && #[trigger] DocId::spelled_by(seen[j]@)
                                    == Some(x);
                            assert(DocId::spelled_by(next[j]@) == Some(x));
                        }
                    }
                },
            }
            i = i + 1;
        }
        assert(texts@.subrange(0, texts.len() as int) =~= texts@);
        s
    }

    /// The canonical spelling of each member, in the order of `ids`.
    pub fn to_texts(&self) -> (texts: Vec<String>)
        ensures
            texts.len() == self.ids.len(),
            forall|i: int| 0 <= i < texts.len() ==> (#[trigger] texts[i])@ == self.ids[i].hex(),
    {
        let mut texts: Vec<String> = Vec::new();
        let mut i: usize = 0;
        while i < self.ids.len()
            invariant
                i <= self.ids.len(),
                texts.len() == i,
                forall|j: int| 0 <= j < i ==> (#[trigger] texts[j])@ == self.ids[j].hex(),
            decreases self.ids.len() - i,
        {
            texts.push(self.ids[i].to_hex());
            i = i + 1;
        }
        texts
    }
}

/// Appending an element to a sequence adds it to the set of its elements,
/// and keeps the sequence free of repetitions where the element is new.
pub proof fn lemma_push_is_insert<A>(s: Seq<A>, a: A)
    ensures
        s.push(a).to_set() == s.to_set().insert(a),
        s.no_duplicates() && !s.contains(a) ==> s.push(a).no_duplicates(),
{
    assert(s.push(a).to_set() =~= s.to_set().insert(a)) by {
        assert forall|x: A| s.push(a).to_set().contains(x) <==> s.to_set().insert(a).contains(
            x,
        ) by {
            if s.contains(x) {
                let j = choose|j: int| 0 <= j < s.len() && s[j] == x;
                assert(s.push(a)[j] == x);
            }
            if x == a {
                assert(s.push(a)[s.len() as int] == a);
            }
        }
    }
}

} // verus!
