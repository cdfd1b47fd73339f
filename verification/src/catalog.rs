//! The content store in memory: courses, their units and the classes of the
//! units, with the reads that the workflows make on them.
//!
//! Nothing is cached. Every read goes over the collections as they are.

use crate::object_id::DocId;
use crate::rating::StoredRating;
use crate::store::StoreReply;
use vstd::prelude::*;

verus! {

/// A unit and the course that owns it.
#[derive(Clone, Copy, Debug, PartialEq, Eq, Structural)]
pub struct UnitRef {
    pub id: DocId,
    pub course: DocId,
}

/// A class and the unit that owns it.
#[derive(Clone, Copy, Debug, PartialEq, Eq, Structural)]
pub struct ClassRef {
    pub id: DocId,
    pub unit: DocId,
}

/// What the workflows read and change of a course.
#[derive(Clone, Copy, Debug, PartialEq, Eq, Structural)]
pub struct CourseEntry {
    pub id: DocId,
    pub rating: StoredRating,
    pub inscribed: u64,
}

/// The three collections.
#[derive(Debug)]
pub struct Catalog {
    pub courses: Vec<CourseEntry>,
    pub units: Vec<UnitRef>,
    pub classes: Vec<ClassRef>,
}

/// The id of a unit if it belongs to `course`.
pub open spec fn unit_of_course(course: DocId) -> spec_fn(UnitRef) -> Option<DocId> {
    |u: UnitRef|
        if u.course == course {
            Some(u.id)
        } else {
            None
        }
}

/// Whether a class belongs to one of `units`.
pub open spec fn class_in_units(units: Seq<DocId>) -> spec_fn(ClassRef) -> bool {
    |c: ClassRef| units.contains(c.unit)
}

/// The ids of the units of `course`, in the order of the collection.
pub open spec fn unit_ids_of(units: Seq<UnitRef>, course: DocId) -> Seq<DocId> {
    units.filter_map(unit_of_course(course))
}

/// The number of classes that belong to one of `units`.
pub open spec fn classes_in(classes: Seq<ClassRef>, units: Seq<DocId>) -> nat {
    classes.filter(class_in_units(units)).len()
}

/// Whether a class with the id `class` is among `classes`.
pub open spec fn has_class(classes: Seq<ClassRef>, class: DocId) -> bool {
    exists|i: int| 0 <= i < classes.len() && (#[trigger] classes[i]).id == class
}

/// Whether a course with the id `course` is among `courses`.
pub open spec fn has_course(courses: Seq<CourseEntry>, course: DocId) -> bool {
    exists|i: int| 0 <= i < courses.len() && (#[trigger] courses[i]).id == course
}

/// The place of the course with the id `course`.
pub open spec fn course_place(courses: Seq<CourseEntry>, course: DocId) -> int {
    choose|i: int| 0 <= i < courses.len() && (#[trigger] courses[i]).id == course
}

/// No two courses share an id.
pub open spec fn distinct_courses(courses: Seq<CourseEntry>) -> bool {
    forall|i: int, j: int|
        0 <= i < courses.len() && 0 <= j < courses.len() && i != j ==> (#[trigger] courses[i]).id
            != (#[trigger] courses[j]).id
}

/// The number of classes of `course`: those of its units.
pub open spec fn class_count(units: Seq<UnitRef>, classes: Seq<ClassRef>, course: DocId) -> nat {
    classes_in(classes, unit_ids_of(units, course))
}

/// What adding one to the users inscribed in `course` does to the courses
/// and gives back: `Missing` where there is no such course, `Failed` where
/// the number cannot grow.
pub open spec fn inscribed_added(courses: Seq<CourseEntry>, course: DocId) -> (
    Seq<CourseEntry>,
    StoreReply,
) {
    if !has_course(courses, course) {
        (courses, StoreReply::Missing)
    } else {
        let at = course_place(courses, course);
        if courses[at].inscribed == u64::MAX {
            (courses, StoreReply::Failed)
        } else {
            (
                courses.update(
                    at,
                    CourseEntry { inscribed: (courses[at].inscribed + 1) as u64, ..courses[at] },
                ),
                StoreReply::Done,
            )
        }
    }
}

/// What setting the mean of `course` to `rating_bits` and adding one to the
/// number of its ratings does to the courses and gives back: `Missing` where
/// there is no such course, `Failed` where the number cannot grow.
pub open spec fn rating_set(courses: Seq<CourseEntry>, course: DocId, rating_bits: u32) -> (
    Seq<CourseEntry>,
    StoreReply,
) {
    if !has_course(courses, course) {
        (courses, StoreReply::Missing)
    } else {
        let at = course_place(courses, course);
        if courses[at].rating.total_rates == u64::MAX {
            (courses, StoreReply::Failed)
        } else {
            (
                courses.update(
                    at,
                    CourseEntry {
                        rating: StoredRating {
                            rating_bits: Some(rating_bits),
                            total_rates: (courses[at].rating.total_rates + 1) as u64,
                        },
                        ..courses[at]
                    },
                ),
                StoreReply::Done,
            )
        }
    }
}

/// The rating state of `course`, if there is such a course.
pub open spec fn rating_of_course(courses: Seq<CourseEntry>, course: DocId) -> Option<
    StoredRating,
> {
    if has_course(courses, course) {
        Some(courses[course_place(courses, course)].rating)
    } else {
        None
    }
}

impl Catalog {
    /// No two courses share an id.
    pub open spec fn wf(&self) -> bool {
        distinct_courses(self.courses@)
    }

    /// A catalog without courses.
    pub fn new() -> (c: Catalog)
        ensures
            c.wf(),
            c.courses@.len() == 0,
            c.units@.len() == 0,
            c.classes@.len() == 0,
    {
        Catalog { courses: Vec::new(), units: Vec::new(), classes: Vec::new() }
    }

    /// The place of the course `course`, if it is there.
    pub fn find_course(&self, course: DocId) -> (r: Option<usize>)
        ensures
            r is Some <==> has_course(self.courses@, course),
            r matches Some(i) ==> i < self.courses@.len() && self.courses@[i as int].id == course,
            r matches Some(i) ==> (self.wf() ==> i == course_place(self.courses@, course)),
    {
        let mut i: usize = 0;
        while i < self.courses.len()
            invariant
                i <= self.courses.len(),
                forall|j: int| 0 <= j < i ==> (#[trigger] self.courses@[j]).id != course,
            decreases self.courses.len() - i,
        {
            if self.courses[i].id == course {
                return Some(i);
            }
            i = i + 1;
        }
        None
    }

    /// Whether there is a course with the id `course`.
    pub fn course_exists(&self, course: DocId) -> (found: bool)
        ensures
            found == has_course(self.courses@, course),
    {
        self.find_course(course).is_some()
    }

    /// Whether there is a class with the id `class`, in whatever unit.
    pub fn class_exists(&self, class: DocId) -> (found: bool)
        ensures
            found == has_class(self.classes@, class),
    {
        let mut i: usize = 0;
        while i < self.classes.len()
            invariant
                i <= self.classes.len(),
                forall|j: int| 0 <= j < i ==> (#[trigger] self.classes@[j]).id != class,
            decreases self.classes.len() - i,
        {
            if self.classes[i].id == class {
                return true;
            }
            i = i + 1;
        }
        false
    }

    /// The ids of the units of `course`, in the order of the collection.
    pub fn units_of(&self, course: DocId) -> (ids: Vec<DocId>)
        ensures
            ids@ == unit_ids_of(self.units@, course),
    {
        let mut ids: Vec<DocId> = Vec::new();
        let mut i: usize = 0;
        while i < self.units.len()
            invariant
                i <= self.units.len(),
                ids@ == unit_ids_of(self.units@.subrange(0, i as int), course),
            decreases self.units.len() - i,
        {
            let ghost next = self.units@.subrange(0, i + 1);
            assert(next.drop_last() =~= self.units@.subrange(0, i as int));
            assert(next.last() == self.units@[i as int]);
            if self.units[i].course == course {
                ids.push(self.units[i].id);
            }
            i = i + 1;
        }
        assert(self.units@.subrange(0, self.units@.len() as int) =~= self.units@);
        ids
    }

    /// The number of classes that belong to one of `units`.
    pub fn count_classes_in(&self, units: &Vec<DocId>) -> (n: usize)
        ensures
            n == classes_in(self.classes@, units@),
    {
        let mut n: usize = 0;
        let mut i: usize = 0;
        while i < self.classes.len()
            invariant
                i <= self.classes.len(),
                n <= i,
                n == classes_in(self.classes@.subrange(0, i as int), units@),
            decreases self.classes.len() - i,
        {
            let ghost next = self.classes@.subrange(0, i + 1);
            proof {
                reveal(Seq::filter);
                assert(next.drop_last() =~= self.classes@.subrange(0, i as int));
                assert(next.last() == self.classes@[i as int]);
            }
            if contains_id(units, self.classes[i].unit) {
                n = n + 1;
            }
            i = i + 1;
        }
        assert(self.classes@.subrange(0, self.classes@.len() as int) =~= self.classes@);
        n
    }

    /// The number of classes of `course`: those that belong to one of its
    /// units, as the collections are now.
    pub fn class_count_for_course(&self, course: DocId) -> (n: usize)
        ensures
            n == class_count(self.units@, self.classes@, course),
    {
        let units = self.units_of(course);
        self.count_classes_in(&units)
    }

    /// The rating state of `course`, if there is such a course.
    pub fn course_rating(&self, course: DocId) -> (r: Option<StoredRating>)
        requires
            self.wf(),
        ensures
            r == rating_of_course(self.courses@, course),
    {
        match self.find_course(course) {
            Some(i) => Some(self.courses[i].rating),
            None => None,
        }
    }

    /// Adds one to the users inscribed in `course`.
    pub fn add_inscribed(&mut self, course: DocId) -> (reply: StoreReply)
        requires
            old(self).wf(),
        ensures
            final(self).wf(),
            (final(self).courses@, reply) == inscribed_added(old(self).courses@, course),
            final(self).units@ == old(self).units@,
            final(self).classes@ == old(self).classes@,
    {
        match self.find_course(course) {
            None => StoreReply::Missing,
            Some(i) => {
                let entry = self.courses[i];
                if entry.inscribed == u64::MAX {
                    StoreReply::Failed
                } else {
                    self.courses.set(i, CourseEntry { inscribed: entry.inscribed + 1, ..entry });
                    StoreReply::Done
                }
            },
        }
    }

    /// Sets the mean rating of `course` and adds one to the number of its
    /// ratings.
    pub fn set_course_rating(&mut self, course: DocId, rating_bits: u32) -> (reply: StoreReply)
        requires
            old(self).wf(),
        ensures
            final(self).wf(),
            (final(self).courses@, reply) == rating_set(old(self).courses@, course, rating_bits),
            final(self).units@ == old(self).units@,
            final(self).classes@ == old(self).classes@,
    {
        match self.find_course(course) {
            None => StoreReply::Missing,
            Some(i) => {
                let entry = self.courses[i];
                if entry.rating.total_rates == u64::MAX {
                    StoreReply::Failed
                } else {
                    self.courses.set(
                        i,
                        CourseEntry {
                            rating: StoredRating {
                                rating_bits: Some(rating_bits),
                                total_rates: entry.rating.total_rates + 1,
                            },
                            ..entry
                        },
                    );
                    StoreReply::Done
                }
            },
        }
    }

    /// Adds a course that nobody has rated or joined. Returns whether it was
    /// added: a course whose id is taken is not.
    pub fn add_course(&mut self, id: DocId) -> (added: bool)
        requires
            old(self).wf(),
        ensures
            final(self).wf(),
            added == !has_course(old(self).courses@, id),
            final(self).courses@ == if added {
                old(self).courses@.push(
                    CourseEntry {
                        id,
                        rating: StoredRating { rating_bits: None, total_rates: 0 },
                        inscribed: 0,
                    },
                )
            } else {
                old(self).courses@
            },
            final(self).units@ == old(self).units@,
            final(self).classes@ == old(self).classes@,
    {
        if self.course_exists(id) {
            false
        } else {
            self.courses.push(
                CourseEntry {
                    id,
                    rating: StoredRating { rating_bits: None, total_rates: 0 },
                    inscribed: 0,
                },
            );
            true
        }
    }

    /// Adds a unit to the collection of units.
    pub fn add_unit(&mut self, id: DocId, course: DocId)
        ensures
            final(self).units@ == old(self).units@.push(UnitRef { id, course }),
            final(self).courses@ == old(self).courses@,
            final(self).classes@ == old(self).classes@,
    {
        self.units.push(UnitRef { id, course });
    }

    /// Adds a class to the collection of classes.
    pub fn add_class(&mut self, id: DocId, unit: DocId)
        ensures
            final(self).classes@ == old(self).classes@.push(ClassRef { id, unit }),
            final(self).courses@ == old(self).courses@,
            final(self).units@ == old(self).units@,
    {
        self.classes.push(ClassRef { id, unit });
    }
}

/// Whether `id` is among `ids`.
pub fn contains_id(ids: &Vec<DocId>, id: DocId) -> (found: bool)
    ensures
        found == ids@.contains(id),
{
    let mut i: usize = 0;
    while i < ids.len()
        invariant
            i <= ids.len(),
            forall|j: int| 0 <= j < i ==> ids@[j] != id,
        decreases ids.len() - i,
    {
        if ids[i] == id {
            return true;
        }
        i = i + 1;
    }
    false
}

} // verus!
