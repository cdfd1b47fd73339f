//! The three stores in memory, and what each call does to them.
//!
//! This is the reference for what the stores are taken to do: the content
//! store with its collections, the progress store with one record for each
//! pair of user and course, and the two places that secondary writes go to,
//! which are written and never read.

use crate::catalog::{
    classes_in, has_class, inscribed_added, rating_of_course, rating_set, unit_ids_of, Catalog,
    ClassRef, CourseEntry, UnitRef,
};
use crate::ledger::Ledger;
use crate::object_id::DocId;
use crate::progress::{ProgressRecord, RecordView};
use crate::store::{StoreCall, StoreReply};
use vstd::prelude::*;

verus! {

/// A rating as the secondary writes hold it.
#[derive(Debug)]
pub struct RatingEdge {
    pub user_email: String,
    pub course: DocId,
    pub rating_bits: u32,
    pub timestamp: String,
}

/// What a rating edge is in mathematical terms.
pub struct EdgeView {
    pub user_email: Seq<char>,
    pub course: DocId,
    pub rating_bits: u32,
    pub timestamp: Seq<char>,
}

impl View for RatingEdge {
    type V = EdgeView;

    open spec fn view(&self) -> EdgeView {
        EdgeView {
            user_email: self.user_email@,
            course: self.course,
            rating_bits: self.rating_bits,
            timestamp: self.timestamp@,
        }
    }
}

/// The stores.
#[derive(Debug)]
pub struct Campus {
    /// The content store.
    pub catalog: Catalog,
    /// The progress store.
    pub ledger: Ledger,
    /// The graph mirror: the edges of ratings.
    pub edges: Vec<RatingEdge>,
    /// The ratings noted in the data of users.
    pub notes: Vec<RatingEdge>,
}

/// What the stores hold, in mathematical terms.
pub struct CampusView {
    pub courses: Seq<CourseEntry>,
    pub units: Seq<UnitRef>,
    pub classes: Seq<ClassRef>,
    pub records: Map<(Seq<char>, DocId), RecordView>,
    pub edges: Seq<EdgeView>,
    pub notes: Seq<EdgeView>,
}

/// The views of the edges of `edges`.
pub open spec fn edge_views(edges: Seq<RatingEdge>) -> Seq<EdgeView> {
    edges.map_values(|e: RatingEdge| e@)
}

impl View for Campus {
    type V = CampusView;

    open spec fn view(&self) -> CampusView {
        CampusView {
            courses: self.catalog.courses@,
            units: self.catalog.units@,
            classes: self.catalog.classes@,
            records: self.ledger@,
            edges: edge_views(self.edges@),
            notes: edge_views(self.notes@),
        }
    }
}

/// What a call must hold for the stores to take it: a record that is
/// written has no completed class twice, a percentage of 100 at most and a
/// valid status.
pub open spec fn acceptable(call: StoreCall) -> bool {
    match call {
        StoreCall::SaveProgress { status, percentage, completed, .. } => {
            &&& completed.wf()
            &&& percentage <= 100
            &&& status.valid()
        },
        _ => true,
    }
}

/// What the stores hold after `call`.
pub open spec fn effect(w: CampusView, call: StoreCall) -> CampusView {
    match call {
        StoreCall::FindClass { .. }
        | StoreCall::ListUnits { .. }
        | StoreCall::CountClasses { .. }
        | StoreCall::FindCourseRating { .. }
        | StoreCall::GetRecord { .. } => w,
        StoreCall::AddInscribed { course } => CampusView {
            courses: inscribed_added(w.courses, course).0,
            ..w
        },
        StoreCall::SetCourseRating { course, rating_bits } => CampusView {
            courses: rating_set(w.courses, course, rating_bits).0,
            ..w
        },
        StoreCall::CreateRecord { user_email, course, timestamp } => CampusView {
            records: w.records.insert(
                (user_email@, course),
                RecordView::enrolled(user_email@, course, timestamp@),
            ),
            ..w
        },
        StoreCall::AddCompleted { user_email, course, class } => if w.records.dom().contains(
            (user_email@, course),
        ) {
            CampusView {
                records: w.records.insert(
                    (user_email@, course),
                    w.records[(user_email@, course)].with_class(class),
                ),
                ..w
            }
        } else {
            w
        },
        StoreCall::SaveProgress {
            user_email,
            course,
            status,
            percentage,
            completed,
            timestamp,
        } => CampusView {
            records: w.records.insert(
                (user_email@, course),
                RecordView {
                    user_email: user_email@,
                    course,
                    status,
                    completed: completed@,
                    percentage: percentage as nat,
                    timestamp: timestamp@,
                },
            ),
            ..w
        },
        StoreCall::DeleteRecord { user_email, course } => CampusView {
            records: w.records.remove((user_email@, course)),
            ..w
        },
        StoreCall::MirrorRating { user_email, course, rating_bits, timestamp } => CampusView {
            edges: w.edges.push(
                EdgeView { user_email: user_email@, course, rating_bits, timestamp: timestamp@ },
            ),
            ..w
        },
        StoreCall::NoteRating {
            user_email,
            course,
            rating_bits,
            timestamp,
        } => if w.records.dom().contains((user_email@, course)) {
            CampusView {
                notes: w.notes.push(
                    EdgeView {
                        user_email: user_email@,
                        course,
                        rating_bits,
                        timestamp: timestamp@,
                    },
                ),
                ..w
            }
        } else {
            w
        },
    }
}

/// Whether `reply` is what the stores that hold `w` give back to `call`.
/// The stores in memory never fail but where a number cannot grow.
pub open spec fn replied(w: CampusView, call: StoreCall, reply: StoreReply) -> bool {
    match call {
        StoreCall::FindClass { class } => reply == StoreReply::Found(has_class(w.classes, class)),
        StoreCall::ListUnits { course } => reply matches StoreReply::Units(ids) && ids@
            == unit_ids_of(w.units, course),
        StoreCall::CountClasses { units } => reply matches StoreReply::Count(n) && n == classes_in(
            w.classes,
            units@,
        ),
        StoreCall::AddInscribed { course } => reply == inscribed_added(w.courses, course).1,
        StoreCall::FindCourseRating { course } => reply == StoreReply::CourseRating(
            rating_of_course(w.courses, course),
        ),
        StoreCall::SetCourseRating { course, rating_bits } => reply == rating_set(
            w.courses,
            course,
            rating_bits,
        ).1,
        StoreCall::GetRecord { user_email, course } => {
            &&& reply matches StoreReply::Record(found)
            &&& found is Some <==> w.records.dom().contains((user_email@, course))
            &&& found matches Some(completed) ==> completed@ == w.records[(
                user_email@,
                course,
            )].completed && completed.wf()
        },
        StoreCall::AddCompleted { user_email, course, .. }
        | StoreCall::NoteRating { user_email, course, .. } => reply == if w.records.dom().contains(
            (user_email@, course),
        ) {
            StoreReply::Done
        } else {
            StoreReply::Missing
        },
        StoreCall::DeleteRecord { user_email, course } => reply == if w.records.dom().contains(
            (user_email@, course),
        ) {
            StoreReply::Done
        } else {
            StoreReply::Missing
        },
        StoreCall::CreateRecord { .. }
        | StoreCall::SaveProgress { .. }
        | StoreCall::MirrorRating { .. } => reply == StoreReply::Done,
    }
}

impl Campus {
    /// Both stores are well formed.
    pub open spec fn wf(&self) -> bool {
        self.catalog.wf() && self.ledger.wf()
    }

    /// Stores that hold nothing.
    pub fn new() -> (c: Campus)
        ensures
            c.wf(),
            c@.courses.len() == 0,
            c@.units.len() == 0,
            c@.classes.len() == 0,
            c@.records == Map::<(Seq<char>, DocId), RecordView>::empty(),
            c@.edges.len() == 0,
            c@.notes.len() == 0,
    {
        Campus {
            catalog: Catalog::new(),
            ledger: Ledger::new(),
            edges: Vec::new(),
            notes: Vec::new(),
        }
    }

    /// Performs `call` on the stores and gives the reply.
    pub fn perform(&mut self, call: StoreCall) -> (reply: StoreReply)
        requires
            old(self).wf(),
            acceptable(call),
        ensures
            final(self).wf(),
            final(self)@ == effect(old(self)@, call),
            replied(old(self)@, call, reply),
    {
        match call {
            StoreCall::FindClass { class } => StoreReply::Found(self.catalog.class_exists(class)),
            StoreCall::ListUnits { course } => StoreReply::Units(self.catalog.units_of(course)),
            StoreCall::CountClasses { units } => {
                let n: usize = self.catalog.count_classes_in(&units);
                StoreReply::Count(n as u64)
            },
            StoreCall::AddInscribed { course } => self.catalog.add_inscribed(course),
            StoreCall::FindCourseRating { course } => StoreReply::CourseRating(
                self.catalog.course_rating(course),
            ),
            StoreCall::SetCourseRating { course, rating_bits } => self.catalog.set_course_rating(
                course,
                rating_bits,
            ),
            StoreCall::GetRecord { user_email, course } => match self.ledger.get(
                &user_email,
                course,
            ) {
                Some(record) => StoreReply::Record(Some(record.completed)),
                None => StoreReply::Record(None),
            },
            StoreCall::CreateRecord { user_email, course, timestamp } => {
                self.ledger.put(ProgressRecord::enrolled(user_email, course, timestamp));
                StoreReply::Done
            },
            StoreCall::AddCompleted { user_email, course, class } => {
                if self.ledger.add_completed(&user_email, course, class) {
                    StoreReply::Done
                } else {
                    StoreReply::Missing
                }
            },
            StoreCall::SaveProgress {
                user_email,
                course,
                status,
                percentage,
                completed,
                timestamp,
            } => {
                self.ledger.put(
                    ProgressRecord { user_email, course, status, completed, percentage, timestamp },
                );
                StoreReply::Done
            },
            StoreCall::DeleteRecord { user_email, course } => {
                if self.ledger.remove(&user_email, course) {
                    StoreReply::Done
                } else {
                    StoreReply::Missing
                }
            },
            StoreCall::MirrorRating { user_email, course, rating_bits, timestamp } => {
                let ghost before = self.edges@;
                self.edges.push(RatingEdge { user_email, course, rating_bits, timestamp });
                assert(edge_views(self.edges@) =~= edge_views(before).push(
                    EdgeView {
                        user_email: user_email@,
                        course,
                        rating_bits,
                        timestamp: timestamp@,
                    },
                ));
                StoreReply::Done
            },
            StoreCall::NoteRating { user_email, course, rating_bits, timestamp } => {
                if self.ledger.find(&user_email, course).is_none() {
                    return StoreReply::Missing;
                }
                let ghost before = self.notes@;
                self.notes.push(RatingEdge { user_email, course, rating_bits, timestamp });
                assert(edge_views(self.notes@) =~= edge_views(before).push(
                    EdgeView {
                        user_email: user_email@,
                        course,
                        rating_bits,
                        timestamp: timestamp@,
                    },
                ));
                StoreReply::Done
            },
        }
    }
}

} // verus!
