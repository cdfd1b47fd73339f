//! What holds of the workflows whatever the stores hold.

use crate::appraisal::RatingSink;
use crate::campus::CampusView;
use crate::catalog::class_count;
use crate::error::WorkflowError;
use crate::object_id::DocId;
use crate::progress::{lemma_percentage_bound, percentage_of, RecordView, Status};
use crate::rating::rating_of_bits;
use crate::service::{
    class_completed, course_rated, registered, status_restated, unregistered,
};
use crate::store::Success;
use vstd::prelude::*;

verus! {

/// After a class was completed, the percentage on record is the share of
/// the completed classes in the classes that the course has, rounded and
/// capped at 100; the status is `Completed` exactly at 100 percent and
/// `InProgress` with that percentage below; and the run reports what is on
/// record.
pub proof fn lemma_completion_derives_percentage(
    w: CampusView,
    user_email: Seq<char>,
    course_id: Seq<char>,
    class_id: Seq<char>,
    now: Seq<char>,
)
    ensures
        ({
            let (after, outcome) = class_completed(w, user_email, course_id, class_id, now);
            outcome is Ok ==> {
                let course = DocId::spelled_by(course_id)->0;
                let class = DocId::spelled_by(class_id)->0;
                let record = after.records[(user_email, course)];
                let total = class_count(after.units, after.classes, course);
                &&& after.records.dom().contains((user_email, course))
                &&& record.completed.contains(class)
                &&& record.percentage == percentage_of(record.completed.len(), total)
                &&& record.percentage <= 100
                &&& record.status is Completed <==> record.percentage == 100
                &&& record.status == Status::of_percentage(record.percentage)
                &&& outcome == Ok::<Success, WorkflowError>(
                    Success::ClassCompleted {
                        status: record.status,
                        percentage: record.percentage as u64,
                    },
                )
            }
        }),
{
    let (after, outcome) = class_completed(w, user_email, course_id, class_id, now);
    if outcome is Ok {
        let course = DocId::spelled_by(course_id)->0;
        let record = after.records[(user_email, course)];
        let total = class_count(after.units, after.classes, course);
        lemma_percentage_bound(record.completed.len(), total);
    }
}

/// Completing the same class a second time changes nothing but the
/// timestamp: the completed classes, their number, the percentage and the
/// status stay, and the second run reports what the first one did. A run
/// that is turned down changes nothing at all.
pub proof fn lemma_completing_again_changes_nothing(
    w: CampusView,
    user_email: Seq<char>,
    course_id: Seq<char>,
    class_id: Seq<char>,
    first: Seq<char>,
    second: Seq<char>,
)
    requires
        w.keyed(),
    ensures
        ({
            let (once, outcome) = class_completed(w, user_email, course_id, class_id, first);
            let (twice, again) = class_completed(once, user_email, course_id, class_id, second);
            let key = (user_email, DocId::spelled_by(course_id)->0);
            &&& again == outcome
            &&& outcome is Err ==> once == w && twice == w
            &&& outcome is Ok ==> {
                &&& twice.records[key].completed == once.records[key].completed
                &&& twice.records[key].completed.len() == once.records[key].completed.len()
                &&& twice.records[key].percentage == once.records[key].percentage
                &&& twice.records[key].status == once.records[key].status
                &&& twice.records == once.records.insert(
                    key,
                    RecordView { timestamp: second, ..once.records[key] },
                )
                &&& twice.courses == once.courses
                &&& twice.units == once.units
                &&& twice.classes == once.classes
            }
        }),
{
    let (once, outcome) = class_completed(w, user_email, course_id, class_id, first);
    let (twice, again) = class_completed(once, user_email, course_id, class_id, second);
    if outcome is Ok {
        let course = DocId::spelled_by(course_id)->0;
        let class = DocId::spelled_by(class_id)->0;
        let key = (user_email, course);
        let record = once.records[key];
        assert(record.completed.contains(class));
        assert(record.completed.insert(class) =~= record.completed);
        assert(record.with_class(class) == record);
        assert(twice.records =~= once.records.insert(
            key,
            RecordView { timestamp: second, ..once.records[key] },
        ));
    }
}

/// A user is registered for a course once. Whatever a first registration
/// came to, a second one for the same user and course is turned down as
/// `AlreadyRegistered` and changes nothing.
pub proof fn lemma_second_registration_is_rejected(
    w: CampusView,
    user_email: Seq<char>,
    course_id: Seq<char>,
    first: Seq<char>,
    second: Seq<char>,
)
    requires
        DocId::spelled_by(course_id) is Some,
    ensures
        ({
            let (once, outcome) = registered(w, user_email, course_id, first);
            &&& once.records.dom().contains((user_email, DocId::spelled_by(course_id)->0))
            &&& registered(once, user_email, course_id, second) == (
                once,
                Err::<Success, WorkflowError>(WorkflowError::AlreadyRegistered),
            )
        }),
{
}

/// A registration that is not turned down writes a record with nothing
/// completed, 0 percent and the status `Initiated`, and touches no other
/// record.
pub proof fn lemma_registration_starts_at_zero(
    w: CampusView,
    user_email: Seq<char>,
    course_id: Seq<char>,
    now: Seq<char>,
)
    ensures
        ({
            let (after, outcome) = registered(w, user_email, course_id, now);
            let key = (user_email, DocId::spelled_by(course_id)->0);
            &&& (outcome == Err::<Success, WorkflowError>(WorkflowError::InvalidCourseId)
                || outcome == Err::<Success, WorkflowError>(WorkflowError::AlreadyRegistered))
                ==> after == w
            &&& (outcome != Err::<Success, WorkflowError>(WorkflowError::InvalidCourseId)
                && outcome != Err::<Success, WorkflowError>(WorkflowError::AlreadyRegistered)) ==> {
                &&& after.records == w.records.insert(
                    key,
                    RecordView::enrolled(user_email, key.1, now),
                )
                &&& after.records[key].percentage == 0
                &&& after.records[key].status == Status::Initiated
                &&& after.records[key].completed == Set::<DocId>::empty()
            }
        }),
{
}

/// A rating below 1 or above 5, and whatever is no number, is turned down
/// as `InvalidRating`, and neither the mean nor the count of any course
/// changes: nothing does. The bits of 1 are `0x3F80_0000`, those of 5 are
/// `0x40A0_0000`, and the numbers between them are the bits between them.
pub proof fn lemma_rating_outside_range_changes_nothing(
    w: CampusView,
    user_email: Seq<char>,
    course_id: Seq<char>,
    rating_bits: u32,
    sink: RatingSink,
    now: Seq<char>,
)
    ensures
        rating_of_bits(rating_bits) is Some <==> 0x3F80_0000 <= rating_bits <= 0x40A0_0000,
        !(0x3F80_0000 <= rating_bits <= 0x40A0_0000) ==> course_rated(
            w,
            user_email,
            course_id,
            rating_bits,
            sink,
            now,
        ) == (w, Err::<Success, WorkflowError>(WorkflowError::InvalidRating)),
{
}

/// A rating that is turned down, for whatever reason, leaves every course
/// as it was, and one that is accepted adds one to the count of its course
/// and to no other. No rating makes, changes or deletes a progress record.
/// An accepted rating is mirrored but where it is to be noted in a record
/// that is not there.
pub proof fn lemma_rating_counts_once(
    w: CampusView,
    user_email: Seq<char>,
    course_id: Seq<char>,
    rating_bits: u32,
    sink: RatingSink,
    now: Seq<char>,
)
    ensures
        ({
            let (after, outcome) = course_rated(w, user_email, course_id, rating_bits, sink, now);
            &&& outcome is Err ==> after == w
            &&& after.records == w.records
            &&& outcome is Ok ==> {
                &&& after.courses.len() == w.courses.len()
                &&& exists|at: int|
                    0 <= at < w.courses.len() && w.courses[at].id == DocId::spelled_by(
                        course_id,
                    )->0 && after.courses == w.courses.update(at, after.courses[at])
                        && #[trigger] after.courses[at].rating.total_rates
                        == w.courses[at].rating.total_rates + 1 && outcome == Ok::<
                        Success,
                        WorkflowError,
                    >(
                        Success::RatingAccepted {
                            rating_bits: after.courses[at].rating.rating_bits->0,
                            mirrored: sink is Graph || w.records.dom().contains(
                                (user_email, w.courses[at].id),
                            ),
                        },
                    )
            }
        }),
{
    let (after, outcome) = course_rated(w, user_email, course_id, rating_bits, sink, now);
    if outcome is Ok {
        let course = DocId::spelled_by(course_id)->0;
        let at = crate::catalog::course_place(w.courses, course);
        assert(after.courses[at].rating.total_rates == w.courses[at].rating.total_rates + 1);
    }
}

/// Naming a status makes no record: a user without one is turned down as
/// `NotRegistered` and nothing changes. Where there is a record, it keeps
/// its completed classes, its percentage is derived from them, `Completed`
/// goes on record exactly at 100 percent, an `InProgress` on record carries
/// that percentage, and the run reports what is on record. A named status
/// that agrees with the percentage is the one on record.
pub proof fn lemma_named_status_agrees_with_percentage(
    w: CampusView,
    user_email: Seq<char>,
    course_id: Seq<char>,
    status: Status,
    now: Seq<char>,
)
    ensures
        ({
            let (after, outcome) = status_restated(w, user_email, course_id, status, now);
            let course = DocId::spelled_by(course_id)->0;
            let key = (user_email, course);
            let record = after.records[key];
            &&& outcome is Err ==> after == w
            &&& after.records.dom() == w.records.dom()
            &&& status.valid() && DocId::spelled_by(course_id) is Some
                && !w.records.dom().contains(key) ==> outcome == Err::<Success, WorkflowError>(
                WorkflowError::NotRegistered,
            )
            &&& outcome is Ok ==> {
                &&& record.completed == w.records[key].completed
                &&& record.percentage == percentage_of(
                    record.completed.len(),
                    class_count(w.units, w.classes, course),
                )
                &&& record.percentage <= 100
                &&& record.status is Completed <==> record.percentage == 100
                &&& record.status matches Status::InProgress(p) ==> p == record.percentage
                &&& status.agrees_with(record.percentage) ==> record.status == status
                &&& outcome == Ok::<Success, WorkflowError>(
                    Success::StatusUpdated {
                        status: record.status,
                        percentage: record.percentage as u64,
                    },
                )
            }
        }),
{
    let (after, outcome) = status_restated(w, user_email, course_id, status, now);
    if outcome is Ok {
        let course = DocId::spelled_by(course_id)->0;
        let key = (user_email, course);
        lemma_percentage_bound(
            w.records[key].completed.len(),
            class_count(w.units, w.classes, course),
        );
        assert(after.records.dom() =~= w.records.dom());
    }
}

impl CampusView {
    /// The percentage of every record is the share of its completed classes
    /// in the classes that its course has, rounded and capped at 100.
    pub open spec fn percentages_derived(self) -> bool {
        forall|key: (Seq<char>, DocId)| #[trigger]
            self.records.dom().contains(key) ==> self.records[key].percentage == percentage_of(
                self.records[key].completed.len(),
                class_count(self.units, self.classes, key.1),
            )
    }

    /// The status of every record is `Completed` exactly where its
    /// percentage is 100, and an `InProgress` carries the percentage of its
    /// record.
    pub open spec fn statuses_derived(self) -> bool {
        forall|key: (Seq<char>, DocId)| #[trigger]
            self.records.dom().contains(key) ==> {
                &&& self.records[key].status is Completed <==> self.records[key].percentage
                    == 100
                &&& self.records[key].status matches Status::InProgress(p) ==> p
                    == self.records[key].percentage
            }
    }
}

/// Stores without records have all percentages and statuses derived.
pub proof fn lemma_empty_stores_are_derived(w: CampusView)
    requires
        w.records == Map::<(Seq<char>, DocId), RecordView>::empty(),
    ensures
        w.percentages_derived(),
        w.statuses_derived(),
{
}

/// No workflow breaks the rule of the percentages: where the percentage of
/// every record is derived from its completed classes before a workflow
/// runs, it is so afterwards, whatever the workflow is asked and whatever it
/// ends in. So the rule holds as long as courses, units and classes stay as
/// they are.
pub proof fn lemma_percentages_stay_derived(
    w: CampusView,
    user_email: Seq<char>,
    course_id: Seq<char>,
    class_id: Seq<char>,
    status: Status,
    rating_bits: u32,
    sink: RatingSink,
    now: Seq<char>,
)
    requires
        w.percentages_derived(),
    ensures
        registered(w, user_email, course_id, now).0.percentages_derived(),
        unregistered(w, user_email, course_id).0.percentages_derived(),
        class_completed(w, user_email, course_id, class_id, now).0.percentages_derived(),
        status_restated(w, user_email, course_id, status, now).0.percentages_derived(),
        course_rated(w, user_email, course_id, rating_bits, sink, now).0.percentages_derived(),
{
    assert forall|c: nat, t: nat| #[trigger] percentage_of(c, t) <= 100 && percentage_of(0, t)
        == 0 by {
        lemma_percentage_bound(c, t);
    }
    assert(Set::<DocId>::empty().len() == 0);
    let after = registered(w, user_email, course_id, now).0;
    assert forall|key: (Seq<char>, DocId)| #[trigger]
        after.records.dom().contains(key) implies after.records[key].percentage == percentage_of(
        after.records[key].completed.len(),
        class_count(after.units, after.classes, key.1),
    ) by {
        if w.records.dom().contains(key) {
        }
    }
    let after = unregistered(w, user_email, course_id).0;
    assert forall|key: (Seq<char>, DocId)| #[trigger]
        after.records.dom().contains(key) implies after.records[key].percentage == percentage_of(
        after.records[key].completed.len(),
        class_count(after.units, after.classes, key.1),
    ) by {
        assert(w.records.dom().contains(key));
    }
    let after = class_completed(w, user_email, course_id, class_id, now).0;
    assert forall|key: (Seq<char>, DocId)| #[trigger]
        after.records.dom().contains(key) implies after.records[key].percentage == percentage_of(
        after.records[key].completed.len(),
        class_count(after.units, after.classes, key.1),
    ) by {
        if w.records.dom().contains(key) {
        }
    }
    let after = status_restated(w, user_email, course_id, status, now).0;
    assert forall|key: (Seq<char>, DocId)| #[trigger]
        after.records.dom().contains(key) implies after.records[key].percentage == percentage_of(
        after.records[key].completed.len(),
        class_count(after.units, after.classes, key.1),
    ) by {
        if w.records.dom().contains(key) {
        }
    }
    let after = course_rated(w, user_email, course_id, rating_bits, sink, now).0;
    assert forall|key: (Seq<char>, DocId)| #[trigger]
        after.records.dom().contains(key) implies after.records[key].percentage == percentage_of(
        after.records[key].completed.len(),
        class_count(after.units, after.classes, key.1),
    ) by {
        assert(w.records.dom().contains(key));
    }
}

/// No workflow breaks the rule of the statuses: where `Completed` is on
/// record exactly at 100 percent before a workflow runs, and every
/// `InProgress` carries the percentage of its record, it is so afterwards,
/// whatever the workflow is asked and whatever it ends in. A status that is
/// named against the percentage is not recorded as it is named.
pub proof fn lemma_statuses_stay_derived(
    w: CampusView,
    user_email: Seq<char>,
    course_id: Seq<char>,
    class_id: Seq<char>,
    status: Status,
    rating_bits: u32,
    sink: RatingSink,
    now: Seq<char>,
)
    requires
        w.statuses_derived(),
    ensures
        registered(w, user_email, course_id, now).0.statuses_derived(),
        unregistered(w, user_email, course_id).0.statuses_derived(),
        class_completed(w, user_email, course_id, class_id, now).0.statuses_derived(),
        status_restated(w, user_email, course_id, status, now).0.statuses_derived(),
        course_rated(w, user_email, course_id, rating_bits, sink, now).0.statuses_derived(),
{
    assert forall|c: nat, t: nat| #[trigger] percentage_of(c, t) <= 100 by {
        lemma_percentage_bound(c, t);
    }
    let after = registered(w, user_email, course_id, now).0;
    assert forall|key: (Seq<char>, DocId)| #[trigger] after.records.dom().contains(key) implies {
        &&& after.records[key].status is Completed <==> after.records[key].percentage == 100
        &&& after.records[key].status matches Status::InProgress(p) ==> p
            == after.records[key].percentage
    } by {
        if w.records.dom().contains(key) {
        }
    }
    let after = unregistered(w, user_email, course_id).0;
    assert forall|key: (Seq<char>, DocId)| #[trigger] after.records.dom().contains(key) implies {
        &&& after.records[key].status is Completed <==> after.records[key].percentage == 100
        &&& after.records[key].status matches Status::InProgress(p) ==> p
            == after.records[key].percentage
    } by {
        assert(w.records.dom().contains(key));
    }
    let after = class_completed(w, user_email, course_id, class_id, now).0;
    assert forall|key: (Seq<char>, DocId)| #[trigger] after.records.dom().contains(key) implies {
        &&& after.records[key].status is Completed <==> after.records[key].percentage == 100
        &&& after.records[key].status matches Status::InProgress(p) ==> p
            == after.records[key].percentage
    } by {
        if w.records.dom().contains(key) {
        }
    }
    let after = status_restated(w, user_email, course_id, status, now).0;
    assert forall|key: (Seq<char>, DocId)| #[trigger] after.records.dom().contains(key) implies {
        &&& after.records[key].status is Completed <==> after.records[key].percentage == 100
        &&& after.records[key].status matches Status::InProgress(p) ==> p
            == after.records[key].percentage
    } by {
        if w.records.dom().contains(key) {
        }
    }
    let after = course_rated(w, user_email, course_id, rating_bits, sink, now).0;
    assert forall|key: (Seq<char>, DocId)| #[trigger] after.records.dom().contains(key) implies {
        &&& after.records[key].status is Completed <==> after.records[key].percentage == 100
        &&& after.records[key].status matches Status::InProgress(p) ==> p
            == after.records[key].percentage
    } by {
        assert(w.records.dom().contains(key));
    }
}

/// Once a registration is taken back the user can register again, and the
/// record starts from nothing.
pub proof fn lemma_unregistered_can_register(
    w: CampusView,
    user_email: Seq<char>,
    course_id: Seq<char>,
    now: Seq<char>,
)
    requires
        DocId::spelled_by(course_id) is Some,
    ensures
        ({
            let (gone, _) = unregistered(w, user_email, course_id);
            let (after, outcome) = registered(gone, user_email, course_id, now);
            let key = (user_email, DocId::spelled_by(course_id)->0);
            &&& !gone.records.dom().contains(key)
            &&& outcome != Err::<Success, WorkflowError>(WorkflowError::AlreadyRegistered)
            &&& after.records[key] == RecordView::enrolled(user_email, key.1, now)
        }),
{
}

} // verus!
