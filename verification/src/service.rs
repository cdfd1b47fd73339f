//! The workflows run to their end on the stores in memory, and what each
//! run comes to.

use crate::appraisal::{Appraisal, RatingSink};
use crate::campus::{Campus, CampusView, EdgeView};
use crate::catalog::{class_count, has_class, inscribed_added, rating_of_course, rating_set};
use crate::clock::timestamp_now;
use crate::completion::{Completion, Restatement};
use crate::enrollment::{Enrollment, Withdrawal};
use crate::error::WorkflowError;
use crate::object_id::DocId;
use crate::progress::{lemma_percentage_bound, percentage_of, RecordView, Status};
use crate::rating::{rating_of_bits, stored_mean_after};
use crate::request::{
    CompleteClass, CourseStatusRegister, CourseStatusUpdate, DeleteRegisterRequest, RatingRequest,
};
use crate::store::{Action, StoreReply, Success};
use vstd::prelude::*;

verus! {

impl CampusView {
    /// Every record is found by its own key.
    pub open spec fn keyed(self) -> bool {
        forall|key: (Seq<char>, DocId)| #[trigger]
            self.records.dom().contains(key) ==> self.records[key].key() == key
    }
}

/// What registering `user_email` for the course `course_id` at the time
/// `now` does to the stores, and what it ends in.
///
/// A user who has a record for the course is turned down, and nothing
/// changes. Otherwise the fresh record is written first and the course is
/// counted up second: where there is no such course, or its count cannot
/// grow, the record stays all the same.
pub open spec fn registered(
    w: CampusView,
    user_email: Seq<char>,
    course_id: Seq<char>,
    now: Seq<char>,
) -> (CampusView, Result<Success, WorkflowError>) {
    match DocId::spelled_by(course_id) {
        None => (w, Err(WorkflowError::InvalidCourseId)),
        Some(course) => if w.records.dom().contains((user_email, course)) {
            (w, Err(WorkflowError::AlreadyRegistered))
        } else {
            let (courses, reply) = inscribed_added(w.courses, course);
            (
                CampusView {
                    courses,
                    records: w.records.insert(
                        (user_email, course),
                        RecordView::enrolled(user_email, course, now),
                    ),
                    ..w
                },
                match reply {
                    StoreReply::Done => Ok(Success::Registered),
                    StoreReply::Missing => Err(WorkflowError::CourseNotFound),
                    _ => Err(WorkflowError::ContentStoreUnavailable),
                },
            )
        },
    }
}

/// What taking back the registration of `user_email` for the course
/// `course_id` does to the stores, and what it ends in: the record is gone,
/// whether there was one or not.
pub open spec fn unregistered(w: CampusView, user_email: Seq<char>, course_id: Seq<char>) -> (
    CampusView,
    Result<Success, WorkflowError>,
) {
    match DocId::spelled_by(course_id) {
        None => (w, Ok(Success::Unregistered)),
        Some(course) => (
            CampusView { records: w.records.remove((user_email, course)), ..w },
            Ok(Success::Unregistered),
        ),
    }
}

/// What completing the class `class_id` of the course `course_id` for
/// `user_email` at the time `now` does to the stores, and what it ends in.
///
/// The class joins the completed classes of the record, and percentage and
/// status are derived from them and from the number of classes that the
/// course has now.
pub open spec fn class_completed(
    w: CampusView,
    user_email: Seq<char>,
    course_id: Seq<char>,
    class_id: Seq<char>,
    now: Seq<char>,
) -> (CampusView, Result<Success, WorkflowError>) {
    match DocId::spelled_by(course_id) {
        None => (w, Err(WorkflowError::InvalidCourseId)),
        Some(course) => match DocId::spelled_by(class_id) {
            None => (w, Err(WorkflowError::InvalidClassId)),
            Some(class) => if !has_class(w.classes, class) {
                (w, Err(WorkflowError::ClassNotFound))
            } else if !w.records.dom().contains((user_email, course)) {
                (w, Err(WorkflowError::NotRegistered))
            } else {
                let record = w.records[(user_email, course)].with_class(class).refreshed(
                    class_count(w.units, w.classes, course),
                    now,
                );
                (
                    CampusView { records: w.records.insert((user_email, course), record), ..w },
                    Ok(
                        Success::ClassCompleted {
                            status: record.status,
                            percentage: record.percentage as u64,
                        },
                    ),
                )
            },
        },
    }
}

/// What naming `status` for `user_email` in the course `course_id` at the
/// time `now` does to the stores, and what it ends in.
///
/// The record takes a percentage derived from its completed classes, and
/// the status as it is named where that agrees with the percentage; a named
/// status that contradicts the percentage gives way to the one that the
/// percentage stands for. A user without a record is not registered, and
/// nothing changes.
pub open spec fn status_restated(
    w: CampusView,
    user_email: Seq<char>,
    course_id: Seq<char>,
    status: Status,
    now: Seq<char>,
) -> (CampusView, Result<Success, WorkflowError>) {
    if !status.valid() {
        (w, Err(WorkflowError::InvalidStatus))
    } else {
        match DocId::spelled_by(course_id) {
            None => (w, Err(WorkflowError::InvalidCourseId)),
            Some(course) => if !w.records.dom().contains((user_email, course)) {
                (w, Err(WorkflowError::NotRegistered))
            } else {
                let record = w.records[(user_email, course)].restated(
                    status,
                    class_count(w.units, w.classes, course),
                    now,
                );
                (
                    CampusView { records: w.records.insert((user_email, course), record), ..w },
                    Ok(
                        Success::StatusUpdated {
                            status: record.status,
                            percentage: record.percentage as u64,
                        },
                    ),
                )
            },
        }
    }
}

/// What the rating `rating_bits` of `user_email` for the course `course_id`
/// at the time `now` does to the stores, and what it ends in.
///
/// A rating outside 1 to 5 changes nothing. An accepted one is folded into
/// the mean of the course, the count grows by one, and the rating is written
/// to `sink`: as an edge of the graph, or as a note in the record of the
/// user in the course. A user without such a record gets no note and no
/// record, and the outcome says that the rating was not mirrored.
pub open spec fn course_rated(
    w: CampusView,
    user_email: Seq<char>,
    course_id: Seq<char>,
    rating_bits: u32,
    sink: RatingSink,
    now: Seq<char>,
) -> (CampusView, Result<Success, WorkflowError>) {
    match rating_of_bits(rating_bits) {
        None => (w, Err(WorkflowError::InvalidRating)),
        Some(rating) => match DocId::spelled_by(course_id) {
            None => (w, Err(WorkflowError::InvalidCourseId)),
            Some(course) => match rating_of_course(w.courses, course) {
                None => (w, Err(WorkflowError::CourseNotFound)),
                Some(stored) => match stored_mean_after(stored, rating) {
                    None => (w, Err(WorkflowError::ContentStoreUnavailable)),
                    Some(mean_bits) => {
                        let (courses, reply) = rating_set(w.courses, course, mean_bits);
                        let edge = EdgeView { user_email, course, rating_bits, timestamp: now };
                        let noted = w.records.dom().contains((user_email, course));
                        if reply is Failed {
                            (w, Err(WorkflowError::ContentStoreUnavailable))
                        } else {
                            (
                                match sink {
                                    RatingSink::Graph => CampusView {
                                        courses,
                                        edges: w.edges.push(edge),
                                        ..w
                                    },
                                    RatingSink::UserData => if noted {
                                        CampusView { courses, notes: w.notes.push(edge), ..w }
                                    } else {
                                        CampusView { courses, ..w }
                                    },
                                },
                                Ok(
                                    Success::RatingAccepted {
                                        rating_bits: mean_bits,
                                        mirrored: sink is Graph || noted,
                                    },
                                ),
                            )
                        }
                    },
                },
            },
        }
    }
}

/// In well-formed stores every record is found by its own key.
pub proof fn lemma_keyed(campus: &Campus)
    requires
        campus.wf(),
    ensures
        campus@.keyed(),
{
}

/// Registers a user for a course, at the time `now`.
pub fn register_course_at(campus: &mut Campus, request: CourseStatusRegister, now: String) -> (outcome:
    Result<Success, WorkflowError>)
    requires
        old(campus).wf(),
    ensures
        final(campus).wf(),
        (final(campus)@, outcome) == registered(
            old(campus)@,
            request.user_email@,
            request.course_id@,
            now@,
        ),
{
    let (stage, action) = Enrollment::start(request);
    let reply = match action {
        Action::Finish(outcome) => {
            return outcome;
        },
        Action::Call(call) => campus.perform(call),
    };
    let (stage, action) = stage.advance_at(reply, now.clone());
    let reply = match action {
        Action::Finish(outcome) => {
            return outcome;
        },
        Action::Call(call) => campus.perform(call),
    };
    let (stage, action) = stage.advance_at(reply, now.clone());
    let reply = match action {
        Action::Finish(outcome) => {
            return outcome;
        },
        Action::Call(call) => campus.perform(call),
    };
    let (stage, action) = stage.advance_at(reply, now);
    match action {
        Action::Finish(outcome) => {
            assert(campus@ =~= registered(
                old(campus)@,
                request.user_email@,
                request.course_id@,
                now@,
            ).0);
            outcome
        },
        Action::Call(_) => {
            assert(false);
            Err(WorkflowError::ContentStoreUnavailable)
        },
    }
}

/// Registers a user for a course, at the time of the call.
pub fn register_course(campus: &mut Campus, request: CourseStatusRegister) -> (outcome: Result<
    Success,
    WorkflowError,
>)
    requires
        old(campus).wf(),
    ensures
        final(campus).wf(),
        exists|now: Seq<char>|
            (final(campus)@, outcome) == #[trigger] registered(
                old(campus)@,
                request.user_email@,
                request.course_id@,
                now,
            ),
{
    let now = timestamp_now();
    register_course_at(campus, request, now)
}

/// Takes the registration of a user for a course back.
pub fn delete_register(campus: &mut Campus, request: DeleteRegisterRequest) -> (outcome: Result<
    Success,
    WorkflowError,
>)
    requires
        old(campus).wf(),
    ensures
        final(campus).wf(),
        (final(campus)@, outcome) == unregistered(
            old(campus)@,
            request.user_email@,
            request.course_id@,
        ),
{
    let (stage, action) = Withdrawal::start(request);
    let reply = match action {
        Action::Finish(outcome) => {
            return outcome;
        },
        Action::Call(call) => campus.perform(call),
    };
    let (stage, action) = stage.advance(reply);
    match action {
        Action::Finish(outcome) => outcome,
        Action::Call(_) => {
            assert(false);
            Err(WorkflowError::ProgressStoreUnavailable)
        },
    }
}

/// Marks a class as completed by a user, at the time `now`.
pub fn complete_class_at(campus: &mut Campus, request: CompleteClass, now: String) -> (outcome:
    Result<Success, WorkflowError>)
    requires
        old(campus).wf(),
    ensures
        final(campus).wf(),
        (final(campus)@, outcome) == class_completed(
            old(campus)@,
            request.user_email@,
            request.course_id@,
            request.class_id@,
            now@,
        ),
{
    proof {
        lemma_keyed(campus);
    }
    let (stage, action) = Completion::start(request);
    let reply = match action {
        Action::Finish(outcome) => {
            return outcome;
        },
        Action::Call(call) => campus.perform(call),
    };
    let (stage, action) = stage.advance_at(reply, now.clone());
    let reply = match action {
        Action::Finish(outcome) => {
            return outcome;
        },
        Action::Call(call) => campus.perform(call),
    };
    let (stage, action) = stage.advance_at(reply, now.clone());
    let reply = match action {
        Action::Finish(outcome) => {
            return outcome;
        },
        Action::Call(call) => campus.perform(call),
    };
    let (stage, action) = stage.advance_at(reply, now.clone());
    let reply = match action {
        Action::Finish(outcome) => {
            return outcome;
        },
        Action::Call(call) => campus.perform(call),
    };
    proof {
        lemma_keyed(campus);
        assert forall|c: nat, t: nat| #[trigger] percentage_of(c, t) <= 100 by {
            lemma_percentage_bound(c, t);
        }
    }
    let (stage, action) = stage.advance_at(reply, now.clone());
    let reply = match action {
        Action::Finish(outcome) => {
            assert(false);
            return outcome;
        },
        Action::Call(call) => campus.perform(call),
    };
    let (stage, action) = stage.advance_at(reply, now.clone());
    let reply = match action {
        Action::Finish(outcome) => {
            assert(false);
            return outcome;
        },
        Action::Call(call) => campus.perform(call),
    };
    let (stage, action) = stage.advance_at(reply, now.clone());
    let reply = match action {
        Action::Finish(outcome) => {
            assert(false);
            return outcome;
        },
        Action::Call(call) => campus.perform(call),
    };
    let (stage, action) = stage.advance_at(reply, now);
    match action {
        Action::Finish(outcome) => {
            proof {
                let expected = class_completed(
                    old(campus)@,
                    request.user_email@,
                    request.course_id@,
                    request.class_id@,
                    now@,
                );
                assert(campus@.records =~= expected.0.records);
                assert(campus@ =~= expected.0);
            }
            outcome
        },
        Action::Call(_) => {
            assert(false);
            Err(WorkflowError::ProgressStoreUnavailable)
        },
    }
}

/// Marks a class as completed by a user, at the time of the call.
pub fn complete_class(campus: &mut Campus, request: CompleteClass) -> (outcome: Result<
    Success,
    WorkflowError,
>)
    requires
        old(campus).wf(),
    ensures
        final(campus).wf(),
        exists|now: Seq<char>|
            (final(campus)@, outcome) == #[trigger] class_completed(
                old(campus)@,
                request.user_email@,
                request.course_id@,
                request.class_id@,
                now,
            ),
{
    let now = timestamp_now();
    complete_class_at(campus, request, now)
}

/// Puts the status that a user names on record, at the time `now`.
pub fn update_course_status_at(campus: &mut Campus, request: CourseStatusUpdate, now: String) -> (outcome:
    Result<Success, WorkflowError>)
    requires
        old(campus).wf(),
    ensures
        final(campus).wf(),
        (final(campus)@, outcome) == status_restated(
            old(campus)@,
            request.user_email@,
            request.course_id@,
            request.status,
            now@,
        ),
{
    let (stage, action) = Restatement::start(request);
    let reply = match action {
        Action::Finish(outcome) => {
            return outcome;
        },
        Action::Call(call) => campus.perform(call),
    };
    let (stage, action) = stage.advance_at(reply, now.clone());
    let reply = match action {
        Action::Finish(outcome) => {
            assert(false);
            return outcome;
        },
        Action::Call(call) => campus.perform(call),
    };
    let (stage, action) = stage.advance_at(reply, now.clone());
    let reply = match action {
        Action::Finish(outcome) => {
            assert(false);
            return outcome;
        },
        Action::Call(call) => campus.perform(call),
    };
    proof {
        lemma_keyed(campus);
        assert forall|c: nat, t: nat| #[trigger] percentage_of(c, t) <= 100 by {
            lemma_percentage_bound(c, t);
        }
    }
    let (stage, action) = stage.advance_at(reply, now.clone());
    let reply = match action {
        Action::Finish(outcome) => {
            return outcome;
        },
        Action::Call(call) => campus.perform(call),
    };
    let (stage, action) = stage.advance_at(reply, now);
    match action {
        Action::Finish(outcome) => {
            proof {
                let expected = status_restated(
                    old(campus)@,
                    request.user_email@,
                    request.course_id@,
                    request.status,
                    now@,
                );
                assert(campus@.records =~= expected.0.records);
                assert(campus@ =~= expected.0);
            }
            outcome
        },
        Action::Call(_) => {
            assert(false);
            Err(WorkflowError::ProgressStoreUnavailable)
        },
    }
}

/// Puts the status that a user names on record, at the time of the call.
pub fn update_course_status(campus: &mut Campus, request: CourseStatusUpdate) -> (outcome: Result<
    Success,
    WorkflowError,
>)
    requires
        old(campus).wf(),
    ensures
        final(campus).wf(),
        exists|now: Seq<char>|
            (final(campus)@, outcome) == #[trigger] status_restated(
                old(campus)@,
                request.user_email@,
                request.course_id@,
                request.status,
                now,
            ),
{
    let now = timestamp_now();
    update_course_status_at(campus, request, now)
}

/// Counts the rating of a user for a course and writes it to `sink`, at the
/// time `now`.
pub fn rate_course_at(
    campus: &mut Campus,
    request: RatingRequest,
    sink: RatingSink,
    now: String,
) -> (outcome: Result<Success, WorkflowError>)
    requires
        old(campus).wf(),
    ensures
        final(campus).wf(),
        (final(campus)@, outcome) == course_rated(
            old(campus)@,
            request.user_email@,
            request.course_id@,
            request.rating_bits,
            sink,
            now@,
        ),
{
    let (stage, action) = Appraisal::start(request, sink);
    let reply = match action {
        Action::Finish(outcome) => {
            return outcome;
        },
        Action::Call(call) => campus.perform(call),
    };
    let (stage, action) = stage.advance_at(reply, now.clone());
    let reply = match action {
        Action::Finish(outcome) => {
            return outcome;
        },
        Action::Call(call) => campus.perform(call),
    };
    let (stage, action) = stage.advance_at(reply, now.clone());
    let reply = match action {
        Action::Finish(outcome) => {
            return outcome;
        },
        Action::Call(call) => campus.perform(call),
    };
    let (stage, action) = stage.advance_at(reply, now);
    match action {
        Action::Finish(outcome) => {
            proof {
                let expected = course_rated(
                    old(campus)@,
                    request.user_email@,
                    request.course_id@,
                    request.rating_bits,
                    sink,
                    now@,
                );
                assert(campus@ =~= expected.0);
            }
            outcome
        },
        Action::Call(_) => {
            assert(false);
            Err(WorkflowError::ContentStoreUnavailable)
        },
    }
}

/// Counts the rating of a user for a course and mirrors it as an edge of
/// the graph, at the time of the call.
pub fn post_rating(campus: &mut Campus, request: RatingRequest) -> (outcome: Result<
    Success,
    WorkflowError,
>)
    requires
        old(campus).wf(),
    ensures
        final(campus).wf(),
        exists|now: Seq<char>|
            (final(campus)@, outcome) == #[trigger] course_rated(
                old(campus)@,
                request.user_email@,
                request.course_id@,
                request.rating_bits,
                RatingSink::Graph,
                now,
            ),
{
    let now = timestamp_now();
    rate_course_at(campus, request, RatingSink::Graph, now)
}

/// Counts the rating of a user for a course and notes it in the data of the
/// user, at the time of the call.
pub fn post_rating_neo4j(campus: &mut Campus, request: RatingRequest) -> (outcome: Result<
    Success,
    WorkflowError,
>)
    requires
        old(campus).wf(),
    ensures
        final(campus).wf(),
        exists|now: Seq<char>|
            (final(campus)@, outcome) == #[trigger] course_rated(
                old(campus)@,
                request.user_email@,
                request.course_id@,
                request.rating_bits,
                RatingSink::UserData,
                now,
            ),
{
    let now = timestamp_now();
    rate_course_at(campus, request, RatingSink::UserData, now)
}

} // verus!
