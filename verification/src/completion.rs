//! Marking a class as completed, and naming the status of a course.
//!
//! Completing a class checks that the class exists and that the user is
//! registered, adds the class to the completed classes of the record, reads
//! the record again, counts the classes that the course has at that moment,
//! derives percentage and status and writes them back with the completed
//! classes. Adding a class twice counts it once, so a run that failed after
//! the class was added is mended by running it again.

use crate::clock::timestamp_now;
use crate::completed::CompletedSet;
use crate::error::WorkflowError;
use crate::object_id::DocId;
use crate::progress::{completion_percentage, percentage_of, Status};
use crate::request::{CompleteClass, CourseStatusUpdate};
use crate::store::{Action, StoreCall, StoreReply, Success};
use vstd::prelude::*;

verus! {

/// How far the completion of a class has come.
#[derive(Debug)]
pub enum Completion {
    /// Waiting to learn whether the class exists.
    FindingClass { user_email: String, course: DocId, class: DocId },
    /// Waiting to learn whether the user is registered for the course.
    CheckingRegistration { user_email: String, course: DocId, class: DocId },
    /// Waiting for the class to be added to the completed ones.
    AddingClass { user_email: String, course: DocId },
    /// Waiting for the record as it is after the class was added.
    Rereading { user_email: String, course: DocId },
    /// Waiting for the units of the course.
    ListingUnits { user_email: String, course: DocId, completed: CompletedSet },
    /// Waiting for the number of classes in those units.
    CountingClasses { user_email: String, course: DocId, completed: CompletedSet },
    /// Waiting for status and percentage to be written.
    Saving { status: Status, percentage: u64 },
    /// Ended.
    Finished(Result<Success, WorkflowError>),
}

/// The end of a completion with `outcome`.
pub open spec fn completion_ended(outcome: Result<Success, WorkflowError>) -> (
    Completion,
    Action,
) {
    (Completion::Finished(outcome), Action::Finish(outcome))
}

fn end_completion(outcome: Result<Success, WorkflowError>) -> (r: (Completion, Action))
    ensures
        r == completion_ended(outcome),
{
    (Completion::Finished(outcome), Action::Finish(outcome))
}

impl Completion {
    /// The first step. An id that is no id ends the run before any store is
    /// touched; the course id is looked at first.
    pub open spec fn start_spec(request: CompleteClass) -> (Completion, Action) {
        match DocId::spelled_by(request.course_id@) {
            None => completion_ended(Err(WorkflowError::InvalidCourseId)),
            Some(course) => match DocId::spelled_by(request.class_id@) {
                None => completion_ended(Err(WorkflowError::InvalidClassId)),
                Some(class) => (
                    Completion::FindingClass { user_email: request.user_email, course, class },
                    Action::Call(StoreCall::FindClass { class }),
                ),
            },
        }
    }

    /// The step that follows `reply`, at the time `now`.
    ///
    /// The class is looked up by its id alone: that its unit belongs to the
    /// course is not asked. The total is counted anew in every run, and a
    /// completed class counts once, however often the reply holds it. A
    /// record that is gone when the class is to be added ends the run as
    /// `NotRegistered`. A reply of a kind that the call cannot give, and a
    /// record that is gone when it is read again, count as a failure of the
    /// store that was called.
    pub open spec fn advance_spec(self, reply: StoreReply, now: String) -> (Completion, Action) {
        match self {
            Completion::FindingClass { user_email, course, class } => match reply {
                StoreReply::Found(true) => (
                    Completion::CheckingRegistration { user_email, course, class },
                    Action::Call(StoreCall::GetRecord { user_email, course }),
                ),
                StoreReply::Found(false) => completion_ended(Err(WorkflowError::ClassNotFound)),
                _ => completion_ended(Err(WorkflowError::ContentStoreUnavailable)),
            },
            Completion::CheckingRegistration { user_email, course, class } => match reply {
                StoreReply::Record(Some(_)) => (
                    Completion::AddingClass { user_email, course },
                    Action::Call(StoreCall::AddCompleted { user_email, course, class }),
                ),
                StoreReply::Record(None) => completion_ended(Err(WorkflowError::NotRegistered)),
                _ => completion_ended(Err(WorkflowError::ProgressStoreUnavailable)),
            },
            Completion::AddingClass { user_email, course } => match reply {
                StoreReply::Done => (
                    Completion::Rereading { user_email, course },
                    Action::Call(StoreCall::GetRecord { user_email, course }),
                ),
                StoreReply::Missing => completion_ended(Err(WorkflowError::NotRegistered)),
                _ => completion_ended(Err(WorkflowError::ProgressStoreUnavailable)),
            },
            Completion::Rereading { user_email, course } => match reply {
                StoreReply::Record(Some(completed)) => (
                    Completion::ListingUnits { user_email, course, completed },
                    Action::Call(StoreCall::ListUnits { course }),
                ),
                _ => completion_ended(Err(WorkflowError::ProgressStoreUnavailable)),
            },
            Completion::ListingUnits { user_email, course, completed } => match reply {
                StoreReply::Units(units) => (
                    Completion::CountingClasses { user_email, course, completed },
                    Action::Call(StoreCall::CountClasses { units }),
                ),
                _ => completion_ended(Err(WorkflowError::ContentStoreUnavailable)),
            },
            Completion::CountingClasses { user_email, course, completed } => match reply {
                StoreReply::Count(total) => {
                    let percentage = percentage_of(completed@.len(), total as nat) as u64;
                    let status = Status::of_percentage(percentage as nat);
                    (
                        Completion::Saving { status, percentage },
                        Action::Call(
                            StoreCall::SaveProgress {
                                user_email,
                                course,
                                status,
                                percentage,
                                completed,
                                timestamp: now,
                            },
                        ),
                    )
                },
                _ => completion_ended(Err(WorkflowError::ContentStoreUnavailable)),
            },
            Completion::Saving { status, percentage } => match reply {
                StoreReply::Done => completion_ended(
                    Ok(Success::ClassCompleted { status, percentage }),
                ),
                _ => completion_ended(Err(WorkflowError::ProgressStoreUnavailable)),
            },
            Completion::Finished(outcome) => completion_ended(outcome),
        }
    }

    /// Computes `start_spec`.
    pub fn start(request: CompleteClass) -> (r: (Completion, Action))
        ensures
            r == Completion::start_spec(request),
    {
        match DocId::parse(request.course_id.as_str()) {
            None => end_completion(Err(WorkflowError::InvalidCourseId)),
            Some(course) => match DocId::parse(request.class_id.as_str()) {
                None => end_completion(Err(WorkflowError::InvalidClassId)),
                Some(class) => (
                    Completion::FindingClass { user_email: request.user_email, course, class },
                    Action::Call(StoreCall::FindClass { class }),
                ),
            },
        }
    }

    /// Computes `advance_spec`.
    pub fn advance_at(self, reply: StoreReply, now: String) -> (r: (Completion, Action))
        ensures
            r == self.advance_spec(reply, now),
    {
        match self {
            Completion::FindingClass { user_email, course, class } => match reply {
                StoreReply::Found(found) => {
                    if found {
                        let email = user_email.clone();
                        (
                            Completion::CheckingRegistration { user_email, course, class },
                            Action::Call(StoreCall::GetRecord { user_email: email, course }),
                        )
                    } else {
                        end_completion(Err(WorkflowError::ClassNotFound))
                    }
                },
                _ => end_completion(Err(WorkflowError::ContentStoreUnavailable)),
            },
            Completion::CheckingRegistration { user_email, course, class } => match reply {
                StoreReply::Record(Some(_)) => {
                    let email = user_email.clone();
                    (
                        Completion::AddingClass { user_email, course },
                        Action::Call(StoreCall::AddCompleted { user_email: email, course, class }),
                    )
                },
                StoreReply::Record(None) => end_completion(Err(WorkflowError::NotRegistered)),
                _ => end_completion(Err(WorkflowError::ProgressStoreUnavailable)),
            },
            Completion::AddingClass { user_email, course } => match reply {
                StoreReply::Done => {
                    let email = user_email.clone();
                    (
                        Completion::Rereading { user_email, course },
                        Action::Call(StoreCall::GetRecord { user_email: email, course }),
                    )
                },
                StoreReply::Missing => end_completion(Err(WorkflowError::NotRegistered)),
                _ => end_completion(Err(WorkflowError::ProgressStoreUnavailable)),
            },
            Completion::Rereading { user_email, course } => match reply {
                StoreReply::Record(Some(completed)) => (
                    Completion::ListingUnits { user_email, course, completed },
                    Action::Call(StoreCall::ListUnits { course }),
                ),
                _ => end_completion(Err(WorkflowError::ProgressStoreUnavailable)),
            },
            Completion::ListingUnits { user_email, course, completed } => match reply {
                StoreReply::Units(units) => (
                    Completion::CountingClasses { user_email, course, completed },
                    Action::Call(StoreCall::CountClasses { units }),
                ),
                _ => end_completion(Err(WorkflowError::ContentStoreUnavailable)),
            },
            Completion::CountingClasses { user_email, course, completed } => match reply {
                StoreReply::Count(total) => {
                    let done: u64 = completed.count() as u64;
                    let percentage: u64 = completion_percentage(done, total);
                    let status = Status::for_percentage(percentage);
                    (
                        Completion::Saving { status, percentage },
                        Action::Call(
                            StoreCall::SaveProgress {
                                user_email,
                                course,
                                status,
                                percentage,
                                completed,
                                timestamp: now,
                            },
                        ),
                    )
                },
                _ => end_completion(Err(WorkflowError::ContentStoreUnavailable)),
            },
            Completion::Saving { status, percentage } => match reply {
                StoreReply::Done => end_completion(
                    Ok(Success::ClassCompleted { status, percentage }),
                ),
                _ => end_completion(Err(WorkflowError::ProgressStoreUnavailable)),
            },
            Completion::Finished(outcome) => end_completion(outcome),
        }
    }

    /// The step that follows `reply`, at the time of the call: `advance_spec`
    /// for the text that the clock gave.
    pub fn advance(self, reply: StoreReply) -> (r: (Completion, Action))
        ensures
            exists|now: String| r == #[trigger] self.advance_spec(reply, now),
    {
        let now = timestamp_now();
        self.advance_at(reply, now)
    }
}

/// How far the naming of a status has come.
#[derive(Debug)]
pub enum Restatement {
    /// Waiting for the units of the course.
    ListingUnits { user_email: String, course: DocId, status: Status },
    /// Waiting for the number of classes in those units.
    CountingClasses { user_email: String, course: DocId, status: Status },
    /// Waiting for the record of the user in the course.
    ReadingRecord { user_email: String, course: DocId, status: Status, total: u64 },
    /// Waiting for status and percentage to be written.
    Saving { status: Status, percentage: u64 },
    /// Ended.
    Finished(Result<Success, WorkflowError>),
}

/// The end of the naming of a status with `outcome`.
pub open spec fn restatement_ended(outcome: Result<Success, WorkflowError>) -> (
    Restatement,
    Action,
) {
    (Restatement::Finished(outcome), Action::Finish(outcome))
}

fn end_restatement(outcome: Result<Success, WorkflowError>) -> (r: (Restatement, Action))
    ensures
        r == restatement_ended(outcome),
{
    (Restatement::Finished(outcome), Action::Finish(outcome))
}

impl Restatement {
    /// The first step. A status that is not valid, and then a course id that
    /// is no id, end the run before any store is touched.
    pub open spec fn start_spec(request: CourseStatusUpdate) -> (Restatement, Action) {
        if !request.status.valid() {
            restatement_ended(Err(WorkflowError::InvalidStatus))
        } else {
            match DocId::spelled_by(request.course_id@) {
                None => restatement_ended(Err(WorkflowError::InvalidCourseId)),
                Some(course) => (
                    Restatement::ListingUnits {
                        user_email: request.user_email,
                        course,
                        status: request.status,
                    },
                    Action::Call(StoreCall::ListUnits { course }),
                ),
            }
        }
    }

    /// The step that follows `reply`, at the time `now`.
    ///
    /// The percentage is derived from the completed classes on record, each
    /// counted once. The status on record becomes the one that the caller
    /// named where it agrees with that percentage, and the one that the
    /// percentage stands for where it does not, so that `Completed` goes on
    /// record at 100 percent only. The completed classes stay as they are. A
    /// user without a record is not registered: nothing is written.
    pub open spec fn advance_spec(self, reply: StoreReply, now: String) -> (Restatement, Action) {
        match self {
            Restatement::ListingUnits { user_email, course, status } => match reply {
                StoreReply::Units(units) => (
                    Restatement::CountingClasses { user_email, course, status },
                    Action::Call(StoreCall::CountClasses { units }),
                ),
                _ => restatement_ended(Err(WorkflowError::ContentStoreUnavailable)),
            },
            Restatement::CountingClasses { user_email, course, status } => match reply {
                StoreReply::Count(total) => (
                    Restatement::ReadingRecord { user_email, course, status, total },
                    Action::Call(StoreCall::GetRecord { user_email, course }),
                ),
                _ => restatement_ended(Err(WorkflowError::ContentStoreUnavailable)),
            },
            Restatement::ReadingRecord { user_email, course, status, total } => match reply {
                StoreReply::Record(Some(completed)) => {
                    let percentage = percentage_of(completed@.len(), total as nat) as u64;
                    let settled = status.settled(percentage as nat);
                    (
                        Restatement::Saving { status: settled, percentage },
                        Action::Call(
                            StoreCall::SaveProgress {
                                user_email,
                                course,
                                status: settled,
                                percentage,
                                completed,
                                timestamp: now,
                            },
                        ),
                    )
                },
                StoreReply::Record(None) => restatement_ended(Err(WorkflowError::NotRegistered)),
                _ => restatement_ended(Err(WorkflowError::ProgressStoreUnavailable)),
            },
            Restatement::Saving { status, percentage } => match reply {
                StoreReply::Done => restatement_ended(
                    Ok(Success::StatusUpdated { status, percentage }),
                ),
                _ => restatement_ended(Err(WorkflowError::ProgressStoreUnavailable)),
            },
            Restatement::Finished(outcome) => restatement_ended(outcome),
        }
    }

    /// Computes `start_spec`.
    pub fn start(request: CourseStatusUpdate) -> (r: (Restatement, Action))
        ensures
            r == Restatement::start_spec(request),
    {
        if request.status.validate().is_err() {
            return end_restatement(Err(WorkflowError::InvalidStatus));
        }
        match DocId::parse(request.course_id.as_str()) {
            None => end_restatement(Err(WorkflowError::InvalidCourseId)),
            Some(course) => (
                Restatement::ListingUnits {
                    user_email: request.user_email,
                    course,
                    status: request.status,
                },
                Action::Call(StoreCall::ListUnits { course }),
            ),
        }
    }

    /// Computes `advance_spec`.
    pub fn advance_at(self, reply: StoreReply, now: String) -> (r: (Restatement, Action))
        ensures
            r == self.advance_spec(reply, now),
    {
        match self {
            Restatement::ListingUnits { user_email, course, status } => match reply {
                StoreReply::Units(units) => (
                    Restatement::CountingClasses { user_email, course, status },
                    Action::Call(StoreCall::CountClasses { units }),
                ),
                _ => end_restatement(Err(WorkflowError::ContentStoreUnavailable)),
            },
            Restatement::CountingClasses { user_email, course, status } => match reply {
                StoreReply::Count(total) => {
                    let email = user_email.clone();
                    (
                        Restatement::ReadingRecord { user_email, course, status, total },
                        Action::Call(StoreCall::GetRecord { user_email: email, course }),
                    )
                },
                _ => end_restatement(Err(WorkflowError::ContentStoreUnavailable)),
            },
            Restatement::ReadingRecord { user_email, course, status, total } => match reply {
                StoreReply::Record(Some(completed)) => {
                    let done: u64 = completed.count() as u64;
                    let percentage: u64 = completion_percentage(done, total);
                    let settled = status.settle(percentage);
                    (
                        Restatement::Saving { status: settled, percentage },
                        Action::Call(
                            StoreCall::SaveProgress {
                                user_email,
                                course,
                                status: settled,
                                percentage,
                                completed,
                                timestamp: now,
                            },
                        ),
                    )
                },
                StoreReply::Record(None) => end_restatement(Err(WorkflowError::NotRegistered)),
                _ => end_restatement(Err(WorkflowError::ProgressStoreUnavailable)),
            },
            Restatement::Saving { status, percentage } => match reply {
                StoreReply::Done => end_restatement(
                    Ok(Success::StatusUpdated { status, percentage }),
                ),
                _ => end_restatement(Err(WorkflowError::ProgressStoreUnavailable)),
            },
            Restatement::Finished(outcome) => end_restatement(outcome),
        }
    }

    /// The step that follows `reply`, at the time of the call: `advance_spec`
    /// for the text that the clock gave.
    pub fn advance(self, reply: StoreReply) -> (r: (Restatement, Action))
        ensures
            exists|now: String| r == #[trigger] self.advance_spec(reply, now),
    {
        let now = timestamp_now();
        self.advance_at(reply, now)
    }
}

} // verus!
