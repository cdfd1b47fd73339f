//! Registering a user for a course, and taking the registration back.
//!
//! Registration checks that the user has no record for the course yet,
//! writes a fresh record, then counts the user among those inscribed in the
//! course. Where the count fails after the record was written, the record
//! stays: no step is taken back.

use crate::clock::timestamp_now;
use crate::error::WorkflowError;
use crate::object_id::DocId;
use crate::request::{CourseStatusRegister, DeleteRegisterRequest};
use crate::store::{Action, StoreCall, StoreReply, Success};
use vstd::prelude::*;

verus! {

/// How far a registration has come.
#[derive(Debug)]
pub enum Enrollment {
    /// Waiting to learn whether the user has a record for the course.
    CheckingRecord { user_email: String, course: DocId },
    /// Waiting for the fresh record to be written.
    WritingRecord { course: DocId },
    /// Waiting for the course to count one more user.
    Counting,
    /// Ended.
    Finished(Result<Success, WorkflowError>),
}

impl Enrollment {
    /// The first step of a registration. A course id that is no id ends it
    /// before any store is touched.
    pub open spec fn start_spec(request: CourseStatusRegister) -> (Enrollment, Action) {
        match DocId::spelled_by(request.course_id@) {
            None => ended(Err(WorkflowError::InvalidCourseId)),
            Some(course) => (
                Enrollment::CheckingRecord { user_email: request.user_email, course },
                Action::Call(StoreCall::GetRecord { user_email: request.user_email, course }),
            ),
        }
    }

    /// The step that follows `reply`, at the time `now`.
    ///
    /// A reply of a kind that the call cannot give counts as a failure of
    /// the store that was called.
    pub open spec fn advance_spec(self, reply: StoreReply, now: String) -> (Enrollment, Action) {
        match self {
            Enrollment::CheckingRecord { user_email, course } => match reply {
                StoreReply::Record(Some(_)) => ended(Err(WorkflowError::AlreadyRegistered)),
                StoreReply::Record(None) => (
                    Enrollment::WritingRecord { course },
                    Action::Call(StoreCall::CreateRecord { user_email, course, timestamp: now }),
                ),
                _ => ended(Err(WorkflowError::ProgressStoreUnavailable)),
            },
            Enrollment::WritingRecord { course } => match reply {
                StoreReply::Done => (
                    Enrollment::Counting,
                    Action::Call(StoreCall::AddInscribed { course }),
                ),
                _ => ended(Err(WorkflowError::ProgressStoreUnavailable)),
            },
            Enrollment::Counting => match reply {
                StoreReply::Done => ended(Ok(Success::Registered)),
                StoreReply::Missing => ended(Err(WorkflowError::CourseNotFound)),
                _ => ended(Err(WorkflowError::ContentStoreUnavailable)),
            },
            Enrollment::Finished(outcome) => ended(outcome),
        }
    }

    /// Computes `start_spec`.
    pub fn start(request: CourseStatusRegister) -> (r: (Enrollment, Action))
        ensures
            r == Enrollment::start_spec(request),
    {
        match DocId::parse(request.course_id.as_str()) {
            None => finish(Err(WorkflowError::InvalidCourseId)),
            Some(course) => {
                let user_email = request.user_email.clone();
                (
                    Enrollment::CheckingRecord { user_email: request.user_email, course },
                    Action::Call(StoreCall::GetRecord { user_email, course }),
                )
            },
        }
    }

    /// Computes `advance_spec`.
    pub fn advance_at(self, reply: StoreReply, now: String) -> (r: (Enrollment, Action))
        ensures
            r == self.advance_spec(reply, now),
    {
        match self {
            Enrollment::CheckingRecord { user_email, course } => match reply {
                StoreReply::Record(Some(_)) => finish(Err(WorkflowError::AlreadyRegistered)),
                StoreReply::Record(None) => (
                    Enrollment::WritingRecord { course },
                    Action::Call(StoreCall::CreateRecord { user_email, course, timestamp: now }),
                ),
                _ => finish(Err(WorkflowError::ProgressStoreUnavailable)),
            },
            Enrollment::WritingRecord { course } => match reply {
                StoreReply::Done => (
                    Enrollment::Counting,
                    Action::Call(StoreCall::AddInscribed { course }),
                ),
                _ => finish(Err(WorkflowError::ProgressStoreUnavailable)),
            },
            Enrollment::Counting => match reply {
                StoreReply::Done => finish(Ok(Success::Registered)),
                StoreReply::Missing => finish(Err(WorkflowError::CourseNotFound)),
                _ => finish(Err(WorkflowError::ContentStoreUnavailable)),
            },
            Enrollment::Finished(outcome) => finish(outcome),
        }
    }

    /// The step that follows `reply`, at the time of the call: `advance_spec`
    /// for the text that the clock gave.
    pub fn advance(self, reply: StoreReply) -> (r: (Enrollment, Action))
        ensures
            exists|now: String| r == #[trigger] self.advance_spec(reply, now),
    {
        let now = timestamp_now();
        self.advance_at(reply, now)
    }
}

/// The end of a registration with `outcome`.
pub open spec fn ended(outcome: Result<Success, WorkflowError>) -> (Enrollment, Action) {
    (Enrollment::Finished(outcome), Action::Finish(outcome))
}

fn finish(outcome: Result<Success, WorkflowError>) -> (r: (Enrollment, Action))
    ensures
        r == ended(outcome),
{
    (Enrollment::Finished(outcome), Action::Finish(outcome))
}

/// How far the end of a registration has come.
#[derive(Debug)]
pub enum Withdrawal {
    /// Waiting for the record to be deleted.
    Deleting,
    /// Ended.
    Finished(Result<Success, WorkflowError>),
}

impl Withdrawal {
    /// The first step. Nobody is registered under a course id that is no
    /// id, so there is nothing to delete and the withdrawal has succeeded.
    pub open spec fn start_spec(request: DeleteRegisterRequest) -> (Withdrawal, Action) {
        match DocId::spelled_by(request.course_id@) {
            None => withdrawn(Ok(Success::Unregistered)),
            Some(course) => (
                Withdrawal::Deleting,
                Action::Call(StoreCall::DeleteRecord { user_email: request.user_email, course }),
            ),
        }
    }

    /// The step that follows `reply`. Whether there was a record to delete
    /// makes no difference.
    pub open spec fn advance_spec(self, reply: StoreReply) -> (Withdrawal, Action) {
        match self {
            Withdrawal::Deleting => match reply {
                StoreReply::Done | StoreReply::Missing => withdrawn(Ok(Success::Unregistered)),
                _ => withdrawn(Err(WorkflowError::ProgressStoreUnavailable)),
            },
            Withdrawal::Finished(outcome) => withdrawn(outcome),
        }
    }

    /// Computes `start_spec`.
    pub fn start(request: DeleteRegisterRequest) -> (r: (Withdrawal, Action))
        ensures
            r == Withdrawal::start_spec(request),
    {
        match DocId::parse(request.course_id.as_str()) {
            None => finish_withdrawal(Ok(Success::Unregistered)),
            Some(course) => (
                Withdrawal::Deleting,
                Action::Call(StoreCall::DeleteRecord { user_email: request.user_email, course }),
            ),
        }
    }

    /// Computes `advance_spec`.
    pub fn advance(self, reply: StoreReply) -> (r: (Withdrawal, Action))
        ensures
            r == self.advance_spec(reply),
    {
        match self {
            Withdrawal::Deleting => match reply {
                StoreReply::Done => finish_withdrawal(Ok(Success::Unregistered)),
                StoreReply::Missing => finish_withdrawal(Ok(Success::Unregistered)),
                _ => finish_withdrawal(Err(WorkflowError::ProgressStoreUnavailable)),
            },
            Withdrawal::Finished(outcome) => finish_withdrawal(outcome),
        }
    }
}

/// The end of a withdrawal with `outcome`.
pub open spec fn withdrawn(outcome: Result<Success, WorkflowError>) -> (Withdrawal, Action) {
    (Withdrawal::Finished(outcome), Action::Finish(outcome))
}

fn finish_withdrawal(outcome: Result<Success, WorkflowError>) -> (r: (Withdrawal, Action))
    ensures
        r == withdrawn(outcome),
{
    (Withdrawal::Finished(outcome), Action::Finish(outcome))
}

} // verus!
