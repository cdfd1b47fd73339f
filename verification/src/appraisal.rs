//! Rating a course.
//!
//! A rating outside 1 to 5 is turned down before any store is touched. An
//! accepted one is folded into the running mean of the course, which is
//! written back together with the count, and then mirrored by a secondary
//! write. The mean is computed from the state that was read: two runs that
//! read the same state lose one of the two ratings. Nothing here prevents
//! that. The secondary write is no part of the rating: where it fails the
//! rating still counts, and the outcome says that it was not mirrored.

use crate::clock::timestamp_now;
use crate::error::WorkflowError;
use crate::object_id::DocId;
use crate::rating::{next_stored_mean, rating_of_bits, stored_mean_after, Rating};
use crate::request::RatingRequest;
use crate::store::{Action, StoreCall, StoreReply, Success};
use vstd::prelude::*;

verus! {

/// Where the secondary write of a rating goes.
#[derive(Clone, Copy, Debug, PartialEq, Eq, Structural)]
pub enum RatingSink {
    /// An edge in the graph mirror.
    Graph,
    /// A note in the record of the user in the course, in the progress store.
    UserData,
}

/// How far the rating of a course has come.
#[derive(Debug)]
pub enum Appraisal {
    /// Waiting for the rating state of the course.
    ReadingRating { user_email: String, course: DocId, rating_bits: u32, sink: RatingSink },
    /// Waiting for the new mean to be written.
    WritingRating {
        user_email: String,
        course: DocId,
        rating_bits: u32,
        mean_bits: u32,
        sink: RatingSink,
    },
    /// Waiting for the secondary write.
    Mirroring { mean_bits: u32 },
    /// Ended.
    Finished(Result<Success, WorkflowError>),
}

/// The end of a rating with `outcome`.
pub open spec fn appraisal_ended(outcome: Result<Success, WorkflowError>) -> (Appraisal, Action) {
    (Appraisal::Finished(outcome), Action::Finish(outcome))
}

fn end_appraisal(outcome: Result<Success, WorkflowError>) -> (r: (Appraisal, Action))
    ensures
        r == appraisal_ended(outcome),
{
    (Appraisal::Finished(outcome), Action::Finish(outcome))
}

/// The secondary write of a rating to `sink`.
pub open spec fn mirror_call(
    sink: RatingSink,
    user_email: String,
    course: DocId,
    rating_bits: u32,
    timestamp: String,
) -> StoreCall {
    match sink {
        RatingSink::Graph => StoreCall::MirrorRating { user_email, course, rating_bits, timestamp },
        RatingSink::UserData => StoreCall::NoteRating {
            user_email,
            course,
            rating_bits,
            timestamp,
        },
    }
}

impl Appraisal {
    /// The first step. A rating that is no number between 1 and 5, and then
    /// a course id that is no id, end the run before any store is touched.
    pub open spec fn start_spec(request: RatingRequest, sink: RatingSink) -> (Appraisal, Action) {
        if rating_of_bits(request.rating_bits) is None {
            appraisal_ended(Err(WorkflowError::InvalidRating))
        } else {
            match DocId::spelled_by(request.course_id@) {
                None => appraisal_ended(Err(WorkflowError::InvalidCourseId)),
                Some(course) => (
                    Appraisal::ReadingRating {
                        user_email: request.user_email,
                        course,
                        rating_bits: request.rating_bits,
                        sink,
                    },
                    Action::Call(StoreCall::FindCourseRating { course }),
                ),
            }
        }
    }

    /// The step that follows `reply`, at the time `now`.
    ///
    /// A state that is no rating state counts as a failure of the content
    /// store. A write of the mean that finds no course ends the run as
    /// `CourseNotFound`, and no secondary write follows. Once the mean is
    /// written the rating is accepted, whatever the secondary write comes
    /// to.
    pub open spec fn advance_spec(self, reply: StoreReply, now: String) -> (Appraisal, Action) {
        match self {
            Appraisal::ReadingRating { user_email, course, rating_bits, sink } => match reply {
                StoreReply::CourseRating(Some(stored)) => match rating_of_bits(rating_bits) {
                    Some(rating) => match stored_mean_after(stored, rating) {
                        Some(mean_bits) => (
                            Appraisal::WritingRating {
                                user_email,
                                course,
                                rating_bits,
                                mean_bits,
                                sink,
                            },
                            Action::Call(
                                StoreCall::SetCourseRating { course, rating_bits: mean_bits },
                            ),
                        ),
                        None => appraisal_ended(Err(WorkflowError::ContentStoreUnavailable)),
                    },
                    None => appraisal_ended(Err(WorkflowError::InvalidRating)),
                },
                StoreReply::CourseRating(None) => appraisal_ended(
                    Err(WorkflowError::CourseNotFound),
                ),
                _ => appraisal_ended(Err(WorkflowError::ContentStoreUnavailable)),
            },
            Appraisal::WritingRating {
                user_email,
                course,
                rating_bits,
                mean_bits,
                sink,
            } => match reply {
                StoreReply::Done => (
                    Appraisal::Mirroring { mean_bits },
                    Action::Call(mirror_call(sink, user_email, course, rating_bits, now)),
                ),
                StoreReply::Missing => appraisal_ended(Err(WorkflowError::CourseNotFound)),
                _ => appraisal_ended(Err(WorkflowError::ContentStoreUnavailable)),
            },
            Appraisal::Mirroring { mean_bits } => appraisal_ended(
                Ok(
                    Success::RatingAccepted {
                        rating_bits: mean_bits,
                        mirrored: reply is Done,
                    },
                ),
            ),
            Appraisal::Finished(outcome) => appraisal_ended(outcome),
        }
    }

    /// Computes `start_spec`.
    pub fn start(request: RatingRequest, sink: RatingSink) -> (r: (Appraisal, Action))
        ensures
            r == Appraisal::start_spec(request, sink),
    {
        if Rating::from_f32_bits(request.rating_bits).is_none() {
            return end_appraisal(Err(WorkflowError::InvalidRating));
        }
        match DocId::parse(request.course_id.as_str()) {
            None => end_appraisal(Err(WorkflowError::InvalidCourseId)),
            Some(course) => (
                Appraisal::ReadingRating {
                    user_email: request.user_email,
                    course,
                    rating_bits: request.rating_bits,
                    sink,
                },
                Action::Call(StoreCall::FindCourseRating { course }),
            ),
        }
    }

    /// Computes `advance_spec`.
    pub fn advance_at(self, reply: StoreReply, now: String) -> (r: (Appraisal, Action))
        ensures
            r == self.advance_spec(reply, now),
    {
        match self {
            Appraisal::ReadingRating { user_email, course, rating_bits, sink } => match reply {
                StoreReply::CourseRating(Some(stored)) => match Rating::from_f32_bits(
                    rating_bits,
                ) {
                    Some(rating) => match next_stored_mean(stored, rating) {
                        Some(mean_bits) => (
                            Appraisal::WritingRating {
                                user_email,
                                course,
                                rating_bits,
                                mean_bits,
                                sink,
                            },
                            Action::Call(
                                StoreCall::SetCourseRating { course, rating_bits: mean_bits },
                            ),
                        ),
                        None => end_appraisal(Err(WorkflowError::ContentStoreUnavailable)),
                    },
                    None => end_appraisal(Err(WorkflowError::InvalidRating)),
                },
                StoreReply::CourseRating(None) => end_appraisal(
                    Err(WorkflowError::CourseNotFound),
                ),
                _ => end_appraisal(Err(WorkflowError::ContentStoreUnavailable)),
            },
            Appraisal::WritingRating {
                user_email,
                course,
                rating_bits,
                mean_bits,
                sink,
            } => match reply {
                StoreReply::Done => (
                    Appraisal::Mirroring { mean_bits },
                    Action::Call(secondary_write(sink, user_email, course, rating_bits, now)),
                ),
                StoreReply::Missing => end_appraisal(Err(WorkflowError::CourseNotFound)),
                _ => end_appraisal(Err(WorkflowError::ContentStoreUnavailable)),
            },
            Appraisal::Mirroring { mean_bits } => {
                let mirrored = match reply {
                    StoreReply::Done => true,
                    _ => false,
                };
                end_appraisal(Ok(Success::RatingAccepted { rating_bits: mean_bits, mirrored }))
            },
            Appraisal::Finished(outcome) => end_appraisal(outcome),
        }
    }

    /// The step that follows `reply`, at the time of the call: `advance_spec`
    /// for the text that the clock gave.
    pub fn advance(self, reply: StoreReply) -> (r: (Appraisal, Action))
        ensures
            exists|now: String| r == #[trigger] self.advance_spec(reply, now),
    {
        let now = timestamp_now();
        self.advance_at(reply, now)
    }
}

fn secondary_write(
    sink: RatingSink,
    user_email: String,
    course: DocId,
    rating_bits: u32,
    timestamp: String,
) -> (call: StoreCall)
    ensures
        call == mirror_call(sink, user_email, course, rating_bits, timestamp),
{
    match sink {
        RatingSink::Graph => StoreCall::MirrorRating { user_email, course, rating_bits, timestamp },
        RatingSink::UserData => StoreCall::NoteRating {
            user_email,
            course,
            rating_bits,
            timestamp,
        },
    }
}

} // verus!
