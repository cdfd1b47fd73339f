//! The calls that a workflow makes on the stores, the replies that come back,
//! and what a workflow ends in.
//!
//! A workflow never touches a store itself. It names the next call; whoever
//! runs it performs the call and hands the reply back.

use crate::completed::CompletedSet;
use crate::error::WorkflowError;
use crate::object_id::DocId;
use crate::progress::Status;
use crate::rating::StoredRating;
use vstd::prelude::*;

verus! {

/// One call on a store.
#[derive(Debug)]
pub enum StoreCall {
    /// Content store: is there a class with this id?
    FindClass { class: DocId },
    /// Content store: the ids of the units of a course.
    ListUnits { course: DocId },
    /// Content store: the number of classes that belong to one of the units.
    CountClasses { units: Vec<DocId> },
    /// Content store: add one to the number of users inscribed in a course.
    AddInscribed { course: DocId },
    /// Content store: the rating state of a course.
    FindCourseRating { course: DocId },
    /// Content store: set the mean rating of a course and add one to the
    /// number of its ratings, as one update.
    SetCourseRating { course: DocId, rating_bits: u32 },
    /// Progress store: the record of a user in a course.
    GetRecord { user_email: String, course: DocId },
    /// Progress store: write the record of a user who has just registered.
    CreateRecord { user_email: String, course: DocId, timestamp: String },
    /// Progress store: add a class to the completed classes of a record, as
    /// one atomic update, where there is such a record.
    AddCompleted { user_email: String, course: DocId, class: DocId },
    /// Progress store: write status, percentage, completed classes and
    /// timestamp of a record, as one write.
    SaveProgress {
        user_email: String,
        course: DocId,
        status: Status,
        percentage: u64,
        completed: CompletedSet,
        timestamp: String,
    },
    /// Progress store: delete the record of a user in a course.
    DeleteRecord { user_email: String, course: DocId },
    /// Graph mirror: add the edge of a rating from a user to a course.
    MirrorRating { user_email: String, course: DocId, rating_bits: u32, timestamp: String },
    /// Progress store: note a rating in the record of the user in the
    /// course, where there is one.
    NoteRating { user_email: String, course: DocId, rating_bits: u32, timestamp: String },
}

/// What came back from a call.
#[derive(Debug)]
pub enum StoreReply {
    /// The call failed.
    Failed,
    /// A write was applied.
    Done,
    /// An update found nothing to apply to.
    Missing,
    /// To `FindClass`: whether there is such a class.
    Found(bool),
    /// To `ListUnits`.
    Units(Vec<DocId>),
    /// To `CountClasses`.
    Count(u64),
    /// To `FindCourseRating`: the state, or nothing where there is no such
    /// course.
    CourseRating(Option<StoredRating>),
    /// To `GetRecord`: the completed classes of the record, or nothing where
    /// there is no record.
    Record(Option<CompletedSet>),
}

/// What a workflow that succeeded has done.
#[derive(Clone, Copy, Debug, PartialEq, Eq, Structural)]
pub enum Success {
    /// The user is registered for the course.
    Registered,
    /// The class is among the completed ones; status and percentage are
    /// those now on record.
    ClassCompleted { status: Status, percentage: u64 },
    /// The rating is counted; `rating_bits` is the new mean. `mirrored` tells
    /// whether the secondary write was made as well.
    RatingAccepted { rating_bits: u32, mirrored: bool },
    /// The user has no record for the course any more.
    Unregistered,
    /// The status is on record, with the percentage derived anew.
    StatusUpdated { status: Status, percentage: u64 },
}

/// What a workflow wants next: a call on a store, or to end.
#[derive(Debug)]
pub enum Action {
    Call(StoreCall),
    Finish(Result<Success, WorkflowError>),
}

impl Success {
    /// The text that answers a success.
    pub open spec fn message_text(self) -> Seq<char> {
        match self {
            Success::Registered => "User registered to course successfully!"@,
            Success::ClassCompleted { .. } => "Class completed and course updated."@,
            Success::RatingAccepted { mirrored, .. } => if mirrored {
                "Rating submitted successfully."@
            } else {
                "Rating submitted successfully; it could not be mirrored."@
            },
            Success::Unregistered => "Register deleted successfully"@,
            Success::StatusUpdated { .. } => "Course status updated."@,
        }
    }

    /// Computes `message_text`.
    pub fn message(&self) -> (text: String)
        ensures
            text@ == self.message_text(),
    {
        match self {
            Success::Registered => String::from_str("User registered to course successfully!"),
            Success::ClassCompleted { .. } => String::from_str(
                "Class completed and course updated.",
            ),
            Success::RatingAccepted { mirrored, .. } => if *mirrored {
                String::from_str("Rating submitted successfully.")
            } else {
                String::from_str("Rating submitted successfully; it could not be mirrored.")
            },
            Success::Unregistered => String::from_str("Register deleted successfully"),
            Success::StatusUpdated { .. } => String::from_str("Course status updated."),
        }
    }
}

} // verus!
