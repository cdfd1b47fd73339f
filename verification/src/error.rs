//! The ways in which a workflow fails, and how a failure is answered.

use vstd::prelude::*;

verus! {

/// Why a workflow ended without doing what was asked.
#[derive(Clone, Copy, Debug, PartialEq, Eq, Structural)]
pub enum WorkflowError {
    /// The course id is not 24 hexadecimal digits.
    InvalidCourseId,
    /// The class id is not 24 hexadecimal digits.
    InvalidClassId,
    /// The rating is not a number between 1 and 5.
    InvalidRating,
    /// The status is `InProgress` with more than 100 percent.
    InvalidStatus,
    /// The user has a progress record for the course already.
    AlreadyRegistered,
    /// The user has no progress record for the course.
    NotRegistered,
    /// The content store holds no such course.
    CourseNotFound,
    /// The content store holds no such class.
    ClassNotFound,
    /// A call to the content store failed.
    ContentStoreUnavailable,
    /// A call to the progress store failed.
    ProgressStoreUnavailable,
}

/// The four classes of failure.
#[derive(Clone, Copy, Debug, PartialEq, Eq, Structural)]
pub enum ErrorClass {
    /// Malformed input, turned down before any store is touched.
    Validation,
    /// The request contradicts the state of a registration.
    Conflict,
    /// A course or class is absent.
    NotFound,
    /// A backing store failed.
    StoreUnavailable,
}

impl WorkflowError {
    /// The class that the failure belongs to.
    pub open spec fn class_of(self) -> ErrorClass {
        match self {
            WorkflowError::InvalidCourseId
            | WorkflowError::InvalidClassId
            | WorkflowError::InvalidRating
            | WorkflowError::InvalidStatus => ErrorClass::Validation,
            WorkflowError::AlreadyRegistered | WorkflowError::NotRegistered => ErrorClass::Conflict,
            WorkflowError::CourseNotFound | WorkflowError::ClassNotFound => ErrorClass::NotFound,
            WorkflowError::ContentStoreUnavailable
            | WorkflowError::ProgressStoreUnavailable => ErrorClass::StoreUnavailable,
        }
    }

    /// The HTTP status that answers the failure: 400 for malformed input and
    /// for conflicts, 404 for what is absent, 500 for a failing store.
    pub open spec fn status_code(self) -> u16 {
        match self.class_of() {
            ErrorClass::Validation | ErrorClass::Conflict => 400,
            ErrorClass::NotFound => 404,
            ErrorClass::StoreUnavailable => 500,
        }
    }

    /// The text that answers the failure.
    pub open spec fn message_text(self) -> Seq<char> {
        match self {
            WorkflowError::InvalidCourseId => "Invalid course ID format."@,
            WorkflowError::InvalidClassId => "Invalid class ID format."@,
            WorkflowError::InvalidRating => "Rating must be between 1 and 5"@,
            WorkflowError::InvalidStatus => "Progress must be between 0 and 100."@,
            WorkflowError::AlreadyRegistered => "User is already registered for this course."@,
            WorkflowError::NotRegistered => "User is not registered in the course."@,
            WorkflowError::CourseNotFound => "Course not found."@,
            WorkflowError::ClassNotFound => "Class not found in the course."@,
            WorkflowError::ContentStoreUnavailable => "The content store failed."@,
            WorkflowError::ProgressStoreUnavailable => "The progress store failed."@,
        }
    }

    /// Computes `class_of`.
    pub fn class(&self) -> (c: ErrorClass)
        ensures
            c == self.class_of(),
    {
        match self {
            WorkflowError::InvalidCourseId => ErrorClass::Validation,
            WorkflowError::InvalidClassId => ErrorClass::Validation,
            WorkflowError::InvalidRating => ErrorClass::Validation,
            WorkflowError::InvalidStatus => ErrorClass::Validation,
            WorkflowError::AlreadyRegistered => ErrorClass::Conflict,
            WorkflowError::NotRegistered => ErrorClass::Conflict,
            WorkflowError::CourseNotFound => ErrorClass::NotFound,
            WorkflowError::ClassNotFound => ErrorClass::NotFound,
            WorkflowError::ContentStoreUnavailable => ErrorClass::StoreUnavailable,
            WorkflowError::ProgressStoreUnavailable => ErrorClass::StoreUnavailable,
        }
    }

    /// Computes `status_code`.
    pub fn http_status(&self) -> (code: u16)
        ensures
            code == self.status_code(),
            code == 400 || code == 404 || code == 500,
    {
        match self.class() {
            ErrorClass::Validation => 400,
            ErrorClass::Conflict => 400,
            ErrorClass::NotFound => 404,
            ErrorClass::StoreUnavailable => 500,
        }
    }

    /// Computes `message_text`.
    pub fn message(&self) -> (text: String)
        ensures
            text@ == self.message_text(),
    {
        match self {
            WorkflowError::InvalidCourseId => String::from_str("Invalid course ID format."),
            WorkflowError::InvalidClassId => String::from_str("Invalid class ID format."),
            WorkflowError::InvalidRating => String::from_str("Rating must be between 1 and 5"),
            WorkflowError::InvalidStatus => String::from_str(
                "Progress must be between 0 and 100.",
            ),
            WorkflowError::AlreadyRegistered => String::from_str(
                "User is already registered for this course.",
            ),
            WorkflowError::NotRegistered => String::from_str(
                "User is not registered in the course.",
            ),
            WorkflowError::CourseNotFound => String::from_str("Course not found."),
            WorkflowError::ClassNotFound => String::from_str("Class not found in the course."),
            WorkflowError::ContentStoreUnavailable => String::from_str(
                "The content store failed.",
            ),
            WorkflowError::ProgressStoreUnavailable => String::from_str(
                "The progress store failed.",
            ),
        }
    }
}

} // verus!
