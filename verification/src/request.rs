//! What callers send.

use crate::progress::Status;
use vstd::prelude::*;

verus! {

/// A user has finished a class of a course.
#[derive(Debug)]
pub struct CompleteClass {
    pub user_email: String,
    pub course_id: String,
    pub class_id: String,
}

/// A user registers for a course.
#[derive(Debug)]
pub struct CourseStatusRegister {
    pub user_email: String,
    pub course_id: String,
}

/// A user leaves a course.
#[derive(Debug)]
pub struct DeleteRegisterRequest {
    pub user_email: String,
    pub course_id: String,
}

/// The courses of a user are asked for.
#[derive(Debug)]
pub struct UserCoursesRequest {
    pub user_email: String,
}

/// One course of a user.
#[derive(Debug)]
pub struct CourseId {
    pub course_id: String,
}

/// A user names the status of a course.
#[derive(Debug)]
pub struct CourseStatusUpdate {
    pub user_email: String,
    pub course_id: String,
    pub status: Status,
}

/// A user rates a course. The rating is a single-precision number, given by
/// its bits.
#[derive(Debug)]
pub struct RatingRequest {
    pub user_email: String,
    pub course_id: String,
    pub rating_bits: u32,
}

} // verus!
