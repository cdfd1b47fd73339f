//! Courses as the content store holds them and as they are sent.

use crate::comment::CommentSend;
use crate::error::WorkflowError;
use crate::object_id::DocId;
use crate::rating::{rating_of_bits, Rating, StoredRating};
use crate::unit::UnitFullCourse;
use vstd::prelude::*;

verus! {

/// A course as the content store holds it. The mean rating is a
/// single-precision number, given by its bits, and absent until the course
/// is rated.
#[derive(Debug)]
pub struct Course {
    pub id: Option<DocId>,
    pub name: String,
    pub description: String,
    pub rating_bits: Option<u32>,
    pub total_rates: u64,
    pub image: String,
    pub image_banner: String,
    pub units: Vec<DocId>,
    pub inscribed: u64,
}

/// A course as it is sent in.
#[derive(Debug)]
pub struct CourseReceive {
    pub name: String,
    pub description: String,
    pub rating_bits: Option<u32>,
    pub image: String,
    pub image_banner: String,
}

/// A whole course as it is sent in: with its units and their classes.
#[derive(Debug)]
pub struct FullCourse {
    pub name: String,
    pub description: String,
    pub image: String,
    pub image_banner: String,
    pub units: Vec<UnitFullCourse>,
}

/// What the list of courses shows of a course.
#[derive(Debug)]
pub struct CourseSummary {
    pub name: String,
    pub description: String,
    pub image_banner: String,
    pub rating_bits: Option<u32>,
}

/// A course with the comments on it.
#[derive(Debug)]
pub struct CourseWithComments {
    pub course: Course,
    pub comments: Vec<CommentSend>,
}

impl CourseReceive {
    /// The rating, where one is given, is a number between 1 and 5.
    pub open spec fn valid(&self) -> bool {
        self.rating_bits matches Some(bits) ==> rating_of_bits(bits) is Some
    }
}

impl Course {
    /// The course to store for one that was sent in: without an id, which
    /// the store gives it, with no units, no users and no ratings counted. A
    /// course that comes with a rating outside 1 to 5 is turned down.
    pub fn received(course: &CourseReceive) -> (r: Result<Course, WorkflowError>)
        ensures
            r is Ok <==> course.valid(),
            r matches Err(e) ==> e == WorkflowError::InvalidRating,
            r matches Ok(stored) ==> {
                &&& stored.id is None
                &&& stored.name == course.name
                &&& stored.description == course.description
                &&& stored.rating_bits == course.rating_bits
                &&& stored.total_rates == 0
                &&& stored.image == course.image
                &&& stored.image_banner == course.image_banner
                &&& stored.units@.len() == 0
                &&& stored.inscribed == 0
            },
    {
        match course.rating_bits {
            Some(bits) => {
                if Rating::from_f32_bits(bits).is_none() {
                    return Err(WorkflowError::InvalidRating);
                }
            },
            None => {},
        }
        Ok(
            Course {
                id: None,
                name: course.name.clone(),
                description: course.description.clone(),
                rating_bits: course.rating_bits,
                total_rates: 0,
                image: course.image.clone(),
                image_banner: course.image_banner.clone(),
                units: Vec::new(),
                inscribed: 0,
            },
        )
    }

    /// The course to store for a whole course that was sent in, before its
    /// units are stored: without an id, unrated, with no units and no users.
    pub fn of_full(course: &FullCourse) -> (stored: Course)
        ensures
            stored.id is None,
            stored.name == course.name,
            stored.description == course.description,
            stored.rating_bits is None,
            stored.total_rates == 0,
            stored.image == course.image,
            stored.image_banner == course.image_banner,
            stored.units@.len() == 0,
            stored.inscribed == 0,
    {
        Course {
            id: None,
            name: course.name.clone(),
            description: course.description.clone(),
            rating_bits: None,
            total_rates: 0,
            image: course.image.clone(),
            image_banner: course.image_banner.clone(),
            units: Vec::new(),
            inscribed: 0,
        }
    }

    /// What the list of courses shows of the course.
    pub fn summary(&self) -> (shown: CourseSummary)
        ensures
            shown.name == self.name,
            shown.description == self.description,
            shown.image_banner == self.image_banner,
            shown.rating_bits == self.rating_bits,
    {
        CourseSummary {
            name: self.name.clone(),
            description: self.description.clone(),
            image_banner: self.image_banner.clone(),
            rating_bits: self.rating_bits,
        }
    }

    /// The rating state of the course.
    pub fn stored_rating(&self) -> (stored: StoredRating)
        ensures
            stored == (StoredRating {
                rating_bits: self.rating_bits,
                total_rates: self.total_rates,
            }),
    {
        StoredRating { rating_bits: self.rating_bits, total_rates: self.total_rates }
    }
}

} // verus!
