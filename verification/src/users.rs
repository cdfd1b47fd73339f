//! The users of the content store.

use crate::object_id::DocId;
use vstd::prelude::*;

verus! {

/// How far a user has looked into a course.
#[derive(Debug)]
pub struct SeenCourse {
    pub name: String,
    pub unit: usize,
    pub class: usize,
}

/// A user as the content store holds it.
#[derive(Debug)]
pub struct User {
    pub id: Option<DocId>,
    pub name: String,
    pub seen_unit_class: Vec<SeenCourse>,
}

/// A user as it is sent in.
#[derive(Debug)]
pub struct UserReceive {
    pub name: String,
}

impl User {
    /// The user to store for one that was sent in: without an id, which the
    /// store gives it, and with nothing seen.
    pub fn received(user: &UserReceive) -> (stored: User)
        ensures
            stored.id is None,
            stored.name == user.name,
            stored.seen_unit_class@.len() == 0,
    {
        User { id: None, name: user.name.clone(), seen_unit_class: Vec::new() }
    }
}

} // verus!
