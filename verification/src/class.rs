//! Classes: the lessons of a unit.

use crate::object_id::DocId;
use vstd::prelude::*;

verus! {

/// A class as the content store holds it.
#[derive(Debug)]
pub struct Classy {
    pub id: Option<DocId>,
    pub unit_id: Option<DocId>,
    pub name: String,
    pub description: String,
    pub order: usize,
    pub video: String,
    pub tutor: String,
    pub support_material: Vec<String>,
}

/// A class as it is sent in.
#[derive(Debug)]
pub struct ClassyReceive {
    pub unit_id: Option<DocId>,
    pub name: String,
    pub description: String,
    pub order: usize,
    pub video: String,
    pub tutor: String,
    pub support_material: Vec<String>,
}

/// A class as it is sent out: without the ids.
#[derive(Debug)]
pub struct ClassySend {
    pub name: String,
    pub description: String,
    pub order: usize,
    pub video: String,
    pub tutor: String,
    pub support_material: Vec<String>,
}

impl Classy {
    /// The class to store for one that was sent in. It has no id yet: the
    /// store gives it one.
    pub fn received(class: ClassyReceive) -> (stored: Classy)
        ensures
            stored.id is None,
            stored.unit_id == class.unit_id,
            stored.name == class.name,
            stored.description == class.description,
            stored.order == class.order,
            stored.video == class.video,
            stored.tutor == class.tutor,
            stored.support_material == class.support_material,
    {
        Classy {
            id: None,
            unit_id: class.unit_id,
            name: class.name,
            description: class.description,
            order: class.order,
            video: class.video,
            tutor: class.tutor,
            support_material: class.support_material,
        }
    }

    /// The class to store for one that was sent in as part of the unit
    /// `unit`, whatever unit it names itself.
    pub fn received_in(class: ClassyReceive, unit: DocId) -> (stored: Classy)
        ensures
            stored.id is None,
            stored.unit_id == Some(unit),
            stored.name == class.name,
            stored.description == class.description,
            stored.order == class.order,
            stored.video == class.video,
            stored.tutor == class.tutor,
            stored.support_material == class.support_material,
    {
        Classy {
            id: None,
            unit_id: Some(unit),
            name: class.name,
            description: class.description,
            order: class.order,
            video: class.video,
            tutor: class.tutor,
            support_material: class.support_material,
        }
    }

    /// The class as it is sent out.
    pub fn into_send(self) -> (sent: ClassySend)
        ensures
            sent.name == self.name,
            sent.description == self.description,
            sent.order == self.order,
            sent.video == self.video,
            sent.tutor == self.tutor,
            sent.support_material == self.support_material,
    {
        ClassySend {
            name: self.name,
            description: self.description,
            order: self.order,
            video: self.video,
            tutor: self.tutor,
            support_material: self.support_material,
        }
    }
}

} // verus!
