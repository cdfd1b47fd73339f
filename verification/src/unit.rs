//! Units: the parts of a course.

use crate::class::ClassyReceive;
use crate::object_id::DocId;
use crate::sorting::{sorts_stably, stable_places};
use vstd::prelude::*;

verus! {

/// A unit as the content store holds it.
#[derive(Debug)]
pub struct Unit {
    pub id: Option<DocId>,
    pub course_id: Option<DocId>,
    pub name: String,
    pub order: usize,
}

/// A unit as it is sent in.
#[derive(Debug)]
pub struct UnitReceive {
    pub course_id: Option<DocId>,
    pub name: String,
    pub order: usize,
}

/// A unit as it is sent out.
#[derive(Debug)]
pub struct UnitSend {
    pub unit_id: Option<DocId>,
    pub name: String,
    pub order: usize,
}

/// A unit as it is sent in with a whole course: with its classes.
#[derive(Debug)]
pub struct UnitFullCourse {
    pub name: String,
    pub order: usize,
    pub classes: Vec<ClassyReceive>,
}

impl Unit {
    /// The unit to store for one that was sent in. It has no id yet: the
    /// store gives it one.
    pub fn received(unit: UnitReceive) -> (stored: Unit)
        ensures
            stored.id is None,
            stored.course_id == unit.course_id,
            stored.name == unit.name,
            stored.order == unit.order,
    {
        Unit { id: None, course_id: unit.course_id, name: unit.name, order: unit.order }
    }

    /// The unit to store for the unit `unit` of a whole course that was sent
    /// in, once the course has the id `course`.
    pub fn of_course(unit: &UnitFullCourse, course: DocId) -> (stored: Unit)
        ensures
            stored.id is None,
            stored.course_id == Some(course),
            stored.name == unit.name,
            stored.order == unit.order,
    {
        Unit { id: None, course_id: Some(course), name: unit.name.clone(), order: unit.order }
    }

    /// The unit as it is sent out.
    pub fn into_send(self) -> (sent: UnitSend)
        ensures
            sent.unit_id == self.id,
            sent.name == self.name,
            sent.order == self.order,
    {
        UnitSend { unit_id: self.id, name: self.name, order: self.order }
    }
}

/// The orders of `units`, as keys to sort by.
pub open spec fn orders_of(units: Seq<UnitSend>) -> Seq<u128> {
    units.map_values(|u: UnitSend| u.order as u128)
}

/// The number that a document id is: its twelve bytes, big-endian.
pub open spec fn number_of(id: DocId) -> u128 {
    (id.seconds as u128 * 0x1_0000_0000_0000_0000 + id.tail as u128) as u128
}

/// The numbers of `ids`, as keys to sort by.
pub open spec fn numbers_of(ids: Seq<DocId>) -> Seq<u128> {
    ids.map_values(|id: DocId| number_of(id))
}

/// The units in the order of their `order`; units of the same order stay
/// in the order in which they came.
pub fn sort_by_order(units: &Vec<UnitSend>) -> (sorted: Vec<UnitSend>)
    ensures
        sorted.len() == units.len(),
        exists|places: Seq<usize>| #[trigger]
            sorts_stably(orders_of(units@), places) && forall|i: int|
                0 <= i < sorted.len() ==> sorted@[i] == units@[places[i] as int],
        forall|i: int, j: int|
            0 <= i <= j < sorted.len() ==> (#[trigger] sorted@[i]).order <= (
            #[trigger] sorted@[j]).order,
{
    let mut keys: Vec<u128> = Vec::new();
    let mut k: usize = 0;
    while k < units.len()
        invariant
            k <= units.len(),
            keys@ == orders_of(units@.subrange(0, k as int)),
        decreases units.len() - k,
    {
        keys.push(units[k].order as u128);
        assert(keys@ =~= orders_of(units@.subrange(0, k + 1)));
        k = k + 1;
    }
    assert(units@.subrange(0, units@.len() as int) =~= units@);
    let places = stable_places(&keys);
    let mut sorted: Vec<UnitSend> = Vec::new();
    let mut i: usize = 0;
    while i < places.len()
        invariant
            i <= places.len(),
            sorted.len() == i,
            sorts_stably(orders_of(units@), places@),
            forall|j: int| 0 <= j < i ==> sorted@[j] == units@[places@[j] as int],
        decreases places.len() - i,
    {
        let at: usize = places[i];
        let unit = &units[at];
        sorted.push(UnitSend { unit_id: unit.unit_id, name: unit.name.clone(), order: unit.order });
        i = i + 1;
    }
    proof {
        assert forall|a: int, b: int| 0 <= a <= b < sorted.len() implies (
        #[trigger] sorted@[a]).order <= (#[trigger] sorted@[b]).order by {
            if a < b {
                assert(crate::sorting::comes_before(
                    orders_of(units@),
                    places@[a] as int,
                    places@[b] as int,
                ));
            }
        }
    }
    sorted
}

/// The unit ids of a course once `unit` has joined them: all of them in
/// ascending order, as the content store sorts ids.
pub fn with_unit(units: &Vec<DocId>, unit: DocId) -> (sorted: Vec<DocId>)
    ensures
        sorted.len() == units.len() + 1,
        exists|places: Seq<usize>| #[trigger]
            sorts_stably(numbers_of(units@.push(unit)), places) && forall|i: int|
                0 <= i < sorted.len() ==> sorted@[i] == units@.push(unit)[places[i] as int],
        forall|i: int, j: int|
            0 <= i <= j < sorted.len() ==> number_of(#[trigger] sorted@[i]) <= number_of(
                #[trigger] sorted@[j],
            ),
{
    let ghost all = units@.push(unit);
    let mut keys: Vec<u128> = Vec::new();
    let mut k: usize = 0;
    while k < units.len()
        invariant
            k <= units.len(),
            keys@ == numbers_of(units@.subrange(0, k as int)),
        decreases units.len() - k,
    {
        keys.push(id_number(units[k]));
        assert(keys@ =~= numbers_of(units@.subrange(0, k + 1)));
        k = k + 1;
    }
    assert(units@.subrange(0, units@.len() as int) =~= units@);
    keys.push(id_number(unit));
    assert(keys@ =~= numbers_of(all));
    let places = stable_places(&keys);
    let mut sorted: Vec<DocId> = Vec::new();
    let mut i: usize = 0;
    while i < places.len()
        invariant
            i <= places.len(),
            sorted.len() == i,
            all == units@.push(unit),
            sorts_stably(numbers_of(all), places@),
            forall|j: int| 0 <= j < i ==> sorted@[j] == all[places@[j] as int],
        decreases places.len() - i,
    {
        let at: usize = places[i];
        if at < units.len() {
            sorted.push(units[at]);
        } else {
            sorted.push(unit);
        }
        i = i + 1;
    }
    proof {
        assert forall|a: int, b: int| 0 <= a <= b < sorted.len() implies number_of(
            #[trigger] sorted@[a],
        ) <= number_of(#[trigger] sorted@[b]) by {
            if a < b {
                assert(crate::sorting::comes_before(
                    numbers_of(all),
                    places@[a] as int,
                    places@[b] as int,
                ));
            }
        }
    }
    sorted
}

/// Computes `number_of`.
pub fn id_number(id: DocId) -> (n: u128)
    ensures
        n == number_of(id),
{
    id.seconds as u128 * 0x1_0000_0000_0000_0000 + id.tail as u128
}

} // verus!
