//! The domain event vocabulary appended to the event log.
//!
//! The log itself treats an [`Event`] as an opaque, immutable payload; the
//! variants here are the closed set of state changes the application records.

use vstd::prelude::*;

verus! {

/// A person's identifier: the 128 bits of a ULID.
///
/// Identifier generation needs the clock and randomness, so it happens in
/// [`new_person_id`]; everything else works on the plain bits.
#[derive(Debug, Clone, Copy, PartialEq, Eq, Structural)]
pub struct PersonId {
    pub bits: u128,
}

/// Events about a single person.
#[derive(Debug, PartialEq, Eq)]
pub enum PersonEvent {
    PersonAdded { id: PersonId, name: String },
}

/// The closed, tagged union of every domain event the log can hold.
#[derive(Debug, PartialEq, Eq)]
pub enum Event {
    Person(PersonEvent),
}

impl Clone for PersonEvent {
    fn clone(&self) -> (r: Self)
        ensures
            r == *self,
    {
        match self {
            PersonEvent::PersonAdded { id, name } => PersonEvent::PersonAdded {
                id: *id,
                name: name.clone(),
            },
        }
    }
}

impl Clone for Event {
    fn clone(&self) -> (r: Self)
        ensures
            r == *self,
    {
        match self {
            Event::Person(pe) => Event::Person(pe.clone()),
        }
    }
}

/// Relies on `ulid::Ulid::generate`: a fresh ULID drawn from the clock and
/// the process's randomness, so nothing is promised about the returned bits.
#[verifier::external_body]
pub fn new_person_id() -> PersonId {
    PersonId { bits: ulid::Ulid::generate().0 }
}

/// The event recording that a person was added.
pub fn person_added(id: PersonId, name: String) -> (e: Event)
    ensures
        e == Event::Person(PersonEvent::PersonAdded { id, name }),
{
    Event::Person(PersonEvent::PersonAdded { id, name })
}

} // verus!
