//! A small quote service: create, list and update quote records.
//!
//! The crate holds the verified core of the service: the entity model
//! (`quote`), the request-handling logic that turns parsed input and
//! persistence outcomes into responses (`handlers`), a model of the
//! backing table with its uniqueness invariant (`table`), and the laws
//! that relate the operations (`laws`).

pub mod handlers;
pub mod laws;
pub mod quote;
pub mod table;

use vstd::prelude::*;

verus! {

/// The outcomes a handler can signal, one per HTTP status the service uses.
#[derive(Clone, Copy, Debug, PartialEq, Eq, Structural)]
pub enum Status {
    Okay,
    Created,
    NotFound,
    InternalServerError,
}

impl Status {
    /// The numeric HTTP status code of this outcome.
    pub fn code(&self) -> (r: u16)
        ensures
            r == self.spec_code(),
    {
        match self {
            Status::Okay => 200,
            Status::Created => 201,
            Status::NotFound => 404,
            Status::InternalServerError => 500,
        }
    }

    /// The numeric code each outcome stands for.
    pub open spec fn spec_code(self) -> u16 {
        match self {
            Status::Okay => 200,
            Status::Created => 201,
            Status::NotFound => 404,
            Status::InternalServerError => 500,
        }
    }
}

/// The one error the persistence layer surfaces: every storage failure is
/// collapsed to this opaque value before a handler maps it to a response.
#[derive(Clone, Copy, Debug, PartialEq, Eq, Structural)]
pub enum DbError {
    Failure,
}

} // verus!
