//! Resolving a record id to an object of this domain.
use crate::store::ImageRecord;
use vstd::prelude::*;

verus! {

/// What a record lookup found, relative to the domain that asked.
#[derive(Clone, Copy, Debug, PartialEq, Eq, Structural)]
pub enum Lookup {
    /// No record has the id.
    Absent,
    /// The record points into another domain's container.
    Foreign,
    /// The record points into this domain's container.
    Owned,
}

pub open spec fn classify(found: Option<ImageRecord>, container: Seq<char>) -> Lookup {
    match found {
        None => Lookup::Absent,
        Some(rec) => if rec.container@ == container {
            Lookup::Owned
        } else {
            Lookup::Foreign
        },
    }
}

/// Classifies the result of a lookup for the domain owning `container`.
pub fn classify_lookup(found: &Option<ImageRecord>, container: &String) -> (r: Lookup)
    ensures
        r == classify(*found, container@),
{
    match found {
        None => Lookup::Absent,
        Some(rec) => if rec.container == *container {
            Lookup::Owned
        } else {
            Lookup::Foreign
        },
    }
}

} // verus!
