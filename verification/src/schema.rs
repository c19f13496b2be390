//! The schema of the store as a whole.

use vstd::prelude::*;
use crate::types::label_views;

verus! {

/// The texts of the statements that set up the store: those for aircraft,
/// then those for flights.
pub open spec fn init_texts() -> Seq<Seq<char>> {
    crate::aircraft::init_texts() + crate::flight::init_texts()
}

/// The statements that set up the store, to be run in this order within one
/// transaction: the enumerations, the tables of aircraft, of flights and of
/// flight segments, and the two spatial indexes. Each creates what is missing
/// and leaves the rest, so that running all of them again changes nothing.
pub fn init() -> (statements: Vec<String>)
    ensures
        label_views(statements@) == init_texts(),
{
    let mut statements: Vec<String> = crate::aircraft::init_statements();
    let mut flights: Vec<String> = crate::flight::init_statements();
    statements.append(&mut flights);
    statements
}

} // verus!
