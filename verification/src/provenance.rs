//! Where an answer of the runtime comes from.
//!
//! Nothing can be said of the value that the runtime answers with, so the definitions
//! below hold of every value. They are closed: outside this file nothing is known of
//! them, and the only way to have one of a value is to have got that value from the
//! call that states it. So code that throws an answer away and goes by a value of its
//! own cannot meet a contract that speaks of an answer.

use vstd::prelude::*;

use anchor_lang::prelude::{ProgramError, Rent};

verus! {

/// The runtime answered a request for its clock with `clock`.
pub closed spec fn clock_answered(clock: Result<i64, ProgramError>) -> bool {
    true
}

/// The runtime answered a request for its rent parameters with `rent`.
pub closed spec fn rent_answered(rent: Result<Rent, ProgramError>) -> bool {
    true
}

} // verus!
