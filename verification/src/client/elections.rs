//! Elections: which block to read the validators of an era from.

use vstd::prelude::*;

verus! {

/// How many seats a committee has.
#[derive(Clone, Copy, Debug, PartialEq, Eq, Structural)]
pub struct CommitteeSeats {
    pub reserved_seats: u32,
    pub non_reserved_seats: u32,
}

/// The first block of a session, in which the validators of its era are read.
pub fn era_validators_block(session_period: u32, session_index: u32) -> (block: u32)
    requires
        session_period * session_index <= u32::MAX,
    ensures
        block == session_period * session_index,
{
    session_period * session_index
}

} // verus!
