//! Seating guests.

use vstd::prelude::*;

verus! {

/// Puts the party on the host's waitlist; the examples track no further
/// state, so the call has no observable effect.
pub fn add_to_waitlist() {
}

} // verus!
