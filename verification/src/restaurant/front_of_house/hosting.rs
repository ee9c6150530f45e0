//! Seating of guests.

use vstd::prelude::*;

verus! {

/// Puts a party on the waiting list. No list is kept yet.
pub fn add_to_waitlist() {
}

} // verus!
