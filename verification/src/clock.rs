//! The current congress, derived from the wall clock.
//!
//! A congress is a two-year session; the first met in 1789. The number of the
//! congress in session now is the one context-sensitive input of validation:
//! a citation naming a later congress is rejected. The clock is read where
//! [`crate::Citation::parse`] is called; validation itself takes the bound as
//! a plain argument and is verified for every value of it.

use vstd::prelude::*;
use vstd::arithmetic::div_mod::lemma_div_is_ordered;

verus! {

/// Relies on `std::time::SystemTime::now` and
/// `SystemTime::duration_since(UNIX_EPOCH)`: the seconds elapsed since the
/// Unix epoch, or zero if the system clock stands before the epoch. No
/// particular value can be promised of it.
#[verifier::external_body]
fn epoch_seconds() -> u64 {
    match std::time::SystemTime::now().duration_since(std::time::UNIX_EPOCH) {
        Ok(d) => d.as_secs(),
        Err(_) => 0,
    }
}

/// The number of the congress in session now: the current calendar year is
/// derived from the wall clock, and the year maps to congress
/// `(year - 1789) / 2 + 1`. The clock only moves forward from 1970, so the
/// result is at least 91, the congress of 1970.
pub fn current_congress() -> (r: u64)
    ensures
        91 <= r,
{
    let secs: u64 = epoch_seconds();
    proof {
        lemma_div_is_ordered(secs as int, u64::MAX as int, 31536000);
    }
    let year: u64 = secs / 31536000 + 1970;
    proof {
        lemma_div_is_ordered(181, year - 1789, 2);
        lemma_div_is_ordered(year as int - 1789, u64::MAX as int, 2);
    }
    (year - 1789) / 2 + 1
}

} // verus!
