//! A person's seat on a ride, with the thumb up or down the person gave it, if any.

use vstd::prelude::*;

verus! {

/// A person's seat on a ride.
#[derive(Debug)]
#[allow(dead_code)]
pub struct Rider {
    ride: u128,
    person: String,
    review: Option<bool>,
}

} // verus!
