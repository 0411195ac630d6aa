//! Rides offered by drivers.

use vstd::prelude::*;
use crate::clock::Timestamp;
use crate::errors::AppError;
use crate::ids::{new_v4_id, uuid_hyphenated_string, uuid_hyphenated_text, uuid_variant_bits, uuid_version};
use crate::money::Cost;
use crate::schema::person::Person;

verus! {

/// A ride offered by a driver.
#[derive(Debug)]
pub struct Ride {
    pub id: u128,
    /// The email of the driver.
    pub driver: String,
    /// How many passengers the driver takes.
    pub seats: i32,
    pub departure: Timestamp,
    pub start_location: String,
    pub end_location: String,
    /// The contribution asked of each passenger, if any.
    pub cost: Option<Cost>,
    /// Whether the ride shows up in searches.
    pub public: bool,
}

/// The address of a ride's page.
pub open spec fn ride_link_text(id: u128) -> Seq<char> {
    "/rides/"@ + uuid_hyphenated_text(id)
}

impl Ride {
    /// A new ride driven by `driver`, with a fresh random identifier.
    pub fn create(
        driver: &Person,
        seats: i32,
        departure: Timestamp,
        start_location: String,
        end_location: String,
        cost: Option<Cost>,
        public: bool,
    ) -> (r: Ride)
        ensures
            r.driver@ == driver@.email,
            r.seats == seats,
            r.departure == departure,
            r.start_location == start_location,
            r.end_location == end_location,
            r.cost == cost,
            r.public == public,
            uuid_version(r.id) == 4,
            uuid_variant_bits(r.id) == 2,
    {
        Ride {
            id: new_v4_id(),
            driver: driver.email().clone(),
            seats,
            departure,
            start_location,
            end_location,
            cost,
            public,
        }
    }

    /// The address of the ride's page.
    pub fn link(&self) -> (r: String)
        ensures
            r@ == ride_link_text(self.id),
    {
        let mut link = String::from_str("/rides/");
        let id = uuid_hyphenated_string(self.id);
        link.append(id.as_str());
        link
    }

    /// Whether `user` may reserve or give up a seat on the ride: drivers may
    /// not, on their own rides.
    pub fn check_passenger(&self, user: &String) -> (r: Result<(), AppError>)
        ensures
            r == (if self.driver@ == user@ {
                Err::<(), AppError>(AppError::NotAllowed)
            } else {
                Ok::<(), AppError>(())
            }),
    {
        if self.driver == *user {
            Err(AppError::NotAllowed)
        } else {
            Ok(())
        }
    }

    /// The contribution asked of each passenger, printed; none where the price
    /// is left to be agreed.
    pub fn cost_text(&self) -> (r: Option<String>)
        ensures
            r is Some <==> self.cost is Some,
            r matches Some(t) ==> t@ == self.cost->Some_0.display(),
    {
        match &self.cost {
            Some(c) => Some(c.to_text()),
            None => None,
        }
    }
}

} // verus!
