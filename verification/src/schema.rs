//! The records the application keeps: people, rides, riders and sessions.

pub mod person;
pub mod ride;
pub mod rider;
pub mod session;

pub use person::Person;
pub use ride::Ride;
pub use rider::Rider;
pub use session::Session;
