//! Ride-sharing organiser: the verified core of the rules that decide what the
//! web front end stores, shows and answers.

pub mod clock;
pub mod crypto;
pub mod errors;
pub mod forms;
pub mod ids;
pub mod money;
pub mod pages;
pub mod pix;
pub mod schema;
pub mod text;

pub use errors::AppError;
