//! A wedding RSVP repository: records for the members of a household,
//! looked up by a unique id or by household, with three boolean response
//! fields that a patch may flip.
//!
//! The domain types and record construction live in [`rsvp`]; the
//! repository's model of the backing table and its four operations live
//! in [`store`]; the compilation of a patch into the store's update
//! expression lives in [`expression`].

pub mod expression;
pub mod rsvp;
pub mod store;
