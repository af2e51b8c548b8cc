//! Dynamic DNS updating, as verified decision logic.
//!
//! Given a zone, a record name and a new IPv4 address, a run finds the
//! existing A record of that name in the zone and asks the provider to point
//! it at the new address, keeping the record's TTL and proxy setting.
//!
//! The crate holds everything that is decided along the way: which record of
//! a listing is the one to update, what exactly the update request carries,
//! and how a run moves from one provider call to the next. The calls
//! themselves are made by the program that drives the run.

pub mod flow;
pub mod locator;
pub mod record;
pub mod run;
pub mod updater;
