//! The user statistics service: queries over the users of the platform.

pub mod config;
pub mod test_utils;

use vstd::prelude::*;

use crate::time::Timestamp;

pub use config::AppConfig;

verus! {

/// A user as the statistics service returns it.
#[derive(Debug)]
pub struct User {
    pub email: String,
    pub name: String,
}

/// A condition that a user's id list field contains one of the ids.
#[derive(Debug)]
pub struct IdQuery {
    pub ids: Vec<u32>,
}

/// A condition on a timestamp field: the instant lies before `before` and
/// after `after`, where each bound is present.
#[derive(Debug)]
pub struct TimeQuery {
    pub before: Option<Timestamp>,
    pub after: Option<Timestamp>,
}

} // verus!
