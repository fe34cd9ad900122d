//! Verified core of a small CRM system made of four services: a metadata
//! service, a notification service, a user statistics service and the CRM
//! front service that combines them.

pub mod config;
pub mod crm;
pub mod metadata;
pub mod send;
pub mod status;
pub mod text;
pub mod time;
pub mod user_stat;
