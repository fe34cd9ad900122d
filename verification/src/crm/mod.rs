//! The CRM front service: authenticates callers and drives the other
//! services to greet, recall and remind users.

pub mod auth;
pub mod config;
pub mod welcome;

pub use auth::DecodingKey;
pub use config::AppConfig;
