use vstd::prelude::*;

verus! {

/// Configuration of the CRM service.
#[derive(Debug)]
pub struct AppConfig {
    pub server: ServerConfig,
    pub auth: AuthConfig,
}

/// Where the service listens, the sender of its e-mails and the addresses of
/// the services it calls.
#[derive(Debug)]
pub struct ServerConfig {
    pub port: u16,
    pub sender_email: String,
    pub metadata: String,
    pub user_stats: String,
    pub notification: String,
}

/// The public key that callers' tokens are checked against.
#[derive(Debug)]
pub struct AuthConfig {
    pub pk: String,
}

} // verus!
