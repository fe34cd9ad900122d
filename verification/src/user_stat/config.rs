use vstd::prelude::*;

verus! {

/// Configuration of the user statistics service.
#[derive(Debug)]
pub struct AppConfig {
    pub server: ServerConfig,
    pub auth: AuthConfig,
}

/// Where the service listens and which database it reads.
#[derive(Debug)]
pub struct ServerConfig {
    pub port: u16,
    pub db_url: String,
}

/// The public key that tokens are checked against.
#[derive(Debug)]
pub struct AuthConfig {
    pub pk: String,
}

} // verus!
