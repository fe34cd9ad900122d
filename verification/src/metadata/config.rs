use vstd::prelude::*;

verus! {

/// Configuration of the metadata service.
#[derive(Debug)]
pub struct AppConfig {
    pub server: ServerConfig,
    pub auth: AuthConfig,
}

/// Where the service listens.
#[derive(Debug)]
pub struct ServerConfig {
    pub port: u16,
}

/// The public key that tokens are checked against.
#[derive(Debug)]
pub struct AuthConfig {
    pub pk: String,
}

} // verus!
