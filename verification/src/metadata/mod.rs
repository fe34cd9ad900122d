//! The metadata service: turns content ids into content descriptions.

pub mod config;

use vstd::prelude::*;

pub use config::AppConfig;

verus! {

/// A request for the content with the given id.
#[derive(Clone, Copy, Debug, PartialEq, Eq, Structural)]
pub struct MaterializeRequest {
    pub id: u32,
}

/// The metadata service with its configuration.
#[derive(Debug)]
pub struct MetadataService {
    config: AppConfig,
}

/// The metadata service installed as a gRPC server.
#[derive(Debug)]
pub struct MetadataServer {
    service: MetadataService,
}

impl MetadataService {
    /// The configuration the service was made with.
    pub closed spec fn spec_config(&self) -> AppConfig {
        self.config
    }

    /// Makes the service from its configuration.
    pub fn new(config: AppConfig) -> (s: MetadataService)
        ensures
            s.spec_config() == config,
    {
        MetadataService { config }
    }

    /// Installs the service as a server.
    pub fn into_server(self) -> (server: MetadataServer)
        ensures
            server.spec_service() == self,
    {
        MetadataServer { service: self }
    }
}

impl MetadataServer {
    /// The service that the server answers with.
    pub closed spec fn spec_service(&self) -> MetadataService {
        self.service
    }
}

} // verus!
