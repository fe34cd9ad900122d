//! Where a service reads its configuration from.

use vstd::prelude::*;

verus! {

/// The place a configuration file is read from.
#[derive(Debug)]
pub enum ConfigSource {
    /// The file in the working directory.
    Local,
    /// The file under `/etc/config`.
    System,
    /// The file named by the service's environment variable.
    Env(String),
}

/// Why no configuration could be read.
#[derive(Clone, Copy, Debug, PartialEq, Eq, Structural)]
pub enum ConfigError {
    /// Neither file opens and the environment variable is not set.
    NotFound,
}

/// Chooses the configuration to read, in order of precedence: the local file
/// when it opens, else the system file when it opens, else the file named by
/// the environment variable when it is set.
pub fn config_source(local_opens: bool, system_opens: bool, env_path: Option<String>) -> (r: Result<ConfigSource, ConfigError>)
    ensures
        local_opens ==> r matches Ok(ConfigSource::Local),
        !local_opens && system_opens ==> r matches Ok(ConfigSource::System),
        !local_opens && !system_opens ==> match env_path {
            Some(p) => r matches Ok(ConfigSource::Env(q)) && q == p,
            None => r == Err::<ConfigSource, ConfigError>(ConfigError::NotFound),
        },
{
    if local_opens {
        Ok(ConfigSource::Local)
    } else if system_opens {
        Ok(ConfigSource::System)
    } else {
        match env_path {
            Some(path) => Ok(ConfigSource::Env(path)),
            None => Err(ConfigError::NotFound),
        }
    }
}

} // verus!
