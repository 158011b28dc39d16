use vstd::prelude::*;

use crate::version::VersionRequirement;

verus! {

/// The user's configuration: which server releases to run.
#[derive(Debug)]
pub struct ConfigFile {
    pub server_version: VersionRequirement,
}

impl Clone for ConfigFile {
    fn clone(&self) -> (r: ConfigFile)
        ensures
            r.server_version@ == self.server_version@,
    {
        ConfigFile { server_version: self.server_version.clone() }
    }
}

/// What reading the configuration file gave.
#[derive(Debug)]
pub enum ConfigLoad {
    Loaded(ConfigFile),
    /// There is no configuration file.
    Missing,
    /// The file exists but could not be read as a configuration.
    Invalid,
}

} // verus!
