use vstd::prelude::*;

verus! {

/// Where the daemon keeps its PID file.
pub const PID_FILE: &'static str = "/tmp/scadmd.1.pid";

/// The FIFO on which the daemon listens for clients.
pub const SOCK_PATH: &'static str = "/tmp/scadmd.sock";

/// The data directory's name inside the user's home directory.
pub const DATA_DIR_NAME: &'static str = ".scadm";

/// The user's configuration file's name inside the data directory.
pub const CONFIG_FILE_NAME: &'static str = "config.yaml";

/// The installation slots' directory names inside the data directory.
pub const INSTALL_DIR_A: &'static str = "server-a";

pub const INSTALL_DIR_B: &'static str = "server-b";

/// The server manifest's file name inside the data directory.
pub const MANIFEST_FILE_NAME: &'static str = "servermanifest.yaml";

/// The shared volumes' directory inside the data directory, and the MongoDB
/// volume inside it.
pub const SHARED_VOLUMES_DIR: &'static str = "shared/volumes";

pub const MONGODB_VOLUME_DIR: &'static str = "mongodb";

} // verus!
