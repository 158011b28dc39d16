//! Verified core of the schueler-connect administration daemon (`scadmd`) and
//! its command line client (`scadm`): the wire framing between client and
//! daemon, the frames they exchange, the choice of installation slots and of
//! the server release to install, and the decisions the daemon and the client
//! take between their I/O steps.

pub mod status;
pub mod error;
pub mod numtext;
pub mod version;
pub mod github;
pub mod constants;
pub mod installation;
pub mod frame;
pub mod config;
pub mod conn;
pub mod daemon;
pub mod commands;
