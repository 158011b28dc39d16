use vstd::prelude::*;

use crate::config::{ConfigFile, ConfigLoad};
use crate::error::Error;
use crate::frame::{Frame, Reason};
use crate::installation::Installation;
use crate::status::DaemonStatus;
use crate::version::{VersionRequirement, semver_req_matches};

use super::InnerState;

verus! {

/// Where the daemon's start of the server stands.
pub enum StartJob {
    AwaitingConfig,
    AwaitingInstallation(ConfigFile),
    AwaitingUpdate,
    AwaitingServer,
    Finished,
}

/// What the daemon's start of the server asks to be done next.
#[derive(Debug)]
pub enum StartStep {
    /// Load the configuration file.
    LoadConfig,
    /// Load the installation (see `Installation::load`).
    LoadInstallation,
    /// Update the installation to the requirement (see `Installation::update`).
    Update(VersionRequirement),
    /// Start the server (see `Installation::start`).
    StartServer,
    /// Send the frame to the requester; the start has ended.
    Reply(Frame),
    /// The start has ended; nothing is sent.
    Complete,
}

/// Begins starting the server, with the daemon's state locked for the whole
/// start. A configuration that is already loaded is used as it is.
pub fn start(state: &mut InnerState) -> (r: (StartJob, StartStep))
    ensures
        final(state).config == old(state).config,
        final(state).exit_guard == old(state).exit_guard,
        match old(state).config {
            None => {
                &&& r.0 matches StartJob::AwaitingConfig
                &&& r.1 == StartStep::LoadConfig
                &&& final(state).status == old(state).status
            },
            Some(c) => {
                &&& r.0 matches StartJob::AwaitingInstallation(k) && k.server_version@
                    == c.server_version@
                &&& r.1 == StartStep::LoadInstallation
                &&& final(state).status == DaemonStatus::ServerStarting
            },
        },
{
    match &state.config {
        None => (StartJob::AwaitingConfig, StartStep::LoadConfig),
        Some(c) => {
            let config = c.clone();
            state.status = DaemonStatus::ServerStarting;
            (StartJob::AwaitingInstallation(config), StartStep::LoadInstallation)
        },
    }
}

impl StartJob {
    /// After the configuration file was read: a configuration is kept in the
    /// state and the start goes on; a missing or invalid one is reported in
    /// the status (`MissingConfig`, `InvalidConfig`) and the start fails with
    /// `MissingConfig`.
    pub fn config_loaded(self, state: &mut InnerState, loaded: ConfigLoad) -> (r: (
        StartJob,
        StartStep,
    ))
        requires
            self matches StartJob::AwaitingConfig,
            old(state).config is None,
        ensures
            final(state).exit_guard == old(state).exit_guard,
            match loaded {
                ConfigLoad::Loaded(c) => {
                    &&& final(state).config == Some(c)
                    &&& r.0 matches StartJob::AwaitingInstallation(k) && k.server_version@
                        == c.server_version@
                    &&& r.1 == StartStep::LoadInstallation
                    &&& final(state).status == DaemonStatus::ServerStarting
                },
                ConfigLoad::Missing => {
                    &&& final(state).config is None
                    &&& r.0 matches StartJob::Finished
                    &&& r.1 == StartStep::Reply(Frame::Failed(Reason::MissingConfig))
                    &&& final(state).status == DaemonStatus::MissingConfig
                },
                ConfigLoad::Invalid => {
                    &&& final(state).config is None
                    &&& r.0 matches StartJob::Finished
                    &&& r.1 == StartStep::Reply(Frame::Failed(Reason::MissingConfig))
                    &&& final(state).status == DaemonStatus::InvalidConfig
                },
            },
    {
        match loaded {
            ConfigLoad::Loaded(c) => {
                let config = c.clone();
                state.config = Some(c);
                state.status = DaemonStatus::ServerStarting;
                (StartJob::AwaitingInstallation(config), StartStep::LoadInstallation)
            },
            ConfigLoad::Missing => {
                state.status = DaemonStatus::MissingConfig;
                (StartJob::Finished, StartStep::Reply(Frame::Failed(Reason::MissingConfig)))
            },
            ConfigLoad::Invalid => {
                state.status = DaemonStatus::InvalidConfig;
                (StartJob::Finished, StartStep::Reply(Frame::Failed(Reason::MissingConfig)))
            },
        }
    }

    /// After the installation was loaded: update it unless it already
    /// satisfies the configured requirement, then start the server.
    pub fn installation_loaded(self, installation: &Installation) -> (r: (StartJob, StartStep))
        requires
            self matches StartJob::AwaitingInstallation(_),
        ensures
            self matches StartJob::AwaitingInstallation(c) ==> if semver_req_matches(
                c.server_version@,
                installation.manifest.version@,
            ) {
                r.0 matches StartJob::AwaitingServer && r.1 == StartStep::StartServer
            } else {
                &&& r.0 matches StartJob::AwaitingUpdate
                &&& r.1 matches StartStep::Update(q) && q@ == c.server_version@
            },
    {
        match self {
            StartJob::AwaitingInstallation(config) => {
                if !installation.is_current(&config.server_version) {
                    (StartJob::AwaitingUpdate, StartStep::Update(config.server_version))
                } else {
                    (StartJob::AwaitingServer, StartStep::StartServer)
                }
            },
            _ => (StartJob::AwaitingServer, StartStep::StartServer),
        }
    }

    /// After the update: a failed update ends the start with `UpdateFailed`.
    pub fn updated(self, updated: Result<(), Error>) -> (r: (StartJob, StartStep))
        requires
            self matches StartJob::AwaitingUpdate,
        ensures
            match updated {
                Ok(_) => r.0 matches StartJob::AwaitingServer && r.1 == StartStep::StartServer,
                Err(e) => r.0 matches StartJob::Finished && r.1 == StartStep::Reply(
                    Frame::Failed(Reason::UpdateFailed(e)),
                ),
            },
    {
        match updated {
            Ok(_) => (StartJob::AwaitingServer, StartStep::StartServer),
            Err(e) => (StartJob::Finished, StartStep::Reply(Frame::Failed(Reason::UpdateFailed(e)))),
        }
    }

    /// After the server's start: only a successful start makes the daemon
    /// report the server as running; a failed one ends with `StartingFailed`.
    pub fn server_started(self, state: &mut InnerState, started: Result<(), Error>) -> (r: (
        StartJob,
        StartStep,
    ))
        requires
            self matches StartJob::AwaitingServer,
        ensures
            r.0 matches StartJob::Finished,
            final(state).config == old(state).config,
            final(state).exit_guard == old(state).exit_guard,
            match started {
                Ok(_) => r.1 == StartStep::Complete && final(state).status
                    == DaemonStatus::ServerRunning,
                Err(e) => r.1 == StartStep::Reply(Frame::Failed(Reason::StartingFailed(e)))
                    && final(state).status == old(state).status,
            },
    {
        match started {
            Ok(_) => {
                state.status = DaemonStatus::ServerRunning;
                (StartJob::Finished, StartStep::Complete)
            },
            Err(e) => (
                StartJob::Finished,
                StartStep::Reply(Frame::Failed(Reason::StartingFailed(e))),
            ),
        }
    }
}

} // verus!
