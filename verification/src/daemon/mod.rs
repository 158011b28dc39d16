use vstd::prelude::*;

use crate::config::ConfigFile;
use crate::error::Error;
use crate::frame::Frame;
use crate::status::DaemonStatus;

pub mod start;
pub use start::{start, StartJob, StartStep};
pub mod stop;
pub use stop::{stop, StopJob, StopStep};

verus! {

/// Held by the daemon while it runs; giving it up is what removes the PID
/// file when the daemon is asked to stop.
#[derive(Debug, PartialEq, Eq, Structural)]
pub struct ExitGuard;

/// The daemon's state, kept behind a lock so that one request at a time
/// reads and changes it.
pub struct InnerState {
    pub exit_guard: Option<ExitGuard>,
    pub status: DaemonStatus,
    /// This should be the _only_ source of truth for config information to the
    /// daemon. That way, consistency can be guaranteed because the state is
    /// held behind a mutex.
    pub config: Option<ConfigFile>,
}

impl InnerState {
    /// The state of a daemon that just started: holding its exit guard, on
    /// standby, with whatever configuration could be loaded.
    pub fn new(e: ExitGuard, config: Option<ConfigFile>) -> (r: InnerState)
        ensures
            r.exit_guard == Some(e),
            r.status == DaemonStatus::Standby,
            r.config == config,
    {
        InnerState { exit_guard: Some(e), status: DaemonStatus::Standby, config }
    }
}

/// What the daemon does with a frame a client sent.
#[derive(Debug)]
pub enum ClientReply {
    /// Tear the server down (load the installation and stop it, see
    /// `Installation::stop`), keeping the state locked, and go on with the
    /// job.
    TearDown(ShutdownJob),
    /// Send the frame and wait for the next one.
    Reply(Frame),
    /// Ignore the frame.
    Ignore,
}

/// A client's request to stop daemon and server, once the daemon began to
/// tear the server down.
#[derive(Clone, Copy, Debug, PartialEq, Eq, Structural)]
pub enum ShutdownJob {
    AwaitingTeardown,
}

/// What ends a client's request to stop daemon and server: the daemon gives
/// up its exit guard (if still held), reports a failed teardown, sends
/// `reply` and exits.
#[derive(Debug)]
pub struct ShutdownStep {
    pub released: Option<ExitGuard>,
    pub reply: Frame,
    /// Why the server could not be torn down, if it could not.
    pub teardown_error: Option<Error>,
}

/// Decides what the daemon does with a frame from a client: `Stop` begins
/// tearing the server down (the daemon reports it as stopping), `QueryStatus`
/// is answered with the current status, and any other frame is ignored.
pub fn handle_client_frame(state: &mut InnerState, frame: Frame) -> (r: ClientReply)
    ensures
        final(state).config == old(state).config,
        final(state).exit_guard == old(state).exit_guard,
        match frame {
            Frame::Stop() => {
                &&& r == ClientReply::TearDown(ShutdownJob::AwaitingTeardown)
                &&& final(state).status == DaemonStatus::ServerStopping
            },
            Frame::QueryStatus() => {
                &&& r == ClientReply::Reply(Frame::Status(old(state).status))
                &&& final(state).status == old(state).status
            },
            _ => r == ClientReply::Ignore && final(state).status == old(state).status,
        },
{
    match frame {
        Frame::Stop() => {
            state.status = DaemonStatus::ServerStopping;
            ClientReply::TearDown(ShutdownJob::AwaitingTeardown)
        },
        Frame::QueryStatus() => ClientReply::Reply(Frame::Status(state.status)),
        _ => ClientReply::Ignore,
    }
}

impl ShutdownJob {
    /// After the teardown, whether it succeeded or not, the daemon gives up
    /// its exit guard, answers `Stopped` and exits. A successful teardown puts
    /// the daemon back on standby; a failed one leaves the status as it was
    /// and is handed on to be reported.
    pub fn server_stopped(self, state: &mut InnerState, stopped: Result<(), Error>) -> (r: ShutdownStep)
        ensures
            final(state).config == old(state).config,
            final(state).exit_guard is None,
            r.released == old(state).exit_guard,
            r.reply == Frame::Stopped(),
            match stopped {
                Ok(_) => r.teardown_error is None && final(state).status == DaemonStatus::Standby,
                Err(e) => r.teardown_error == Some(e) && final(state).status == old(state).status,
            },
    {
        let released = state.exit_guard.take();
        let teardown_error = match stopped {
            Ok(_) => {
                state.status = DaemonStatus::Standby;
                None
            },
            Err(e) => Some(e),
        };
        ShutdownStep { released, reply: Frame::Stopped(), teardown_error }
    }
}

} // verus!
