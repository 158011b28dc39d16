use vstd::prelude::*;

use crate::error::Error;
use crate::frame::{Frame, Reason};
use crate::status::DaemonStatus;

use super::InnerState;

verus! {

/// Where the daemon's stop of the server stands.
#[derive(Clone, Copy, Debug, PartialEq, Eq, Structural)]
pub enum StopJob {
    AwaitingServer,
    Finished,
}

/// What the daemon's stop of the server asks to be done next.
#[derive(Debug)]
pub enum StopStep {
    /// Load the installation and stop the server (see `Installation::stop`).
    StopServer,
    /// Send the frame to the requester; the stop has ended.
    Reply(Frame),
    /// The stop has ended; nothing is sent.
    Complete,
}

/// Begins stopping the server, with the daemon's state locked for the whole
/// stop: the daemon reports the server as stopping.
pub fn stop(state: &mut InnerState) -> (r: (StopJob, StopStep))
    ensures
        r == (StopJob::AwaitingServer, StopStep::StopServer),
        final(state).status == DaemonStatus::ServerStopping,
        final(state).config == old(state).config,
        final(state).exit_guard == old(state).exit_guard,
{
    state.status = DaemonStatus::ServerStopping;
    (StopJob::AwaitingServer, StopStep::StopServer)
}

impl StopJob {
    /// After the server's teardown: the daemon is back on standby only when it
    /// succeeded; a failed one ends with `StoppingFailed`.
    pub fn server_stopped(self, state: &mut InnerState, stopped: Result<(), Error>) -> (r: (
        StopJob,
        StopStep,
    ))
        requires
            self == StopJob::AwaitingServer,
        ensures
            r.0 == StopJob::Finished,
            final(state).config == old(state).config,
            final(state).exit_guard == old(state).exit_guard,
            match stopped {
                Ok(_) => r.1 == StopStep::Complete && final(state).status == DaemonStatus::Standby,
                Err(e) => r.1 == StopStep::Reply(Frame::Failed(Reason::StoppingFailed(e)))
                    && final(state).status == old(state).status,
            },
    {
        match stopped {
            Ok(_) => {
                state.status = DaemonStatus::Standby;
                (StopJob::Finished, StopStep::Complete)
            },
            Err(e) => (StopJob::Finished, StopStep::Reply(Frame::Failed(Reason::StoppingFailed(e)))),
        }
    }
}

} // verus!
