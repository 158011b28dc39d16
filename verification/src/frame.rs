use vstd::prelude::*;

use crate::error::Error;
use crate::status::DaemonStatus;

verus! {

/// Why the daemon could not do what it was asked to.
#[derive(Debug)]
pub enum Reason {
    MissingConfig,
    UpdateFailed(Error),
    StartingFailed(Error),
    StoppingFailed(Error),
}

/// A message between the command line client and the daemon.
#[derive(Debug)]
pub enum Frame {
    Dummy(),
    Stop(),
    Stopped(),
    QueryStatus(),
    Status(DaemonStatus),
    Failed(Reason),
}

impl Default for Frame {
    fn default() -> (r: Frame)
        ensures
            r == Frame::Dummy(),
    {
        Frame::Dummy()
    }
}

} // verus!
