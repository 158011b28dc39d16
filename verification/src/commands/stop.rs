use vstd::prelude::*;

use crate::error::Error;
use crate::frame::Frame;
use crate::numtext::{
    decimal, is_digit, lemma_decimal_value, lemma_parse_decimal_i32, parse_i32, parse_i32_text,
};
use vstd::string::StrSliceExecFns;

verus! {

/// How `scadm stop` goes about stopping the daemon.
#[derive(Clone, Copy, Debug, PartialEq, Eq, Structural)]
pub enum StopPlan {
    /// No PID file: report that the daemon does not run.
    NotRunning,
    /// Ask the daemon to stop; a failure aborts the command.
    Graceful,
    /// Ask the daemon to stop, and kill it if that fails or takes longer than
    /// `FORCE_TIMEOUT_SECS` seconds.
    GracefulOrKill,
}

/// How long a forced stop waits for the daemon before killing it.
pub const FORCE_TIMEOUT_SECS: u64 = 60;

/// Decides how `scadm stop` proceeds, given whether the daemon's PID file
/// exists and whether `--force` was given.
pub fn stop_plan(pid_file_exists: bool, force: bool) -> (r: StopPlan)
    ensures
        !pid_file_exists ==> r == StopPlan::NotRunning,
        pid_file_exists && force ==> r == StopPlan::GracefulOrKill,
        pid_file_exists && !force ==> r == StopPlan::Graceful,
{
    if !pid_file_exists {
        StopPlan::NotRunning
    } else if force {
        StopPlan::GracefulOrKill
    } else {
        StopPlan::Graceful
    }
}

pub open spec fn unexpected_reply_text() -> Seq<char> {
    "Unerwartete Nachricht"@
}

pub open spec fn no_reply_text() -> Seq<char> {
    "Fehler bei der normalen beendigung"@
}

/// Judges the daemon's answer to a `Stop` frame: only `Stopped` means the
/// daemon stopped; another frame, or no frame, is an error.
pub fn stop_reply_outcome(reply: Result<Frame, Error>) -> (r: Result<(), Error>)
    ensures
        match reply {
            Ok(Frame::Stopped()) => r is Ok,
            Ok(_) => r matches Err(e) && e.has_message(unexpected_reply_text()),
            Err(_) => r matches Err(e) && e.has_message(no_reply_text()),
        },
{
    match reply {
        Ok(Frame::Stopped()) => Ok(()),
        Ok(_) => Err(Error::with_message("Unerwartete Nachricht")),
        Err(_) => Err(Error::with_message("Fehler bei der normalen beendigung")),
    }
}

/// Whether a forced stop goes on to kill the daemon after asking it to stop:
/// exactly when asking failed.
pub fn kill_needed(ended: &Result<(), Error>) -> (r: bool)
    ensures
        r == ended is Err,
{
    ended.is_err()
}

/// The part of a PID file's text that holds the process id: the whole text,
/// less one trailing newline (the daemon writes its id followed by one).
pub open spec fn pid_file_text(s: Seq<char>) -> Seq<char> {
    if s.len() > 0 && s.last() == '\n' {
        s.drop_last()
    } else {
        s
    }
}

/// Reads the daemon's process id from the text of its PID file: one trailing
/// newline is dropped, and the rest is read as `str::parse::<i32>` does; a
/// rest that is not exactly a decimal `i32` is a parsing error.
pub fn parse_pid(text: &str) -> (r: Result<i32, Error>)
    ensures
        match parse_i32_text(pid_file_text(text@)) {
            Some(v) => r == Ok::<i32, Error>(v),
            None => r == Err::<i32, Error>(Error::Parsing),
        },
{
    let n = text.unicode_len();
    let body = if n > 0 && text.get_char(n - 1) == '\n' {
        text.substring_char(0, n - 1)
    } else {
        text
    };
    proof {
        assert(body@ =~= pid_file_text(text@));
    }
    match parse_i32(body) {
        Some(v) => Ok(v),
        None => Err(Error::Parsing),
    }
}

/// The text the daemon writes to its PID file, the decimal id and a newline,
/// reads back as that id; so does the id without the newline.
pub proof fn lemma_pid_file_roundtrip(id: i32)
    requires
        id >= 0,
    ensures
        parse_i32_text(pid_file_text(decimal(id as nat).push('\n'))) == Some(id),
        parse_i32_text(pid_file_text(decimal(id as nat))) == Some(id),
{
    lemma_parse_decimal_i32(id);
    lemma_decimal_value(id as nat);
    let d = decimal(id as nat);
    assert(d.push('\n').drop_last() =~= d);
    assert(d.last() != '\n') by {
        assert(is_digit(d[d.len() - 1]));
    }
}

/// How sending SIGKILL to the daemon went.
#[derive(Clone, Copy, Debug, PartialEq, Eq, Structural)]
pub enum SignalOutcome {
    Delivered,
    /// No process has that id (`ESRCH`).
    NoSuchProcess,
    /// Any other error.
    Failed,
}

/// What a kill reports.
#[derive(Clone, Copy, Debug, PartialEq, Eq, Structural)]
pub enum KillVerdict {
    /// The daemon was killed.
    Forced,
    /// The daemon was not running; the stop counts as forced.
    NotRunning,
    /// The signal could not be sent: the command aborts.
    Abort,
}

/// Judges the result of sending SIGKILL to the daemon.
pub fn kill_verdict(outcome: SignalOutcome) -> (r: KillVerdict)
    ensures
        outcome == SignalOutcome::Delivered ==> r == KillVerdict::Forced,
        outcome == SignalOutcome::NoSuchProcess ==> r == KillVerdict::NotRunning,
        outcome == SignalOutcome::Failed ==> r == KillVerdict::Abort,
{
    match outcome {
        SignalOutcome::Delivered => KillVerdict::Forced,
        SignalOutcome::NoSuchProcess => KillVerdict::NotRunning,
        SignalOutcome::Failed => KillVerdict::Abort,
    }
}

} // verus!
