use vstd::prelude::*;

verus! {

/// What `scadm start` does before launching the daemon.
#[derive(Clone, Copy, Debug, PartialEq, Eq, Structural)]
pub enum LaunchPlan {
    /// No PID file: launch the daemon.
    Launch,
    /// A PID file and `--force`: end the process named in the PID file with
    /// SIGKILL, remove the PID file, then launch.
    KillThenLaunch,
    /// A PID file without `--force`: refuse and exit with status 1.
    Refuse,
}

/// Decides how `scadm start` proceeds, given whether the daemon's PID file
/// exists and whether `--force` was given.
pub fn launch_plan(pid_file_exists: bool, force: bool) -> (r: LaunchPlan)
    ensures
        !pid_file_exists ==> r == LaunchPlan::Launch,
        pid_file_exists && force ==> r == LaunchPlan::KillThenLaunch,
        pid_file_exists && !force ==> r == LaunchPlan::Refuse,
{
    if pid_file_exists {
        if force {
            LaunchPlan::KillThenLaunch
        } else {
            LaunchPlan::Refuse
        }
    } else {
        LaunchPlan::Launch
    }
}

} // verus!
