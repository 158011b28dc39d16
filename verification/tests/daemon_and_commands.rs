use scadm_core::commands::start::{launch_plan, LaunchPlan};
use scadm_core::commands::stop::{
    kill_needed, kill_verdict, stop_plan, stop_reply_outcome, KillVerdict, SignalOutcome, StopPlan,
    FORCE_TIMEOUT_SECS,
};
use scadm_core::config::{ConfigFile, ConfigLoad};
use scadm_core::daemon::{
    handle_client_frame, start, stop, ClientReply, ExitGuard, InnerState, ShutdownJob,
    StartJob, StartStep, StopJob, StopStep,
};
use scadm_core::error::Error;
use scadm_core::frame::{Frame, Reason};
use scadm_core::installation::{InstallProbe, Installation, ServerManifest};
use scadm_core::status::DaemonStatus;
use scadm_core::version::{ReleaseVersion, VersionRequirement};

fn config(req: &str) -> ConfigFile {
    ConfigFile { server_version: VersionRequirement::parse(req).unwrap() }
}

fn installation_at(version: &str) -> Installation {
    Installation::load(
        InstallProbe { a_present: true, b_present: false },
        ServerManifest {
            version: ReleaseVersion::parse(version).unwrap(),
            distribution: ServerManifest::default().distribution,
        },
    )
}

#[test]
fn new_daemon_state() {
    let state = InnerState::new(ExitGuard, None);
    assert_eq!(state.exit_guard, Some(ExitGuard));
    assert_eq!(state.status, DaemonStatus::Standby);
    assert!(state.config.is_none());
}

#[test]
fn client_frames() {
    let mut state = InnerState::new(ExitGuard, None);
    state.status = DaemonStatus::ServerRunning;
    match handle_client_frame(&mut state, Frame::QueryStatus()) {
        ClientReply::Reply(Frame::Status(DaemonStatus::ServerRunning)) => {}
        other => panic!("unexpected {:?}", other),
    }
    assert!(matches!(handle_client_frame(&mut state, Frame::Dummy()), ClientReply::Ignore));
    assert!(matches!(handle_client_frame(&mut state, Frame::Stopped()), ClientReply::Ignore));
    assert_eq!(state.exit_guard, Some(ExitGuard));
    assert_eq!(state.status, DaemonStatus::ServerRunning);
}

#[test]
fn stop_request_tears_down_the_server_first() {
    let mut state = InnerState::new(ExitGuard, Some(config("^1")));
    state.status = DaemonStatus::ServerRunning;
    let job = match handle_client_frame(&mut state, Frame::Stop()) {
        ClientReply::TearDown(job) => job,
        other => panic!("unexpected {:?}", other),
    };
    assert_eq!(job, ShutdownJob::AwaitingTeardown);
    assert_eq!(state.status, DaemonStatus::ServerStopping);
    assert_eq!(state.exit_guard, Some(ExitGuard));
    let step = job.server_stopped(&mut state, Ok(()));
    assert_eq!(step.released, Some(ExitGuard));
    assert!(matches!(step.reply, Frame::Stopped()));
    assert!(step.teardown_error.is_none());
    assert!(state.exit_guard.is_none());
    assert_eq!(state.status, DaemonStatus::Standby);
    assert!(state.config.is_some());
}

#[test]
fn stop_request_with_failed_teardown_still_exits() {
    let mut state = InnerState::new(ExitGuard, None);
    state.status = DaemonStatus::ServerRunning;
    let job = match handle_client_frame(&mut state, Frame::Stop()) {
        ClientReply::TearDown(job) => job,
        other => panic!("unexpected {:?}", other),
    };
    let step = job.server_stopped(&mut state, Err(Error::Unknown));
    assert_eq!(step.released, Some(ExitGuard));
    assert!(matches!(step.reply, Frame::Stopped()));
    assert!(matches!(step.teardown_error, Some(Error::Unknown)));
    assert!(state.exit_guard.is_none());
    assert_eq!(state.status, DaemonStatus::ServerStopping);
}

#[test]
fn start_without_configuration_fails() {
    let mut state = InnerState::new(ExitGuard, None);
    let (job, step) = start(&mut state);
    assert!(matches!(job, StartJob::AwaitingConfig));
    assert!(matches!(step, StartStep::LoadConfig));
    let (job, step) = job.config_loaded(&mut state, ConfigLoad::Missing);
    assert!(matches!(job, StartJob::Finished));
    assert!(matches!(step, StartStep::Reply(Frame::Failed(Reason::MissingConfig))));
    assert_eq!(state.status, DaemonStatus::MissingConfig);
    assert!(state.config.is_none());
}

#[test]
fn start_with_invalid_configuration_fails() {
    let mut state = InnerState::new(ExitGuard, None);
    let (job, _) = start(&mut state);
    let (job, step) = job.config_loaded(&mut state, ConfigLoad::Invalid);
    assert!(matches!(job, StartJob::Finished));
    assert!(matches!(step, StartStep::Reply(Frame::Failed(Reason::MissingConfig))));
    assert_eq!(state.status, DaemonStatus::InvalidConfig);
    assert!(state.config.is_none());
}

#[test]
fn start_of_a_current_installation() {
    let mut state = InnerState::new(ExitGuard, Some(config("^1")));
    let (job, step) = start(&mut state);
    assert!(matches!(step, StartStep::LoadInstallation));
    assert_eq!(state.status, DaemonStatus::ServerStarting);
    let (job, step) = job.installation_loaded(&installation_at("1.4.0"));
    assert!(matches!(step, StartStep::StartServer));
    let (job, step) = job.server_started(&mut state, Ok(()));
    assert!(matches!(job, StartJob::Finished));
    assert!(matches!(step, StartStep::Complete));
    assert_eq!(state.status, DaemonStatus::ServerRunning);
}

#[test]
fn start_with_update() {
    let mut state = InnerState::new(ExitGuard, None);
    let (job, _) = start(&mut state);
    let (job, step) = job.config_loaded(&mut state, ConfigLoad::Loaded(config("^2")));
    assert!(matches!(step, StartStep::LoadInstallation));
    assert!(state.config.is_some());
    assert_eq!(state.status, DaemonStatus::ServerStarting);
    let (job, step) = job.installation_loaded(&installation_at("1.4.0"));
    match step {
        StartStep::Update(req) => assert_eq!(req.as_str(), "^2"),
        other => panic!("unexpected {:?}", other),
    }
    let (job, step) = job.updated(Ok(()));
    assert!(matches!(step, StartStep::StartServer));
    let (_, step) = job.server_started(&mut state, Err(Error::Unknown));
    assert!(matches!(step, StartStep::Reply(Frame::Failed(Reason::StartingFailed(Error::Unknown)))));
    assert_eq!(state.status, DaemonStatus::ServerStarting);
}

#[test]
fn start_with_failed_update() {
    let (job, step) = StartJob::AwaitingUpdate.updated(Err(Error::Parsing));
    assert!(matches!(job, StartJob::Finished));
    assert!(matches!(step, StartStep::Reply(Frame::Failed(Reason::UpdateFailed(Error::Parsing)))));
}

#[test]
fn daemon_stop() {
    let mut state = InnerState::new(ExitGuard, None);
    state.status = DaemonStatus::ServerRunning;
    let (job, step) = stop(&mut state);
    assert_eq!(job, StopJob::AwaitingServer);
    assert!(matches!(step, StopStep::StopServer));
    assert_eq!(state.status, DaemonStatus::ServerStopping);
    let (job, step) = job.server_stopped(&mut state, Ok(()));
    assert_eq!(job, StopJob::Finished);
    assert!(matches!(step, StopStep::Complete));
    assert_eq!(state.status, DaemonStatus::Standby);

    let mut state = InnerState::new(ExitGuard, None);
    let (job, _) = stop(&mut state);
    let (_, step) = job.server_stopped(&mut state, Err(Error::Unknown));
    assert!(matches!(step, StopStep::Reply(Frame::Failed(Reason::StoppingFailed(Error::Unknown)))));
    assert_eq!(state.status, DaemonStatus::ServerStopping);
}

#[test]
fn client_start_plan() {
    assert_eq!(launch_plan(false, false), LaunchPlan::Launch);
    assert_eq!(launch_plan(false, true), LaunchPlan::Launch);
    assert_eq!(launch_plan(true, true), LaunchPlan::KillThenLaunch);
    assert_eq!(launch_plan(true, false), LaunchPlan::Refuse);
}

#[test]
fn client_stop_plan() {
    assert_eq!(stop_plan(false, true), StopPlan::NotRunning);
    assert_eq!(stop_plan(false, false), StopPlan::NotRunning);
    assert_eq!(stop_plan(true, false), StopPlan::Graceful);
    assert_eq!(stop_plan(true, true), StopPlan::GracefulOrKill);
    assert_eq!(FORCE_TIMEOUT_SECS, 60);
}

#[test]
fn stop_replies() {
    assert!(stop_reply_outcome(Ok(Frame::Stopped())).is_ok());
    match stop_reply_outcome(Ok(Frame::Status(DaemonStatus::Standby))) {
        Err(Error::WithMessage(m)) => assert_eq!(m, "Unerwartete Nachricht"),
        other => panic!("unexpected {:?}", other),
    }
    match stop_reply_outcome(Err(Error::Unknown)) {
        Err(Error::WithMessage(m)) => assert_eq!(m, "Fehler bei der normalen beendigung"),
        other => panic!("unexpected {:?}", other),
    }
}

#[test]
fn kill_decisions() {
    assert!(kill_needed(&Err(Error::Unknown)));
    assert!(!kill_needed(&Ok(())));
    assert_eq!(kill_verdict(SignalOutcome::Delivered), KillVerdict::Forced);
    assert_eq!(kill_verdict(SignalOutcome::NoSuchProcess), KillVerdict::NotRunning);
    assert_eq!(kill_verdict(SignalOutcome::Failed), KillVerdict::Abort);
}
