use dsdmona::lifecycle::{POLL_INTERVAL_MS, READY_ATTEMPTS, READY_RETRY_MS};
use dsdmona::{Action, Event, Lifecycle, LoginError, Phase};

fn started_server(command_error: Option<LoginError>) -> Lifecycle {
    let mut l = Lifecycle::new(7, command_error);
    assert_eq!(l.step(Event::Start), Action::ProbeDisplays);
    assert_eq!(
        l.step(Event::DisplaysProbed(vec![true, false, false])),
        Action::PrepareAuthority { display: 1 }
    );
    assert_eq!(l.step(Event::Completed), Action::StartServer { vt: 7, display: 1 });
    assert_eq!(
        l.step(Event::ServerStarted(100)),
        Action::ConnectDisplay { display: 1, delay_ms: 0 }
    );
    l
}

fn count_stops(actions: &[Action]) -> usize {
    actions.iter().filter(|a| matches!(a, Action::StopServer { .. })).count()
}

#[test]
fn full_cycle_succeeds() {
    let mut l = started_server(None);
    assert_eq!(
        l.step(Event::DisplayRefused),
        Action::ConnectDisplay { display: 1, delay_ms: READY_RETRY_MS }
    );
    assert_eq!(l.step(Event::DisplayConnected), Action::StartSession);
    assert_eq!(l.phase, Phase::StartingSession);
    assert_eq!(
        l.step(Event::SessionStarted(200)),
        Action::PollSession { pid: 200, wait_ms: POLL_INTERVAL_MS }
    );
    assert_eq!(
        l.step(Event::SessionAlive),
        Action::PollSession { pid: 200, wait_ms: 500 }
    );
    assert_eq!(l.step(Event::SessionGone), Action::ReapSession { pid: 200 });
    assert_eq!(l.phase, Phase::ShuttingDown);
    assert_eq!(l.step(Event::Completed), Action::StopServer { pid: 100 });
    assert_eq!(l.step(Event::Completed), Action::RemoveAuthority);
    assert_eq!(l.outcome(), None);
    assert_eq!(l.step(Event::Completed), Action::Finish);
    assert_eq!(l.phase, Phase::Done);
    assert_eq!(l.outcome(), Some(Ok(())));
}

#[test]
fn no_free_display_fails_at_once() {
    let mut l = Lifecycle::new(1, None);
    l.step(Event::Start);
    assert_eq!(l.step(Event::DisplaysProbed(vec![true; 32])), Action::Finish);
    assert_eq!(l.outcome(), Some(Err(LoginError::NoFreeDisplay)));
}

#[test]
fn authority_failure_removes_file_without_server() {
    let mut l = Lifecycle::new(1, None);
    l.step(Event::Start);
    l.step(Event::DisplaysProbed(vec![false]));
    assert_eq!(l.step(Event::Failed(13)), Action::RemoveAuthority);
    assert_eq!(l.step(Event::Completed), Action::Finish);
    assert_eq!(l.outcome(), Some(Err(LoginError::OsError(13))));
}

#[test]
fn server_spawn_failure_reports_os_error() {
    let mut l = Lifecycle::new(1, None);
    l.step(Event::Start);
    l.step(Event::DisplaysProbed(vec![false]));
    l.step(Event::Completed);
    assert_eq!(l.step(Event::Failed(2)), Action::RemoveAuthority);
    assert_eq!(l.step(Event::Failed(5)), Action::Finish);
    assert_eq!(l.outcome(), Some(Err(LoginError::OsError(2))));
}

#[test]
fn failed_session_start_stops_server_once() {
    let mut l = started_server(None);
    l.step(Event::DisplayConnected);
    let mut actions = vec![l.step(Event::Failed(8))];
    assert_eq!(actions[0], Action::StopServer { pid: 100 });
    for e in [Event::Completed, Event::Completed, Event::Completed, Event::Failed(1)] {
        actions.push(l.step(e));
    }
    assert_eq!(actions[1], Action::RemoveAuthority);
    assert_eq!(actions[2], Action::Finish);
    assert_eq!(count_stops(&actions), 1);
    assert_eq!(l.outcome(), Some(Err(LoginError::OsError(8))));
}

#[test]
fn invalid_command_stops_server() {
    let mut l = started_server(Some(LoginError::InvalidSessionDefinition));
    assert_eq!(l.step(Event::DisplayConnected), Action::StopServer { pid: 100 });
    assert_eq!(l.step(Event::Completed), Action::RemoveAuthority);
    assert_eq!(l.step(Event::Completed), Action::Finish);
    assert_eq!(l.outcome(), Some(Err(LoginError::InvalidSessionDefinition)));
}

#[test]
fn display_unready_after_all_attempts() {
    let mut l = started_server(None);
    for _ in 1..READY_ATTEMPTS {
        assert_eq!(
            l.step(Event::DisplayRefused),
            Action::ConnectDisplay { display: 1, delay_ms: READY_RETRY_MS }
        );
    }
    assert_eq!(l.attempts, READY_ATTEMPTS);
    assert_eq!(l.step(Event::DisplayRefused), Action::StopServer { pid: 100 });
    assert_eq!(l.step(Event::Completed), Action::RemoveAuthority);
    assert_eq!(l.step(Event::Completed), Action::Finish);
    assert_eq!(l.outcome(), Some(Err(LoginError::DisplayUnready)));
}

#[test]
fn interrupt_during_supervision_is_forwarded() {
    let mut l = started_server(None);
    l.step(Event::DisplayConnected);
    l.step(Event::SessionStarted(300));
    assert_eq!(l.step(Event::Interrupted), Action::TerminateSessionGroup { pid: 300 });
    assert_eq!(l.phase, Phase::Supervising);
    assert_eq!(
        l.step(Event::Completed),
        Action::PollSession { pid: 300, wait_ms: POLL_INTERVAL_MS }
    );
    assert_eq!(l.step(Event::SessionGone), Action::ReapSession { pid: 300 });
    assert_eq!(l.phase, Phase::ShuttingDown);
    assert_eq!(l.step(Event::Completed), Action::StopServer { pid: 100 });
}

#[test]
fn unexpected_events_are_ignored() {
    let mut l = Lifecycle::new(1, None);
    assert_eq!(l.step(Event::SessionGone), Action::Ignore);
    assert_eq!(l.phase, Phase::AllocatingDisplay);
    let mut l = started_server(None);
    assert_eq!(l.step(Event::ServerStarted(5)), Action::Ignore);
    assert_eq!(l.server_pid, 100);
}
