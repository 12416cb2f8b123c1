use vstd::prelude::*;

use crate::display::{first_free_display, XDisplay};
use crate::error::LoginError;

verus! {

/// How many times a connection to a new display is tried.
pub const READY_ATTEMPTS: u32 = 50;

/// Pause between two connection attempts, in milliseconds.
pub const READY_RETRY_MS: u32 = 50;

/// Pause between two liveness checks of the session, in milliseconds.
pub const POLL_INTERVAL_MS: u32 = 500;

/// Where a login cycle stands.
#[derive(PartialEq, Eq, Structural, Clone, Copy, Debug)]
pub enum Phase {
    /// Looking for a display slot whose lock is absent.
    AllocatingDisplay,
    /// Creating the authority file and binding a fresh cookie in it.
    GeneratingAuthority,
    /// Starting the display server.
    StartingServer,
    /// Trying to connect to the new display, a bounded number of times.
    AwaitingServerReady,
    /// Starting the session command as the account.
    StartingSession,
    /// Forwarding interrupts to the session and polling it until it is gone;
    /// a failed poll or forward does not end supervision.
    Supervising,
    /// Reaping the session, then stopping the server and removing the
    /// authority file.
    ShuttingDown,
    /// Cleaning up after a failure, which is kept in `error`.
    Aborting,
    /// Nothing is left running; the outcome is known.
    Done,
}

/// The work the engine asks its caller to perform next. The caller answers
/// each action with one [`Event`].
#[derive(PartialEq, Eq, Structural, Clone, Copy, Debug)]
pub enum Action {
    /// Check the lock file of every display slot; answer `DisplaysProbed`.
    ProbeDisplays,
    /// Create the empty authority file owned by the account, generate a cookie
    /// and bind it to the display in that file, both utilities running as the
    /// account; answer `Completed` or `Failed`.
    PrepareAuthority { display: u8 },
    /// Start the display server on the terminal and display, with the
    /// operator's own privilege; answer `ServerStarted` or `Failed`.
    StartServer { vt: u8, display: u8 },
    /// After the pause, try once to connect to the display; answer
    /// `DisplayConnected` or `DisplayRefused`.
    ConnectDisplay { display: u8, delay_ms: u32 },
    /// Close the readiness connection and start the session command as the
    /// account; answer `SessionStarted` or `Failed`.
    StartSession,
    /// Wait up to the pause for a termination interrupt, one received at any
    /// earlier point of the cycle included (answer `Interrupted` as soon as
    /// there is one), then check the session's process group; answer
    /// `SessionAlive` or `SessionGone`.
    PollSession { pid: u32, wait_ms: u32 },
    /// Ask the session's process group to terminate; answer `Completed`.
    TerminateSessionGroup { pid: u32 },
    /// Reap the session process; answer `Completed`.
    ReapSession { pid: u32 },
    /// Ask the display server to terminate and wait for it; answer `Completed`.
    StopServer { pid: u32 },
    /// Remove the authority file, best effort; answer `Completed`.
    RemoveAuthority,
    /// The cycle is over; its outcome is in [`Lifecycle::outcome`].
    Finish,
    /// The event did not fit the current phase and was dropped.
    Ignore,
}

/// What the caller observed while performing an [`Action`].
#[derive(Clone, Debug)]
pub enum Event {
    /// Begins the cycle.
    Start,
    /// `locked[i]` tells whether the lock file of display `i` exists.
    DisplaysProbed(Vec<bool>),
    Completed,
    /// The action failed with an operating-system error code.
    Failed(i32),
    ServerStarted(u32),
    DisplayConnected,
    DisplayRefused,
    SessionStarted(u32),
    Interrupted,
    SessionAlive,
    SessionGone,
}

/// The state of one login cycle: display allocation, authority, display
/// server, session, supervision and cleanup.
#[derive(Clone, Copy, Debug)]
pub struct Lifecycle {
    pub phase: Phase,
    /// The virtual terminal of the display server.
    pub vt: u8,
    /// The allocated display index.
    pub display: u8,
    /// Connection attempts made so far.
    pub attempts: u32,
    pub server_pid: u32,
    pub session_pid: u32,
    pub authority_created: bool,
    pub authority_removed: bool,
    pub server_started: bool,
    /// The server was asked to terminate and waited for.
    pub server_stopped: bool,
    /// Why the session command cannot be started, if it cannot.
    pub command_error: Option<LoginError>,
    /// Why the cycle failed, once it has.
    pub error: Option<LoginError>,
}

/// The next cleanup step: stop a started server, then remove a created
/// authority file, then finish.
pub open spec fn cleanup(s: Lifecycle) -> (Lifecycle, Action) {
    if s.server_started && !s.server_stopped {
        (Lifecycle { server_stopped: true, ..s }, Action::StopServer { pid: s.server_pid })
    } else if s.authority_created && !s.authority_removed {
        (Lifecycle { authority_removed: true, ..s }, Action::RemoveAuthority)
    } else {
        (Lifecycle { phase: Phase::Done, ..s }, Action::Finish)
    }
}

/// Records the failure and starts cleaning up.
pub open spec fn abort(s: Lifecycle, err: LoginError) -> (Lifecycle, Action) {
    cleanup(Lifecycle { phase: Phase::Aborting, error: Some(err), ..s })
}

/// The transition of the engine on an event: its next state and action.
pub open spec fn next(s: Lifecycle, e: Event) -> (Lifecycle, Action) {
    match s.phase {
        Phase::AllocatingDisplay => match e {
            Event::Start => (s, Action::ProbeDisplays),
            Event::DisplaysProbed(locked) => match first_free_display(locked@) {
                Some(d) => (
                    Lifecycle {
                        phase: Phase::GeneratingAuthority,
                        display: d,
                        authority_created: true,
                        ..s
                    },
                    Action::PrepareAuthority { display: d },
                ),
                None => abort(s, LoginError::NoFreeDisplay),
            },
            Event::Failed(code) => abort(s, LoginError::OsError(code)),
            _ => (s, Action::Ignore),
        },
        Phase::GeneratingAuthority => match e {
            Event::Completed => (
                Lifecycle { phase: Phase::StartingServer, ..s },
                Action::StartServer { vt: s.vt, display: s.display },
            ),
            Event::Failed(code) => abort(s, LoginError::OsError(code)),
            _ => (s, Action::Ignore),
        },
        Phase::StartingServer => match e {
            Event::ServerStarted(pid) => (
                Lifecycle {
                    phase: Phase::AwaitingServerReady,
                    server_started: true,
                    server_pid: pid,
                    attempts: 1,
                    ..s
                },
                Action::ConnectDisplay { display: s.display, delay_ms: 0 },
            ),
            Event::Failed(code) => abort(s, LoginError::OsError(code)),
            _ => (s, Action::Ignore),
        },
        Phase::AwaitingServerReady => match e {
            Event::DisplayConnected => match s.command_error {
                None => (Lifecycle { phase: Phase::StartingSession, ..s }, Action::StartSession),
                Some(err) => abort(s, err),
            },
            Event::DisplayRefused => if s.attempts < READY_ATTEMPTS {
                (
                    Lifecycle { attempts: (s.attempts + 1) as u32, ..s },
                    Action::ConnectDisplay { display: s.display, delay_ms: READY_RETRY_MS },
                )
            } else {
                abort(s, LoginError::DisplayUnready)
            },
            Event::Failed(code) => abort(s, LoginError::OsError(code)),
            _ => (s, Action::Ignore),
        },
        Phase::StartingSession => match e {
            Event::SessionStarted(pid) => (
                Lifecycle { phase: Phase::Supervising, session_pid: pid, ..s },
                Action::PollSession { pid, wait_ms: POLL_INTERVAL_MS },
            ),
            Event::Failed(code) => abort(s, LoginError::OsError(code)),
            _ => (s, Action::Ignore),
        },
        Phase::Supervising => match e {
            Event::Interrupted => (s, Action::TerminateSessionGroup { pid: s.session_pid }),
            Event::SessionGone => (
                Lifecycle { phase: Phase::ShuttingDown, ..s },
                Action::ReapSession { pid: s.session_pid },
            ),
            Event::SessionAlive | Event::Completed | Event::Failed(_) => (
                s,
                Action::PollSession { pid: s.session_pid, wait_ms: POLL_INTERVAL_MS },
            ),
            _ => (s, Action::Ignore),
        },
        Phase::ShuttingDown | Phase::Aborting => match e {
            Event::Completed | Event::Failed(_) => cleanup(s),
            _ => (s, Action::Ignore),
        },
        Phase::Done => (s, Action::Finish),
    }
}

impl Lifecycle {
    /// The invariant of a reachable state: cleanup flags only follow what
    /// they clean up, and each phase holds what has been started by then.
    pub open spec fn wf(self) -> bool {
        &&& (self.server_stopped ==> self.server_started)
        &&& (self.server_started ==> self.authority_created)
        &&& (self.authority_removed ==> self.authority_created)
        &&& (self.authority_removed ==> self.server_stopped || !self.server_started)
        &&& match self.phase {
            Phase::AllocatingDisplay => !self.authority_created && self.error is None,
            Phase::GeneratingAuthority | Phase::StartingServer => {
                &&& self.authority_created
                &&& !self.server_started
                &&& !self.authority_removed
                &&& self.error is None
            },
            Phase::AwaitingServerReady => {
                &&& self.server_started
                &&& !self.server_stopped
                &&& !self.authority_removed
                &&& self.error is None
                &&& 1 <= self.attempts <= READY_ATTEMPTS
            },
            Phase::StartingSession | Phase::Supervising => {
                &&& self.server_started
                &&& !self.server_stopped
                &&& !self.authority_removed
                &&& self.error is None
                &&& self.command_error is None
            },
            Phase::ShuttingDown => self.server_started && self.error is None,
            Phase::Aborting => self.error is Some,
            Phase::Done => {
                &&& (self.server_started ==> self.server_stopped)
                &&& (self.authority_created ==> self.authority_removed)
            },
        }
    }

    /// A cycle that has not begun; `command_error` tells why the session
    /// command cannot be started, if it cannot.
    pub fn new(vt: u8, command_error: Option<LoginError>) -> (r: Lifecycle)
        ensures
            r.wf(),
            r.phase == Phase::AllocatingDisplay,
            r.vt == vt,
            r.command_error == command_error,
            !r.authority_created && !r.server_started,
            !r.authority_removed && !r.server_stopped,
            r.error is None,
    {
        Lifecycle {
            phase: Phase::AllocatingDisplay,
            vt,
            display: 0,
            attempts: 0,
            server_pid: 0,
            session_pid: 0,
            authority_created: false,
            authority_removed: false,
            server_started: false,
            server_stopped: false,
            command_error,
            error: None,
        }
    }

    /// The result of a finished cycle: success only when the session ran and
    /// everything was shut down.
    pub fn outcome(&self) -> (r: Option<Result<(), LoginError>>)
        ensures
            r == (if self.phase == Phase::Done {
                Some(
                    match self.error {
                        None => Ok(()),
                        Some(e) => Err(e),
                    },
                )
            } else {
                None
            }),
    {
        if self.phase == Phase::Done {
            match self.error {
                None => Some(Ok(())),
                Some(e) => Some(Err(e)),
            }
        } else {
            None
        }
    }

    fn cleanup_step(&mut self) -> (r: Action)
        ensures
            (*final(self), r) == cleanup(*old(self)),
    {
        if self.server_started && !self.server_stopped {
            self.server_stopped = true;
            Action::StopServer { pid: self.server_pid }
        } else if self.authority_created && !self.authority_removed {
            self.authority_removed = true;
            Action::RemoveAuthority
        } else {
            self.phase = Phase::Done;
            Action::Finish
        }
    }

    fn abort_step(&mut self, err: LoginError) -> (r: Action)
        ensures
            (*final(self), r) == abort(*old(self), err),
    {
        self.phase = Phase::Aborting;
        self.error = Some(err);
        self.cleanup_step()
    }

    /// Advances the cycle by one event and returns the action to perform.
    pub fn step(&mut self, event: Event) -> (r: Action)
        ensures
            (*final(self), r) == next(*old(self), event),
            old(self).wf() ==> final(self).wf(),
    {
        proof {
            lemma_next_wf(*self, event);
        }
        match self.phase {
            Phase::AllocatingDisplay => match event {
                Event::Start => Action::ProbeDisplays,
                Event::DisplaysProbed(locked) => match XDisplay::find_free_xdisplay(
                    locked.as_slice(),
                ) {
                    Some(d) => {
                        self.phase = Phase::GeneratingAuthority;
                        self.display = d;
                        self.authority_created = true;
                        Action::PrepareAuthority { display: d }
                    },
                    None => self.abort_step(LoginError::NoFreeDisplay),
                },
                Event::Failed(code) => self.abort_step(LoginError::OsError(code)),
                _ => Action::Ignore,
            },
            Phase::GeneratingAuthority => match event {
                Event::Completed => {
                    self.phase = Phase::StartingServer;
                    Action::StartServer { vt: self.vt, display: self.display }
                },
                Event::Failed(code) => self.abort_step(LoginError::OsError(code)),
                _ => Action::Ignore,
            },
            Phase::StartingServer => match event {
                Event::ServerStarted(pid) => {
                    self.phase = Phase::AwaitingServerReady;
                    self.server_started = true;
                    self.server_pid = pid;
                    self.attempts = 1;
                    Action::ConnectDisplay { display: self.display, delay_ms: 0 }
                },
                Event::Failed(code) => self.abort_step(LoginError::OsError(code)),
                _ => Action::Ignore,
            },
            Phase::AwaitingServerReady => match event {
                Event::DisplayConnected => match self.command_error {
                    None => {
                        self.phase = Phase::StartingSession;
                        Action::StartSession
                    },
                    Some(err) => self.abort_step(err),
                },
                Event::DisplayRefused => {
                    if self.attempts < READY_ATTEMPTS {
                        self.attempts = self.attempts + 1;
                        Action::ConnectDisplay { display: self.display, delay_ms: READY_RETRY_MS }
                    } else {
                        self.abort_step(LoginError::DisplayUnready)
                    }
                },
                Event::Failed(code) => self.abort_step(LoginError::OsError(code)),
                _ => Action::Ignore,
            },
            Phase::StartingSession => match event {
                Event::SessionStarted(pid) => {
                    self.phase = Phase::Supervising;
                    self.session_pid = pid;
                    Action::PollSession { pid, wait_ms: POLL_INTERVAL_MS }
                },
                Event::Failed(code) => self.abort_step(LoginError::OsError(code)),
                _ => Action::Ignore,
            },
            Phase::Supervising => match event {
                Event::Interrupted => Action::TerminateSessionGroup { pid: self.session_pid },
                Event::SessionGone => {
                    self.phase = Phase::ShuttingDown;
                    Action::ReapSession { pid: self.session_pid }
                },
                Event::SessionAlive | Event::Completed | Event::Failed(_) => {
                    Action::PollSession { pid: self.session_pid, wait_ms: POLL_INTERVAL_MS }
                },
                _ => Action::Ignore,
            },
            Phase::ShuttingDown | Phase::Aborting => match event {
                Event::Completed | Event::Failed(_) => self.cleanup_step(),
                _ => Action::Ignore,
            },
            Phase::Done => Action::Finish,
        }
    }
}

/// The state reached, and the actions emitted, when the events are handed to
/// the engine one after the other.
pub open spec fn run(s: Lifecycle, events: Seq<Event>) -> (Lifecycle, Seq<Action>)
    decreases events.len(),
{
    if events.len() == 0 {
        (s, Seq::empty())
    } else {
        let (t, actions) = run(s, events.drop_last());
        let (u, a) = next(t, events.last());
        (u, actions.push(a))
    }
}

/// How many of the actions ask the display server to terminate.
pub open spec fn stop_requests(actions: Seq<Action>) -> nat
    decreases actions.len(),
{
    if actions.len() == 0 {
        0
    } else {
        stop_requests(actions.drop_last()) + if actions.last() is StopServer {
            1nat
        } else {
            0nat
        }
    }
}

/// Every transition keeps the invariant.
pub proof fn lemma_next_wf(s: Lifecycle, e: Event)
    ensures
        s.wf() ==> next(s, e).0.wf(),
{
}

/// Any sequence of events keeps the invariant.
pub proof fn lemma_run_wf(s: Lifecycle, events: Seq<Event>)
    requires
        s.wf(),
    ensures
        run(s, events).0.wf(),
    decreases events.len(),
{
    if events.len() > 0 {
        lemma_run_wf(s, events.drop_last());
        lemma_next_wf(run(s, events.drop_last()).0, events.last());
    }
}

proof fn lemma_run_counts_stops(s: Lifecycle, events: Seq<Event>)
    ensures
        s.server_stopped ==> run(s, events).0.server_stopped,
        stop_requests(run(s, events).1) == (if run(s, events).0.server_stopped {
            1int
        } else {
            0int
        }) - (if s.server_stopped {
            1int
        } else {
            0int
        }),
    decreases events.len(),
{
    if events.len() > 0 {
        let (t, actions) = run(s, events.drop_last());
        lemma_run_counts_stops(s, events.drop_last());
        let a = next(t, events.last()).1;
        assert(actions.push(a).drop_last() =~= actions);
    }
}

proof fn lemma_run_stays_failed(s: Lifecycle, events: Seq<Event>)
    requires
        s.phase == Phase::Aborting || s.phase == Phase::Done,
    ensures
        run(s, events).0.phase == Phase::Aborting || run(s, events).0.phase == Phase::Done,
        run(s, events).0.error == s.error,
    decreases events.len(),
{
    if events.len() > 0 {
        lemma_run_stays_failed(s, events.drop_last());
    }
}

/// Once the display server has been started, whatever happens next it is
/// asked to terminate and waited for at most once, and a cycle that finishes
/// has done so exactly once.
pub proof fn lemma_server_stopped_once(s: Lifecycle, events: Seq<Event>)
    requires
        s.wf(),
        s.server_started,
        !s.server_stopped,
    ensures
        stop_requests(run(s, events).1) <= 1,
        run(s, events).0.phase == Phase::Done ==> stop_requests(run(s, events).1) == 1,
{
    lemma_run_counts_stops(s, events);
    lemma_run_wf(s, events);
    lemma_run_server_started(s, events);
}

proof fn lemma_run_server_started(s: Lifecycle, events: Seq<Event>)
    ensures
        s.server_started ==> run(s, events).0.server_started,
    decreases events.len(),
{
    if events.len() > 0 {
        lemma_run_server_started(s, events.drop_last());
    }
}

/// When starting the session fails, the engine at once asks the running
/// display server to terminate and waits for it; no later event asks again,
/// two acknowledgements finish the cycle, and the cycle reports that failure.
pub proof fn lemma_failed_session_start(s: Lifecycle, code: i32, later: Seq<Event>)
    requires
        s.wf(),
        s.phase == Phase::StartingSession,
    ensures
        next(s, Event::Failed(code)).1 == (Action::StopServer { pid: s.server_pid }),
        stop_requests(run(next(s, Event::Failed(code)).0, later).1) == 0,
        run(next(s, Event::Failed(code)).0, later).0.phase == Phase::Done ==> run(
            next(s, Event::Failed(code)).0,
            later,
        ).0.error == Some(LoginError::OsError(code)),
        run(
            next(s, Event::Failed(code)).0,
            seq![Event::Completed, Event::Completed],
        ).0.phase == Phase::Done,
{
    let t = next(s, Event::Failed(code)).0;
    lemma_run_counts_stops(t, later);
    lemma_run_stays_failed(t, later);
    let two = seq![Event::Completed, Event::Completed];
    let one = seq![Event::Completed];
    assert(two.drop_last() =~= one);
    assert(one.drop_last() =~= Seq::<Event>::empty());
    assert(run(t, Seq::<Event>::empty()).0 == t);
    let t1 = next(t, Event::Completed).0;
    assert(run(t, one).0 == t1);
    assert(run(t, two).0 == next(t1, Event::Completed).0);
}

/// A session command that cannot be started is found out once the display
/// answers: the engine then stops the display server and reports why.
pub proof fn lemma_invalid_session_command(s: Lifecycle)
    requires
        s.wf(),
        s.phase == Phase::AwaitingServerReady,
        (s.command_error is Some),
    ensures
        next(s, Event::DisplayConnected).1 == (Action::StopServer { pid: s.server_pid }),
        next(s, Event::DisplayConnected).0.error == s.command_error,
        next(s, Event::DisplayConnected).0.phase == Phase::Aborting,
{
}

/// A display that never answers: after the last refused attempt the engine
/// stops the display server before reporting that the display is unready.
pub proof fn lemma_display_unready(s: Lifecycle)
    requires
        s.wf(),
        s.phase == Phase::AwaitingServerReady,
        s.attempts == READY_ATTEMPTS,
    ensures
        next(s, Event::DisplayRefused).1 == (Action::StopServer { pid: s.server_pid }),
        next(s, Event::DisplayRefused).0.error == Some(LoginError::DisplayUnready),
{
}

/// An interrupt during supervision is forwarded to the session's process
/// group at once, with no pause; supervision then goes on polling, and once
/// the group is gone the engine reaps the session, moves to shutting down and
/// next stops the display server.
pub proof fn lemma_interrupt_while_supervising(s: Lifecycle)
    requires
        s.wf(),
        s.phase == Phase::Supervising,
    ensures
        next(s, Event::Interrupted) == (s, (Action::TerminateSessionGroup { pid: s.session_pid })),
        next(s, Event::Completed) == (
            s,
            (Action::PollSession { pid: s.session_pid, wait_ms: POLL_INTERVAL_MS }),
        ),
        next(s, Event::SessionGone).0.phase == Phase::ShuttingDown,
        next(s, Event::SessionGone).1 == (Action::ReapSession { pid: s.session_pid }),
        next(next(s, Event::SessionGone).0, Event::Completed).1 == (Action::StopServer {
            pid: s.server_pid,
        }),
{
}

} // verus!
