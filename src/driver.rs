//! Supervision of a local driver process: its address, the decisions of its
//! start-up polling, and the order in which a session and its driver are
//! shut down.

use vstd::prelude::*;
use crate::client::{Client, ClientView};
use crate::text::{decimal, push_decimal};
use crate::wire::{Error, ErrorView, Request, RequestView};
use vstd::string::StringExecFns;

verus! {

/// How long a driver may take to become reachable, in milliseconds.
pub const START_TIMEOUT_MS: u64 = 120000;

/// The base URL of a driver listening on a local port.
pub open spec fn driver_url_text(port: u16) -> Seq<char> {
    "http://127.0.0.1:"@ + decimal(port as nat) + "/"@
}

/// The base URL of a driver listening on `port` of this machine.
pub fn driver_url(port: u16) -> (r: String)
    ensures
        r@ == driver_url_text(port),
{
    let mut url = "http://127.0.0.1:".to_owned();
    push_decimal(&mut url, port as u64);
    url.append("/");
    url
}

/// The URL of the status endpoint of a driver listening on `port`.
pub fn status_url(port: u16) -> (r: String)
    ensures
        r@ == driver_url_text(port) + "status"@,
{
    let mut url = driver_url(port);
    url.append("status");
    url
}

/// The life of a driver process.
#[derive(Clone, Copy, Debug, PartialEq, Eq, Structural)]
pub enum Phase {
    /// Spawned, not yet reachable.
    Starting,
    /// Answering on its status endpoint.
    Healthy,
    /// Exited on its own, or never became reachable.
    Failed,
    /// Terminated by its owner.
    Closed,
}

/// What one poll of a starting driver found.
#[derive(Clone, Debug, PartialEq, Eq)]
pub enum Probe {
    /// The process has exited, with its exit code if it had one.
    Exited(Option<i32>),
    /// The process runs but its status endpoint did not answer with
    /// success.
    Unreachable,
    /// The status endpoint answered with success.
    Healthy,
}

/// What to do after a poll.
#[derive(Clone, Debug, PartialEq, Eq)]
pub enum StartupStep {
    /// Sleep this many milliseconds, then poll again.
    Wait(u64),
    /// The driver is ready.
    Ready,
    /// Start-up failed.
    Fail(Error),
}

/// The supervisor of one driver process: its phase, the pause before the
/// next poll, and the start-up deadline, in milliseconds.
#[derive(Clone, Debug, PartialEq, Eq)]
pub struct Supervisor {
    phase: Phase,
    pause_ms: u64,
    deadline_ms: u64,
}

/// The model of a supervisor.
pub struct SupervisorView {
    pub phase: Phase,
    pub pause_ms: u64,
    pub deadline_ms: u64,
}

impl View for Supervisor {
    type V = SupervisorView;

    closed spec fn view(&self) -> SupervisorView {
        SupervisorView { phase: self.phase, pause_ms: self.pause_ms, deadline_ms: self.deadline_ms }
    }
}

/// The pause after `p`: twice as long, saturating.
pub open spec fn doubled(p: u64) -> u64 {
    if p <= u64::MAX / 2 {
        (2 * p) as u64
    } else {
        u64::MAX
    }
}

/// The model of a step: the supervisor after a poll at `elapsed_ms` since
/// the spawn, and the pause to wait (`Ok(Some(..))`), readiness
/// (`Ok(None)`) or the error.
pub open spec fn startup_step(s: SupervisorView, probe: Probe, elapsed_ms: u64) -> (
    SupervisorView,
    Result<Option<u64>, ErrorView>,
) {
    match probe {
        Probe::Exited(code) => (
            SupervisorView { phase: Phase::Failed, ..s },
            Err(ErrorView::ProcessExited(code)),
        ),
        Probe::Healthy => (SupervisorView { phase: Phase::Healthy, ..s }, Ok(None)),
        Probe::Unreachable => if elapsed_ms >= s.deadline_ms {
            (SupervisorView { phase: Phase::Failed, ..s }, Err(ErrorView::StartupTimeout))
        } else {
            let wait = if s.pause_ms <= (s.deadline_ms - elapsed_ms) as u64 {
                s.pause_ms
            } else {
                (s.deadline_ms - elapsed_ms) as u64
            };
            (SupervisorView { pause_ms: doubled(s.pause_ms), ..s }, Ok(Some(wait)))
        },
    }
}

impl Supervisor {
    /// The supervisor of a process just spawned, which must become
    /// reachable within `deadline_ms`; the first pause is one millisecond.
    pub fn new(deadline_ms: u64) -> (r: Supervisor)
        ensures
            r@ == (SupervisorView { phase: Phase::Starting, pause_ms: 1, deadline_ms }),
    {
        Supervisor { phase: Phase::Starting, pause_ms: 1, deadline_ms }
    }

    /// The phase of the process.
    pub fn phase(&self) -> (r: Phase)
        ensures
            r == self@.phase,
    {
        self.phase
    }

    /// Decides after a poll of a starting driver, `elapsed_ms` after the
    /// spawn: a dead process fails at once, a healthy one is ready, and an
    /// unreachable one is polled again after a pause that doubles each time
    /// and never reaches past the deadline, until the deadline passes.
    pub fn on_probe(&mut self, probe: Probe, elapsed_ms: u64) -> (r: StartupStep)
        requires
            old(self)@.phase == Phase::Starting,
        ensures
            (final(self)@, match r {
                StartupStep::Wait(ms) => Ok(Some(ms)),
                StartupStep::Ready => Ok(None),
                StartupStep::Fail(e) => Err(e@),
            }) == startup_step(old(self)@, probe, elapsed_ms),
    {
        match probe {
            Probe::Exited(code) => {
                self.phase = Phase::Failed;
                StartupStep::Fail(Error::ProcessExited(code))
            },
            Probe::Healthy => {
                self.phase = Phase::Healthy;
                StartupStep::Ready
            },
            Probe::Unreachable => {
                if elapsed_ms >= self.deadline_ms {
                    self.phase = Phase::Failed;
                    StartupStep::Fail(Error::StartupTimeout)
                } else {
                    let left = self.deadline_ms - elapsed_ms;
                    let wait = if self.pause_ms <= left {
                        self.pause_ms
                    } else {
                        left
                    };
                    self.pause_ms = if self.pause_ms <= u64::MAX / 2 {
                        2 * self.pause_ms
                    } else {
                        u64::MAX
                    };
                    StartupStep::Wait(wait)
                }
            },
        }
    }

    /// Records that the process was found dead after it had become healthy.
    pub fn on_exit(&mut self)
        ensures
            final(self)@ == (SupervisorView {
                phase: if old(self)@.phase == Phase::Closed {
                    Phase::Closed
                } else {
                    Phase::Failed
                },
                ..old(self)@
            }),
    {
        if self.phase != Phase::Closed {
            self.phase = Phase::Failed;
        }
    }

    /// Closes the supervisor: returns whether the process must be killed and
    /// reaped now, which is so exactly once, on the first call, whatever the
    /// phase.
    pub fn close(&mut self) -> (r: bool)
        ensures
            r == (old(self)@.phase != Phase::Closed),
            final(self)@ == (SupervisorView { phase: Phase::Closed, ..old(self)@ }),
    {
        let first = self.phase != Phase::Closed;
        self.phase = Phase::Closed;
        first
    }
}

/// A step of shutting down a session together with its driver.
#[derive(Debug, PartialEq, Eq)]
pub enum TeardownStep {
    /// Send this request to delete the session; its outcome does not stop
    /// the shutdown.
    CloseSession(Request),
    /// Terminate the driver process.
    StopDriver,
    /// Both are shut down.
    Done,
}

/// A session and the driver it runs on, shut down together: the session
/// first, then the driver, each once.
#[derive(Clone, Debug, PartialEq, Eq)]
pub struct DriverHolder {
    client: Client,
    driver_running: bool,
}

/// The model of a holder: its session and whether its driver still runs.
pub struct HolderView {
    pub client: ClientView,
    pub driver_running: bool,
}

impl View for DriverHolder {
    type V = HolderView;

    closed spec fn view(&self) -> HolderView {
        HolderView { client: self.client@, driver_running: self.driver_running }
    }
}

/// The model of a teardown step: a session deletion (with its request),
/// the driver's termination, or the end.
pub enum TeardownAction {
    CloseSession(RequestView),
    StopDriver,
    Done,
}

/// The next step of the shutdown and the holder after it.
pub open spec fn teardown_step(h: HolderView) -> (HolderView, TeardownAction) {
    match h.client.session {
        Some(_) => {
            let closed = crate::client::close_effect(h.client);
            (HolderView { client: closed.0, ..h }, TeardownAction::CloseSession(closed.1->Some_0))
        },
        None => if h.driver_running {
            (HolderView { driver_running: false, ..h }, TeardownAction::StopDriver)
        } else {
            (h, TeardownAction::Done)
        },
    }
}

/// The model of a step taken.
pub open spec fn teardown_action(s: TeardownStep) -> TeardownAction {
    match s {
        TeardownStep::CloseSession(q) => TeardownAction::CloseSession(q@),
        TeardownStep::StopDriver => TeardownAction::StopDriver,
        TeardownStep::Done => TeardownAction::Done,
    }
}

impl DriverHolder {
    /// Holds a session opened on a running driver.
    pub fn new(client: Client) -> (r: DriverHolder)
        ensures
            r@ == (HolderView { client: client@, driver_running: true }),
    {
        DriverHolder { client, driver_running: true }
    }

    /// The session.
    pub fn client(&self) -> (r: &Client)
        ensures
            r@ == self@.client,
    {
        &self.client
    }

    /// The next step of shutting both down: while the session is open, the
    /// request that deletes it; then, once, the driver's termination; then
    /// the end.
    pub fn close(&mut self) -> (r: TeardownStep)
        ensures
            (final(self)@, teardown_action(r)) == teardown_step(old(self)@),
    {
        match self.client.close() {
            Some(q) => TeardownStep::CloseSession(q),
            None => if self.driver_running {
                self.driver_running = false;
                TeardownStep::StopDriver
            } else {
                TeardownStep::Done
            },
        }
    }
}

/// What remains to shut down: two for an open session, one for a running
/// driver.
pub open spec fn teardown_measure(h: HolderView) -> nat {
    (if h.client.session is Some {
        2nat
    } else {
        0nat
    }) + (if h.driver_running {
        1nat
    } else {
        0nat
    })
}

/// The steps that repeated calls of `close` take, up to and including the
/// first `Done`.
pub open spec fn teardown_trace(h: HolderView) -> Seq<TeardownAction>
    decreases teardown_measure(h),
{
    let (next, action) = teardown_step(h);
    if action is Done {
        seq![TeardownAction::Done]
    } else if teardown_measure(next) < teardown_measure(h) {
        seq![action] + teardown_trace(next)
    } else {
        seq![action]
    }
}

/// Shutting down takes these steps in this order, whatever state it starts
/// from: the session's deletion if it is open, then the driver's
/// termination if it runs, then the end. The driver is never stopped while
/// its session is open, and neither is closed twice.
pub proof fn lemma_session_closed_before_driver(h: HolderView)
    ensures
        teardown_trace(h) == (match h.client.session {
            Some(id) => seq![
                TeardownAction::CloseSession(
                    RequestView {
                        method: crate::wire::Method::Delete,
                        path: crate::text::path_text(seq!["session"@, id]),
                        body: None,
                    },
                ),
            ],
            None => Seq::<TeardownAction>::empty(),
        }) + (if h.driver_running {
            seq![TeardownAction::StopDriver]
        } else {
            Seq::<TeardownAction>::empty()
        }) + seq![TeardownAction::Done],
        teardown_step(h).1 is StopDriver ==> h.client.session is None,
    decreases teardown_measure(h),
{
    let (next, action) = teardown_step(h);
    if !(action is Done) {
        lemma_session_closed_before_driver(next);
    }
    assert(teardown_trace(h) =~= (match h.client.session {
        Some(id) => seq![
            TeardownAction::CloseSession(
                RequestView {
                    method: crate::wire::Method::Delete,
                    path: crate::text::path_text(seq!["session"@, id]),
                    body: None,
                },
            ),
        ],
        None => Seq::<TeardownAction>::empty(),
    }) + (if h.driver_running {
        seq![TeardownAction::StopDriver]
    } else {
        Seq::<TeardownAction>::empty()
    }) + seq![TeardownAction::Done]);
}

} // verus!
