//! The decisions of the process supervisor.
//!
//! Starting, monitoring and stopping the backend alternate between work on
//! the outside (probing ports, spawning, polling, signalling, sleeping) and
//! decisions on what was found. The decisions are the functions of this
//! file: each takes the shared state and the outcome of the last piece of
//! outside work, updates the state, and says what comes next. The caller
//! does the outside work in between, holding the state's lock only across
//! each call.

use crate::state::app_state::{backend_url_text, AppState, BackendStatus};
use crate::utils::text::{
    decimal, decimal_string, push_decimal, push_signed_decimal, signed_decimal,
};
use vstd::prelude::*;
use vstd::string::*;

verus! {

/// Why a supervisor operation failed.
#[derive(Debug, PartialEq)]
pub enum SidecarError {
    /// The operating system could not create the process.
    SpawnError(String),
    /// The process did not become healthy within the startup budget.
    StartupTimeout,
    /// No port of the configured range was free.
    PortError,
    /// The health polling ended without a healthy answer.
    HealthCheckFailed(String),
    /// The operation needs a running backend.
    NotRunning,
    /// The termination signal could not be delivered.
    OperationFailed(String),
}

impl SidecarError {
    /// The error's message, as it is shown to the user.
    pub open spec fn message_text(self) -> Seq<char> {
        match self {
            SidecarError::SpawnError(reason) => "Failed to spawn sidecar: "@ + reason@,
            SidecarError::StartupTimeout => "Sidecar startup timeout"@,
            SidecarError::PortError => "Failed to find available port"@,
            SidecarError::HealthCheckFailed(reason) => "Health check failed: "@ + reason@,
            SidecarError::NotRunning => "Sidecar not running"@,
            SidecarError::OperationFailed(reason) => "Operation failed: "@ + reason@,
        }
    }

    /// The error's message, as it is shown to the user.
    pub fn message(&self) -> (text: String)
        ensures
            text@ == self.message_text(),
    {
        match self {
            SidecarError::SpawnError(reason) => {
                let mut text = "Failed to spawn sidecar: ".to_owned();
                text.append(reason.as_str());
                text
            },
            SidecarError::StartupTimeout => "Sidecar startup timeout".to_owned(),
            SidecarError::PortError => "Failed to find available port".to_owned(),
            SidecarError::HealthCheckFailed(reason) => {
                let mut text = "Health check failed: ".to_owned();
                text.append(reason.as_str());
                text
            },
            SidecarError::NotRunning => "Sidecar not running".to_owned(),
            SidecarError::OperationFailed(reason) => {
                let mut text = "Operation failed: ".to_owned();
                text.append(reason.as_str());
                text
            },
        }
    }
}

/// How the supervisor starts and watches the backend. Fixed for a run.
#[derive(Debug)]
pub struct SidecarConfig {
    /// Milliseconds between two health polls.
    pub health_check_interval: u64,
    /// Milliseconds a start may take before it is given up.
    pub startup_timeout: u64,
    /// How often a caller may restart a failing backend.
    pub max_restart_attempts: u32,
    /// First port of the range to scan.
    pub port_range_start: u16,
    /// Last port of the range to scan, itself included.
    pub port_range_end: u16,
}

impl SidecarConfig {
    /// Polls every 500 ms for at most 30 s, three restarts, ports 8000 to
    /// 9000.
    pub open spec fn is_default(self) -> bool {
        &&& self.health_check_interval == 500
        &&& self.startup_timeout == 30000
        &&& self.max_restart_attempts == 3
        &&& self.port_range_start == 8000
        &&& self.port_range_end == 9000
    }
}

impl Default for SidecarConfig {
    fn default() -> (config: Self)
        ensures
            config.is_default(),
    {
        SidecarConfig {
            health_check_interval: 500,
            startup_timeout: 30000,
            max_restart_attempts: 3,
            port_range_start: 8000,
            port_range_end: 9000,
        }
    }
}

/// The one place where the handle of the live child process is kept. It
/// holds at most one handle, and a handle leaves it only into the hands of
/// the caller: by `take`, or by `store`, which gives the displaced one back.
pub struct ChildSlot<H> {
    handle: Option<H>,
}

impl<H> ChildSlot<H> {
    /// The handle held, if any.
    pub closed spec fn held(self) -> Option<H> {
        self.handle
    }

    /// An empty slot.
    pub fn new() -> (slot: Self)
        ensures
            slot.held() is None,
    {
        ChildSlot { handle: None }
    }

    /// Whether a handle is held.
    pub fn is_occupied(&self) -> (occupied: bool)
        ensures
            occupied == self.held() is Some,
    {
        self.handle.is_some()
    }

    /// Puts `handle` into the slot and returns the one it displaces.
    pub fn store(&mut self, handle: H) -> (displaced: Option<H>)
        ensures
            final(self).held() == Some(handle),
            displaced == old(self).held(),
    {
        let mut incoming = Some(handle);
        std::mem::swap(&mut self.handle, &mut incoming);
        incoming
    }

    /// Removes the handle and returns it; the slot is empty afterwards.
    pub fn take(&mut self) -> (taken: Option<H>)
        ensures
            final(self).held() is None,
            taken == old(self).held(),
    {
        let mut taken = None;
        std::mem::swap(&mut self.handle, &mut taken);
        taken
    }
}

/// A notification for the user interface.
#[derive(Debug, PartialEq)]
pub enum SupervisorEvent {
    /// The backend answers on the port.
    Ready { port: u16 },
    /// A start failed; the message says why.
    Error { message: String },
    /// The process ended with the exit code.
    Stopped { exit_code: i32 },
}

impl SupervisorEvent {
    /// The name under which the event is published.
    pub open spec fn name_text(self) -> Seq<char> {
        match self {
            SupervisorEvent::Ready { .. } => "backend-ready"@,
            SupervisorEvent::Error { .. } => "backend-error"@,
            SupervisorEvent::Stopped { .. } => "backend-stopped"@,
        }
    }

    /// The name under which the event is published.
    pub fn name(&self) -> (name: &'static str)
        ensures
            name@ == self.name_text(),
    {
        match self {
            SupervisorEvent::Ready { .. } => "backend-ready",
            SupervisorEvent::Error { .. } => "backend-error",
            SupervisorEvent::Stopped { .. } => "backend-stopped",
        }
    }
}

/// The event that announces how a start ended: ready on the port, or an
/// error with the failure's message.
pub fn start_event(result: &Result<u16, SidecarError>) -> (event: SupervisorEvent)
    ensures
        match *result {
            Ok(port) => event == (SupervisorEvent::Ready { port }),
            Err(error) => event matches SupervisorEvent::Error { message } && message@
                == error.message_text(),
        },
{
    match result {
        Ok(port) => SupervisorEvent::Ready { port: *port },
        Err(error) => SupervisorEvent::Error { message: error.message() },
    }
}

/// What a start request has to do next.
#[derive(Debug, Clone, Copy, PartialEq, Eq, Structural)]
pub enum StartStep {
    /// The backend is running on `port` already: answer with that port and
    /// spawn nothing.
    AlreadyRunning { port: u16 },
    /// Another start is under way and may own a process already: spawn
    /// nothing and leave the slot alone.
    AlreadyStarting,
    /// The status is now `Starting`: look for a port and go on.
    Proceed,
}

impl StartStep {
    /// The answer that ends the request at once, if the step has one: the
    /// port of a running backend, or `NotRunning` while another start is
    /// under way. `Proceed` has none.
    pub open spec fn answer(self) -> Option<Result<u16, SidecarError>> {
        match self {
            StartStep::AlreadyRunning { port } => Some(Ok(port)),
            StartStep::AlreadyStarting => Some(Err(SidecarError::NotRunning)),
            StartStep::Proceed => None,
        }
    }

    /// The answer that ends the request at once, if the step has one.
    pub fn early_answer(&self) -> (answer: Option<Result<u16, SidecarError>>)
        ensures
            answer == self.answer(),
    {
        match self {
            StartStep::AlreadyRunning { port } => Some(Ok(*port)),
            StartStep::AlreadyStarting => Some(Err(SidecarError::NotRunning)),
            StartStep::Proceed => None,
        }
    }
}

/// Opens a start request.
///
/// While the status is `Running` nothing changes and the port of that
/// status is handed back. While it is `Starting` nothing changes either:
/// the start that is under way keeps the process and the slot to itself,
/// and this request is turned away. From `Stopped`, `Stopping` and `Failed`
/// the store moves to `Starting`, its port and configuration untouched.
/// So of two requests on one store, with nothing in between, only the first
/// can be told to proceed.
pub fn begin_start(state: &mut AppState) -> (step: StartStep)
    ensures
        match old(state).status() {
            BackendStatus::Running { port, .. } => {
                &&& step == (StartStep::AlreadyRunning { port })
                &&& *final(state) == *old(state)
            },
            BackendStatus::Starting => {
                &&& step == StartStep::AlreadyStarting
                &&& *final(state) == *old(state)
            },
            _ => {
                &&& step == StartStep::Proceed
                &&& final(state).status() == BackendStatus::Starting
                &&& final(state).port() == old(state).port()
                &&& final(state).config() == old(state).config()
            },
        },
        step == StartStep::Proceed <==> (old(state).status() is Stopped || old(
            state,
        ).status() is Stopping || old(state).status() is Failed),
        old(state).port_follows_status() ==> final(state).port_follows_status(),
        old(state).status() is Stopped || old(state).status() is Failed ==> old(
            state,
        ).status().steps_to(final(state).status()),
{
    match state.get_backend_status() {
        BackendStatus::Running { port, .. } => StartStep::AlreadyRunning { port },
        BackendStatus::Starting => StartStep::AlreadyStarting,
        _ => {
            state.set_backend_status(BackendStatus::Starting);
            StartStep::Proceed
        },
    }
}

/// Records that a start attempt ended with `error`: the status becomes
/// `Failed` with the error's message; port and configuration stay.
fn record_failure(state: &mut AppState, error: &SidecarError)
    ensures
        final(state).status() is Failed,
        final(state).status()->error@ == error.message_text(),
        final(state).port() == old(state).port(),
        final(state).config() == old(state).config(),
        final(state).port_follows_status() == (old(state).port() is None),
{
    state.set_backend_status(BackendStatus::Failed { error: error.message() });
}

/// Takes the answer of the port scan. A port is handed on and the store
/// stays as it is. Without one the start ends here: the status becomes
/// `Failed` with the message of `PortError`, which is returned, and no
/// process is to be spawned.
pub fn claim_port(state: &mut AppState, found: Option<u16>) -> (claimed: Result<u16, SidecarError>)
    ensures
        match found {
            Some(port) => claimed == Ok::<u16, SidecarError>(port) && *final(state) == *old(state),
            None => {
                &&& claimed == Err::<u16, SidecarError>(SidecarError::PortError)
                &&& final(state).status() is Failed
                &&& final(state).status()->error@ == SidecarError::PortError.message_text()
                &&& final(state).port() == old(state).port()
                &&& final(state).config() == old(state).config()
                &&& final(state).port_follows_status() == (old(state).port() is None)
                &&& old(state).status() is Starting ==> old(state).status().steps_to(
                    final(state).status(),
                )
            },
        },
{
    match found {
        Some(port) => Ok(port),
        None => {
            let error = SidecarError::PortError;
            record_failure(state, &error);
            Err(error)
        },
    }
}

/// The command line of the backend: the loopback host, the port in decimal,
/// and the data directory.
pub open spec fn sidecar_args_text(port: u16, data_dir: Seq<char>) -> Seq<Seq<char>> {
    seq!["--host"@, "127.0.0.1"@, "--port"@, decimal(port as nat), "--data-dir"@, data_dir]
}

/// The arguments with which the backend is spawned.
pub fn sidecar_args(port: u16, data_dir: &str) -> (args: Vec<String>)
    ensures
        args@.len() == 6,
        forall|i: int| 0 <= i < 6 ==> (#[trigger] args@[i])@ == sidecar_args_text(port, data_dir@)[i],
{
    let mut args: Vec<String> = Vec::new();
    args.push("--host".to_owned());
    args.push("127.0.0.1".to_owned());
    args.push("--port".to_owned());
    args.push(decimal_string(port as u64));
    args.push("--data-dir".to_owned());
    args.push(data_dir.to_owned());
    args
}

/// The text of the health endpoint's URL on `port`.
pub open spec fn health_url_text(port: u16) -> Seq<char> {
    backend_url_text(port) + "/health"@
}

/// The URL that the health polling asks.
pub fn health_url(port: u16) -> (url: String)
    ensures
        url@ == health_url_text(port),
{
    let mut url = "http://127.0.0.1:".to_owned();
    push_decimal(&mut url, port as u64);
    url.append("/health");
    url
}

/// Records that the process could not be spawned. The status becomes
/// `Failed` with the message of the `SpawnError` that is returned; nothing is
/// retried here.
pub fn spawn_failed(state: &mut AppState, reason: String) -> (error: SidecarError)
    ensures
        error == SidecarError::SpawnError(reason),
        final(state).status() is Failed,
        final(state).status()->error@ == error.message_text(),
        final(state).port() == old(state).port(),
        final(state).config() == old(state).config(),
        final(state).port_follows_status() == (old(state).port() is None),
        old(state).status() is Starting ==> old(state).status().steps_to(final(state).status()),
{
    let error = SidecarError::SpawnError(reason);
    record_failure(state, &error);
    error
}

/// What the child process reports while it lives.
#[derive(Debug)]
pub enum ProcessEvent {
    /// A line on standard output.
    Stdout { line: String },
    /// A line on standard error.
    Stderr { line: String },
    /// The output stream itself failed.
    Error { reason: String },
    /// The process ended, with its exit code where the platform gave one.
    Terminated { code: Option<i32> },
    /// Anything else.
    Other,
}

/// What the monitor does about a process event.
#[derive(Debug, PartialEq)]
pub enum MonitorAction {
    /// Log the line as information.
    LogInfo { line: String },
    /// Log the line as a warning.
    LogWarning { line: String },
    /// Log the line as an error.
    LogError { line: String },
    /// Log the exit as a warning and publish it with `event`.
    Announce { line: String, event: SupervisorEvent },
    /// Nothing.
    Ignore,
}

/// The exit code that is published for a termination: the process's own,
/// or -1 where none is known.
pub open spec fn published_exit_code(code: Option<i32>) -> i32 {
    match code {
        Some(code) => code,
        None => -1i32,
    }
}

/// Handles one event of the child process.
///
/// Output and stream errors only produce a log line, prefixed by who
/// speaks, and leave the store alone. A termination moves the store to
/// `Stopped` and clears the port, whatever the status was, and is announced
/// with the exit code.
pub fn on_process_event(state: &mut AppState, event: ProcessEvent) -> (action: MonitorAction)
    ensures
        match event {
            ProcessEvent::Stdout { line } => {
                &&& *final(state) == *old(state)
                &&& action matches MonitorAction::LogInfo { line: text }
                &&& text@ == "[Backend] "@ + line@
            },
            ProcessEvent::Stderr { line } => {
                &&& *final(state) == *old(state)
                &&& action matches MonitorAction::LogWarning { line: text }
                &&& text@ == "[Backend STDERR] "@ + line@
            },
            ProcessEvent::Error { reason } => {
                &&& *final(state) == *old(state)
                &&& action matches MonitorAction::LogError { line: text }
                &&& text@ == "[Backend ERROR] "@ + reason@
            },
            ProcessEvent::Terminated { code } => {
                &&& final(state).status() == BackendStatus::Stopped
                &&& final(state).port() is None
                &&& final(state).config() == old(state).config()
                &&& final(state).port_follows_status()
                &&& old(state).status() is Running ==> old(state).status().steps_to(
                    final(state).status(),
                )
                &&& action matches MonitorAction::Announce { line: text, event: published }
                &&& text@ == "[Backend] Process terminated with code: "@ + signed_decimal(
                    published_exit_code(code) as int,
                )
                &&& published == (SupervisorEvent::Stopped {
                    exit_code: published_exit_code(code),
                })
            },
            ProcessEvent::Other => *final(state) == *old(state) && action is Ignore,
        },
{
    match event {
        ProcessEvent::Stdout { line } => {
            let mut text = "[Backend] ".to_owned();
            text.append(line.as_str());
            MonitorAction::LogInfo { line: text }
        },
        ProcessEvent::Stderr { line } => {
            let mut text = "[Backend STDERR] ".to_owned();
            text.append(line.as_str());
            MonitorAction::LogWarning { line: text }
        },
        ProcessEvent::Error { reason } => {
            let mut text = "[Backend ERROR] ".to_owned();
            text.append(reason.as_str());
            MonitorAction::LogError { line: text }
        },
        ProcessEvent::Terminated { code } => {
            let exit_code: i32 = match code {
                Some(code) => code,
                None => -1,
            };
            state.set_backend_status(BackendStatus::Stopped);
            state.set_backend_port(None);
            let mut text = "[Backend] Process terminated with code: ".to_owned();
            push_signed_decimal(&mut text, exit_code);
            MonitorAction::Announce { line: text, event: SupervisorEvent::Stopped { exit_code } }
        },
        ProcessEvent::Other => MonitorAction::Ignore,
    }
}

/// How many health polls one start makes at most.
pub const MAX_HEALTH_ATTEMPTS: u32 = 60;

/// Milliseconds that a restart waits between its stop and its start, so
/// that the port is free again.
pub const RESTART_SETTLE_MS: u64 = 1000;

/// What is logged about one health poll.
#[derive(Debug, PartialEq)]
pub enum PollNote {
    /// The poll of this number passed.
    Passed { attempt: u32 },
    /// The backend answered the poll of this number, and is not healthy.
    Unhealthy { attempt: u32 },
    /// The poll of this number got no usable answer.
    NotReady { attempt: u32, reason: String },
    /// Nothing is logged.
    Silent,
}

impl PollNote {
    /// The line that is logged for the note, if any.
    pub open spec fn line_text(self) -> Option<Seq<char>> {
        match self {
            PollNote::Passed { attempt } => Some(
                "Backend health check passed on attempt "@ + decimal(attempt as nat),
            ),
            PollNote::Unhealthy { attempt } => Some(
                "Backend health check returned unhealthy on attempt "@ + decimal(attempt as nat),
            ),
            PollNote::NotReady { attempt, reason } => Some(
                "Backend not ready yet (attempt "@ + decimal(attempt as nat) + "): "@ + reason@,
            ),
            PollNote::Silent => None,
        }
    }

    /// The line that is logged for the note, if any.
    pub fn line(&self) -> (line: Option<String>)
        ensures
            match self.line_text() {
                Some(text) => line matches Some(written) && written@ == text,
                None => line is None,
            },
    {
        match self {
            PollNote::Passed { attempt } => {
                let mut text = "Backend health check passed on attempt ".to_owned();
                push_decimal(&mut text, *attempt as u64);
                Some(text)
            },
            PollNote::Unhealthy { attempt } => {
                let mut text = "Backend health check returned unhealthy on attempt ".to_owned();
                push_decimal(&mut text, *attempt as u64);
                Some(text)
            },
            PollNote::NotReady { attempt, reason } => {
                let mut text = "Backend not ready yet (attempt ".to_owned();
                push_decimal(&mut text, *attempt as u64);
                text.append("): ");
                text.append(reason.as_str());
                Some(text)
            },
            PollNote::Silent => None,
        }
    }
}

/// What the polling loop does after one health poll.
#[derive(Debug, PartialEq)]
pub enum PollStep {
    /// The backend is healthy: the polling ends with success.
    Ready { note: PollNote },
    /// Not healthy yet: sleep for `delay_ms`, then poll again unless the
    /// attempts are used up.
    Retry { delay_ms: u64, note: PollNote },
}

/// The note on the poll of number `attempt` that ended with `verdict`. A
/// failed request is only noted on every tenth attempt.
pub open spec fn poll_note(attempt: u32, verdict: Result<bool, String>, note: PollNote) -> bool {
    match verdict {
        Ok(true) => note == (PollNote::Passed { attempt }),
        Ok(false) => note == (PollNote::Unhealthy { attempt }),
        Err(reason) => if attempt % 10 == 0 {
            note == (PollNote::NotReady { attempt, reason })
        } else {
            note is Silent
        },
    }
}

/// The progress of the health polling of one start.
pub struct HealthPoll {
    attempts: u32,
    interval_ms: u64,
}

impl HealthPoll {
    /// How many polls have been recorded.
    pub closed spec fn attempts_made(self) -> nat {
        self.attempts as nat
    }

    /// Milliseconds to sleep between two polls.
    pub closed spec fn interval(self) -> u64 {
        self.interval_ms
    }

    /// Whether the attempts are used up.
    pub open spec fn used_up(self) -> bool {
        self.attempts_made() >= MAX_HEALTH_ATTEMPTS
    }

    /// A polling that has made no attempt yet and sleeps for the
    /// configuration's interval between two.
    pub fn new(config: &SidecarConfig) -> (poll: Self)
        ensures
            poll.attempts_made() == 0,
            poll.interval() == config.health_check_interval,
            !poll.used_up(),
    {
        HealthPoll { attempts: 0, interval_ms: config.health_check_interval }
    }

    /// Whether the attempts are used up: the polling then ends with
    /// [`HealthPoll::give_up`].
    pub fn exhausted(&self) -> (done: bool)
        ensures
            done == self.used_up(),
    {
        self.attempts >= MAX_HEALTH_ATTEMPTS
    }

    /// Records the verdict of one more poll and says how to go on.
    ///
    /// Only a healthy answer ends the polling. An unhealthy answer and a
    /// failed request both lead to a sleep of the interval and, while
    /// attempts remain, another poll: no single failure is final. The count
    /// of attempts grows by one (it stops at the largest `u32`).
    pub fn record(&mut self, verdict: Result<bool, String>) -> (step: PollStep)
        ensures
            final(self).interval() == old(self).interval(),
            final(self).attempts_made() == if old(self).attempts_made() < u32::MAX {
                old(self).attempts_made() + 1
            } else {
                old(self).attempts_made()
            },
            match verdict {
                Ok(true) => step matches PollStep::Ready { note } && poll_note(
                    final(self).attempts_made() as u32,
                    verdict,
                    note,
                ),
                _ => step matches PollStep::Retry { delay_ms, note } && delay_ms == old(
                    self,
                ).interval() && poll_note(final(self).attempts_made() as u32, verdict, note),
            },
    {
        if self.attempts < u32::MAX {
            self.attempts = self.attempts + 1;
        }
        let attempt = self.attempts;
        match verdict {
            Ok(true) => PollStep::Ready { note: PollNote::Passed { attempt } },
            Ok(false) => PollStep::Retry {
                delay_ms: self.interval_ms,
                note: PollNote::Unhealthy { attempt },
            },
            Err(reason) => {
                let note = if attempt % 10 == 0 {
                    PollNote::NotReady { attempt, reason }
                } else {
                    PollNote::Silent
                };
                PollStep::Retry { delay_ms: self.interval_ms, note }
            },
        }
    }

    /// The reason with which a polling that used up its attempts ends.
    pub fn give_up(&self) -> (reason: String)
        ensures
            reason@ == "Backend failed to become ready within timeout"@,
    {
        "Backend failed to become ready within timeout".to_owned()
    }
}

/// How the wait for the backend's health ended.
#[derive(Debug)]
pub enum StartupOutcome {
    /// The startup budget ran out while the polling was still going on.
    TimedOut,
    /// The polling ended by itself: healthy or not, or with the reason for
    /// which it gave up.
    Polled { result: Result<bool, String> },
}

/// Closes a start request once the wait for the backend's health is over.
///
/// A healthy backend makes the status `Running` with `port` and `pid`,
/// records the port, and returns the port. Everything else fails the start
/// and makes the status `Failed`, with the port as it was: running out of
/// time returns `StartupTimeout`, a polling that gave up returns
/// `HealthCheckFailed` with its reason, and in both cases the status carries
/// the error's message; a polling that ended unhealthy returns
/// `HealthCheckFailed` too. The process is not touched in any case.
pub fn finish_start(
    state: &mut AppState,
    port: u16,
    pid: u32,
    outcome: StartupOutcome,
) -> (result: Result<u16, SidecarError>)
    ensures
        final(state).config() == old(state).config(),
        match outcome {
            StartupOutcome::Polled { result: Ok(true) } => {
                &&& result == Ok::<u16, SidecarError>(port)
                &&& final(state).status() == (BackendStatus::Running { port, pid: Some(pid) })
                &&& final(state).port() == Some(port)
                &&& final(state).port_follows_status()
            },
            StartupOutcome::Polled { result: Ok(false) } => {
                &&& result matches Err(SidecarError::HealthCheckFailed(reason))
                &&& reason@ == "Backend failed to become ready"@
                &&& final(state).status() is Failed
                &&& final(state).status()->error@ == "Health check failed"@
                &&& final(state).port() == old(state).port()
            },
            StartupOutcome::Polled { result: Err(cause) } => {
                &&& result == Err::<u16, SidecarError>(SidecarError::HealthCheckFailed(cause))
                &&& final(state).status() is Failed
                &&& final(state).status()->error@ == result->Err_0.message_text()
                &&& final(state).port() == old(state).port()
            },
            StartupOutcome::TimedOut => {
                &&& result == Err::<u16, SidecarError>(SidecarError::StartupTimeout)
                &&& final(state).status() is Failed
                &&& final(state).status()->error@ == result->Err_0.message_text()
                &&& final(state).port() == old(state).port()
            },
        },
        result is Err ==> final(state).port_follows_status() == (old(state).port() is None),
        old(state).status() is Starting ==> old(state).status().steps_to(final(state).status()),
{
    match outcome {
        StartupOutcome::Polled { result: Ok(true) } => {
            state.set_backend_status(BackendStatus::Running { port, pid: Some(pid) });
            state.set_backend_port(Some(port));
            Ok(port)
        },
        StartupOutcome::Polled { result: Ok(false) } => {
            state.set_backend_status(
                BackendStatus::Failed { error: "Health check failed".to_owned() },
            );
            Err(SidecarError::HealthCheckFailed("Backend failed to become ready".to_owned()))
        },
        StartupOutcome::Polled { result: Err(cause) } => {
            let error = SidecarError::HealthCheckFailed(cause);
            record_failure(state, &error);
            Err(error)
        },
        StartupOutcome::TimedOut => {
            let error = SidecarError::StartupTimeout;
            record_failure(state, &error);
            Err(error)
        },
    }
}

/// Opens a stop request: the status becomes `Stopping`, whatever it was;
/// port and configuration stay. The caller then takes the handle out of
/// the slot, signals the process if there was one, and closes the request
/// with [`finish_stop`].
pub fn begin_stop(state: &mut AppState)
    ensures
        final(state).status() == BackendStatus::Stopping,
        final(state).port() == old(state).port(),
        final(state).config() == old(state).config(),
        final(state).port_follows_status() == (old(state).port() is None),
        old(state).status() is Running ==> old(state).status().steps_to(final(state).status()),
{
    state.set_backend_status(BackendStatus::Stopping);
}

/// Closes a stop request. `signal` is what sending the termination signal
/// to the handle taken from the slot came to, or `None` where the slot was
/// empty.
///
/// A failed signal returns `OperationFailed` with its reason and leaves the
/// store as it is, so a status of `Stopping` stays. Otherwise the status
/// becomes `Stopped` and the port is cleared.
pub fn finish_stop(
    state: &mut AppState,
    signal: Option<Result<(), String>>,
) -> (result: Result<(), SidecarError>)
    ensures
        match signal {
            Some(Err(reason)) => {
                &&& result == Err::<(), SidecarError>(SidecarError::OperationFailed(reason))
                &&& *final(state) == *old(state)
            },
            _ => {
                &&& result is Ok
                &&& final(state).status() == BackendStatus::Stopped
                &&& final(state).port() is None
                &&& final(state).config() == old(state).config()
                &&& final(state).port_follows_status()
                &&& old(state).status() is Stopping ==> old(state).status().steps_to(
                    final(state).status(),
                )
            },
        },
{
    match signal {
        Some(Err(reason)) => Err(SidecarError::OperationFailed(reason)),
        _ => {
            state.set_backend_status(BackendStatus::Stopped);
            state.set_backend_port(None);
            Ok(())
        },
    }
}

/// What a restart does between its stop and its start.
#[derive(Debug, PartialEq)]
pub struct RestartPause {
    /// The warning to log where the stop failed.
    pub warning: Option<String>,
    /// Milliseconds to wait before the start.
    pub settle_ms: u64,
}

/// Takes the result of a restart's stop. A failure is turned into a
/// warning and goes no further: the start is attempted in either case,
/// after the settle delay.
pub fn restart_pause(stopped: &Result<(), SidecarError>) -> (pause: RestartPause)
    ensures
        pause.settle_ms == RESTART_SETTLE_MS,
        match *stopped {
            Ok(_) => pause.warning is None,
            Err(error) => pause.warning matches Some(text) && text@
                == "Error stopping backend during restart: "@ + error.message_text(),
        },
{
    let warning = match stopped {
        Ok(_) => None,
        Err(error) => {
            let mut text = "Error stopping backend during restart: ".to_owned();
            let message = error.message();
            text.append(message.as_str());
            Some(text)
        },
    };
    RestartPause { warning, settle_ms: RESTART_SETTLE_MS }
}

/// The backend's status, read from the store.
pub fn get_backend_status(state: &AppState) -> (status: BackendStatus)
    ensures
        status == state.status(),
{
    state.get_backend_status()
}

/// The backend's base URL, read from the store: present exactly when a
/// port is recorded, and so, where the port follows the status, exactly
/// while the backend is running.
pub fn get_backend_url(state: &AppState) -> (url: Option<String>)
    ensures
        match state.port() {
            Some(port) => url is Some && url->Some_0@ == backend_url_text(port),
            None => url is None,
        },
        state.port_follows_status() ==> (url is Some <==> state.status().running()),
{
    state.get_backend_url()
}

} // verus!
