//! The controller of the browser's process: the monitor, which finds out
//! whether the browser runs, and the terminator, which stops it, waits, and
//! on Linux escalates from a request to an order.
//!
//! Both are state machines. A state says which answer of the driver is
//! awaited; `action` gives the request that the driver is to carry out in
//! that state, and the transition function takes the state and the driver's
//! answer to the next state. An answer that the state does not await leaves
//! the state as it is.

use vstd::prelude::*;
use crate::driver::{Action, ActionView, Event, EventView};
use crate::error::{AppError, AppResult, ErrorView};
use crate::pids::PidSet;
use crate::platform::{
    command_failed, failure_view, find_command, find_command_view, force_command,
    force_command_view, gathered, list_command, list_command_view, listing_outcome,
    lookup_outcome, pgrep_pids, pgrep_running, quit_command, quit_command_view, send_signal,
    signal_command, signal_command_view, signal_outcome, tasklist_running, Command,
    CommandOutput, CommandView, OsKind, OutputView, ProcessName, Signal,
};
use crate::text::mentions;

verus! {

/// A question put to the operating system about the browser's process.
#[derive(Clone, Copy, Debug, PartialEq, Eq, Structural)]
pub enum Query {
    /// Is there a process of exactly this name?
    ByName(ProcessName),
    /// Does the listing of running processes name the browser's image?
    ByImage,
}

impl Query {
    /// The first question to ask on an operating system.
    pub open spec fn first(os: OsKind) -> Query {
        match os {
            OsKind::Macos => Query::ByName(ProcessName::ChromeApp),
            OsKind::Linux => Query::ByName(ProcessName::Chrome),
            OsKind::Windows => Query::ByImage,
        }
    }

    /// The command that puts the question.
    pub open spec fn command(self) -> CommandView {
        match self {
            Query::ByName(name) => find_command_view(name.text(), false),
            Query::ByImage => list_command_view(),
        }
    }
}

/// The monitor: one check, at one point in time, of whether the browser
/// runs.
#[derive(Debug)]
pub enum Probe {
    /// The answer to this question is awaited.
    Asking(Query),
    /// The check is over: the browser runs, or does not, or the check failed.
    Answered(AppResult<bool>),
}

/// A [`Probe`] as a mathematical value.
pub enum ProbeView {
    Asking(Query),
    Answered(Result<bool, ErrorView>),
}

impl View for Probe {
    type V = ProbeView;

    open spec fn view(&self) -> ProbeView {
        match self {
            Probe::Asking(query) => ProbeView::Asking(*query),
            Probe::Answered(Ok(running)) => ProbeView::Answered(Ok(*running)),
            Probe::Answered(Err(e)) => ProbeView::Answered(Err(e@)),
        }
    }
}

impl ProbeView {
    /// The check before anything has been asked.
    pub open spec fn start(os: OsKind) -> ProbeView {
        ProbeView::Asking(Query::first(os))
    }

    /// The command whose outcome is awaited, if the check is not over.
    pub open spec fn command(self) -> Option<CommandView> {
        match self {
            ProbeView::Asking(query) => Some(query.command()),
            ProbeView::Answered(_) => None,
        }
    }

    /// The check after the outcome of a lookup by name has come in: "found"
    /// ends the check, "not found" leads to the next name if there is one,
    /// and a failure ends the check.
    pub open spec fn after_lookup(name: ProcessName, code: Option<i32>) -> ProbeView {
        match lookup_outcome(name.text(), code) {
            Ok(true) => ProbeView::Answered(Ok(true)),
            Ok(false) => match name.alias() {
                Some(next) => ProbeView::Asking(Query::ByName(next)),
                None => ProbeView::Answered(Ok(false)),
            },
            Err(e) => ProbeView::Answered(Err(e)),
        }
    }

    /// The check after the driver's answer.
    pub open spec fn advance(self, event: EventView) -> ProbeView {
        match (self, event) {
            (ProbeView::Asking(Query::ByName(name)), EventView::Exited(output)) =>
                ProbeView::after_lookup(name, output.code),
            (ProbeView::Asking(Query::ByImage), EventView::Exited(output)) => ProbeView::Answered(
                listing_outcome(output),
            ),
            (ProbeView::Asking(_), EventView::Failed(why)) => ProbeView::Answered(
                Err(ErrorView::Io(why)),
            ),
            _ => self,
        }
    }
}

impl Probe {
    /// The check before anything has been asked.
    pub fn start(os: OsKind) -> (r: Probe)
        ensures
            r@ == ProbeView::start(os),
    {
        match os {
            OsKind::Macos => Probe::Asking(Query::ByName(ProcessName::ChromeApp)),
            OsKind::Linux => Probe::Asking(Query::ByName(ProcessName::Chrome)),
            OsKind::Windows => Probe::Asking(Query::ByImage),
        }
    }

    /// The command whose outcome is awaited, if the check is not over.
    pub fn command(&self) -> (r: Option<Command>)
        ensures
            match r {
                Some(command) => self@.command() == Some(command@),
                None => self@.command() is None,
            },
    {
        match self {
            Probe::Asking(Query::ByName(name)) => Some(find_command(name.as_str(), false)),
            Probe::Asking(Query::ByImage) => Some(list_command()),
            Probe::Answered(_) => None,
        }
    }
}

/// Takes the monitor one step on, from the driver's answer to the command
/// that the monitor last asked for.
pub fn is_chrome_running(probe: Probe, event: &Event) -> (r: Probe)
    ensures
        r@ == probe@.advance(event@),
{
    match probe {
        Probe::Asking(query) => match event {
            Event::Exited(output) => match query {
                Query::ByName(name) => match pgrep_running(name.as_str(), output.code) {
                    Ok(true) => Probe::Answered(Ok(true)),
                    Ok(false) => match name.next() {
                        Some(next) => Probe::Asking(Query::ByName(next)),
                        None => Probe::Answered(Ok(false)),
                    },
                    Err(e) => Probe::Answered(Err(e)),
                },
                Query::ByImage => Probe::Answered(tasklist_running(output)),
            },
            Event::Failed(why) => Probe::Answered(Err(AppError::Io(why.clone()))),
            _ => Probe::Asking(query),
        },
        Probe::Answered(answer) => Probe::Answered(answer),
    }
}


/// How long one wait for the browser to go may take, in milliseconds.
pub const WAIT_BUDGET_MS: u64 = 3000;

/// How long the terminator sleeps between two checks, in milliseconds.
pub const POLL_INTERVAL_MS: u64 = 300;

/// One of the two cycles of stopping and waiting.
#[derive(Clone, Copy, Debug, PartialEq, Eq, Structural)]
pub enum Phase {
    /// The browser is asked to go.
    Graceful,
    /// The browser is made to go.
    Forced,
}

impl Phase {
    /// The signal that stands for this phase on Linux.
    pub open spec fn signal(self) -> Signal {
        match self {
            Phase::Graceful => Signal::Term,
            Phase::Forced => Signal::Kill,
        }
    }

    /// The signal that stands for this phase on Linux.
    pub fn to_signal(self) -> (r: Signal)
        ensures
            r == self.signal(),
    {
        match self {
            Phase::Graceful => Signal::Term,
            Phase::Forced => Signal::Kill,
        }
    }
}

/// Where the terminator stands.
#[derive(Debug)]
pub enum Stage {
    /// Linux, before a stop request: the identifiers of the browser's
    /// processes are being gathered, name by name. The lookup of `name` is
    /// awaited; `pids` holds what earlier lookups found.
    Gathering { phase: Phase, name: ProcessName, pids: PidSet },
    /// The stop request has been issued and its outcome is awaited.
    Requested { phase: Phase, pids: PidSet },
    /// Waiting: a check of the monitor is under way. The wait began at
    /// `started_ms`, and this is check number `attempts`.
    Polling { phase: Phase, started_ms: u64, attempts: u64, probe: Probe },
    /// Waiting: asleep between two checks.
    Pausing { phase: Phase, started_ms: u64, attempts: u64 },
    /// Linux, after the first wait: a check decides whether to escalate.
    Checking { probe: Probe },
    /// After every phase that applies: the last check decides the outcome.
    Confirming { probe: Probe },
    /// The terminator is done: the browser is gone, or the attempt failed.
    Finished(AppResult<()>),
}

/// A [`Stage`] as a mathematical value.
pub enum StageView {
    Gathering { phase: Phase, name: ProcessName, pids: Set<i32> },
    Requested { phase: Phase, pids: Set<i32> },
    Polling { phase: Phase, started_ms: u64, attempts: u64, probe: ProbeView },
    Pausing { phase: Phase, started_ms: u64, attempts: u64 },
    Checking { probe: ProbeView },
    Confirming { probe: ProbeView },
    Finished(Result<(), ErrorView>),
}

impl View for Stage {
    type V = StageView;

    open spec fn view(&self) -> StageView {
        match self {
            Stage::Gathering { phase, name, pids } => StageView::Gathering {
                phase: *phase,
                name: *name,
                pids: pids@,
            },
            Stage::Requested { phase, pids } => StageView::Requested { phase: *phase, pids: pids@ },
            Stage::Polling { phase, started_ms, attempts, probe } => StageView::Polling {
                phase: *phase,
                started_ms: *started_ms,
                attempts: *attempts,
                probe: probe@,
            },
            Stage::Pausing { phase, started_ms, attempts } => StageView::Pausing {
                phase: *phase,
                started_ms: *started_ms,
                attempts: *attempts,
            },
            Stage::Checking { probe } => StageView::Checking { probe: probe@ },
            Stage::Confirming { probe } => StageView::Confirming { probe: probe@ },
            Stage::Finished(Ok(_)) => StageView::Finished(Ok(())),
            Stage::Finished(Err(e)) => StageView::Finished(Err(e@)),
        }
    }
}

/// The terminator: stops the browser on one operating system.
#[derive(Debug)]
pub struct Stopper {
    /// The operating system whose means are used.
    pub os: OsKind,
    /// Where the terminator stands.
    pub stage: Stage,
}

/// A [`Stopper`] as a mathematical value.
pub struct StopperView {
    pub os: OsKind,
    pub stage: StageView,
}

impl View for Stopper {
    type V = StopperView;

    open spec fn view(&self) -> StopperView {
        StopperView { os: self.os, stage: self.stage@ }
    }
}

/// The command that stops the browser: on macOS the application is asked to
/// quit, on Windows its processes are ended by force, and on Linux the
/// processes of `pids` get the signal of the phase.
pub open spec fn stop_request(os: OsKind, phase: Phase, pids: Set<i32>) -> CommandView {
    match os {
        OsKind::Macos => quit_command_view(),
        OsKind::Windows => force_command_view(),
        OsKind::Linux => signal_command_view(phase.signal(), pids),
    }
}

/// What the outcome of the stop request says: the request went through
/// exactly when its command ended with exit code zero.
pub open spec fn stop_outcome(os: OsKind, phase: Phase, pids: Set<i32>, output: OutputView) -> Result<
    (),
    ErrorView,
> {
    match os {
        OsKind::Linux => signal_outcome(phase.signal(), pids, output),
        _ => if output.succeeded() {
            Ok(())
        } else {
            Err(failure_view(stop_request(os, phase, pids).label, output))
        },
    }
}

/// The number of the next check.
pub open spec fn next_attempt(attempts: u64) -> u64 {
    if attempts < u64::MAX {
        (attempts + 1) as u64
    } else {
        attempts
    }
}

/// Whether the wait that began at `started_ms` has used up its budget at
/// `now_ms`.
pub open spec fn budget_spent(started_ms: u64, now_ms: u64) -> bool {
    now_ms >= started_ms && now_ms - started_ms >= WAIT_BUDGET_MS
}

/// The stage that follows a wait. On Linux the first wait is followed by the
/// check that decides on escalation; everywhere else, and after the second
/// wait, the last check follows.
pub open spec fn after_wait(os: OsKind, phase: Phase) -> StageView {
    if os == OsKind::Linux && phase == Phase::Graceful {
        StageView::Checking { probe: ProbeView::start(os) }
    } else {
        StageView::Confirming { probe: ProbeView::start(os) }
    }
}

/// The wait at the head of its loop, `attempts` checks after it began: while
/// the budget lasts another check begins, and once it is spent the wait is
/// over, with the browser still running.
pub open spec fn waiting(
    os: OsKind,
    phase: Phase,
    started_ms: u64,
    attempts: u64,
    now_ms: u64,
) -> StageView {
    if budget_spent(started_ms, now_ms) {
        after_wait(os, phase)
    } else {
        StageView::Polling {
            phase,
            started_ms,
            attempts: next_attempt(attempts),
            probe: ProbeView::start(os),
        }
    }
}

/// The stage that follows the gathering of identifiers. An empty set in the
/// graceful phase means that the browser is gone already; an empty set in
/// the forced phase leaves nothing to signal, and the wait begins at once.
pub open spec fn after_gathering(os: OsKind, phase: Phase, pids: Set<i32>, now_ms: u64) -> StageView {
    if pids == Set::<i32>::empty() {
        match phase {
            Phase::Graceful => StageView::Finished(Ok(())),
            Phase::Forced => waiting(os, phase, now_ms, 0, now_ms),
        }
    } else {
        StageView::Requested { phase, pids }
    }
}

impl StopperView {
    /// The terminator before anything has happened. On Linux it first
    /// gathers the identifiers of the browser's processes; elsewhere it
    /// issues its stop request at once.
    pub open spec fn start(os: OsKind) -> StopperView {
        StopperView {
            os,
            stage: match os {
                OsKind::Linux => StageView::Gathering {
                    phase: Phase::Graceful,
                    name: ProcessName::Chrome,
                    pids: Set::empty(),
                },
                _ => StageView::Requested { phase: Phase::Graceful, pids: Set::empty() },
            },
        }
    }

    /// What the driver is to do in this state, if the terminator is not
    /// done.
    pub open spec fn action(self) -> Option<ActionView> {
        match self.stage {
            StageView::Gathering { name, .. } => Some(
                ActionView::Run(find_command_view(name.text(), true)),
            ),
            StageView::Requested { phase, pids } => Some(
                ActionView::Run(stop_request(self.os, phase, pids)),
            ),
            StageView::Polling { probe, .. } => run_of(probe.command()),
            StageView::Pausing { .. } => Some(ActionView::Sleep { millis: POLL_INTERVAL_MS }),
            StageView::Checking { probe } => run_of(probe.command()),
            StageView::Confirming { probe } => run_of(probe.command()),
            StageView::Finished(_) => None,
        }
    }

    /// The outcome, once the terminator is done.
    pub open spec fn outcome(self) -> Option<Result<(), ErrorView>> {
        match self.stage {
            StageView::Finished(outcome) => Some(outcome),
            _ => None,
        }
    }

    /// The terminator after the driver's answer, which came in at `now_ms`.
    pub open spec fn advance(self, event: EventView, now_ms: u64) -> StopperView {
        let os = self.os;
        let stage = match self.stage {
            StageView::Gathering { phase, name, pids } => match event {
                EventView::Exited(output) => match gathered(name.text(), output, pids) {
                    Err(e) => StageView::Finished(Err(e)),
                    Ok(found) => match name.alias() {
                        Some(next) => StageView::Gathering { phase, name: next, pids: found },
                        None => after_gathering(os, phase, found, now_ms),
                    },
                },
                EventView::Failed(why) => StageView::Finished(Err(ErrorView::Io(why))),
                _ => self.stage,
            },
            StageView::Requested { phase, pids } => match event {
                EventView::Exited(output) => match stop_outcome(os, phase, pids, output) {
                    Ok(_) => waiting(os, phase, now_ms, 0, now_ms),
                    Err(e) => StageView::Finished(Err(e)),
                },
                EventView::Failed(why) => StageView::Finished(Err(ErrorView::Io(why))),
                _ => self.stage,
            },
            StageView::Polling { phase, started_ms, attempts, probe } => match probe.advance(
                event,
            ) {
                ProbeView::Asking(query) => StageView::Polling {
                    phase,
                    started_ms,
                    attempts,
                    probe: ProbeView::Asking(query),
                },
                ProbeView::Answered(Ok(true)) => StageView::Pausing { phase, started_ms, attempts },
                ProbeView::Answered(Ok(false)) => after_wait(os, phase),
                ProbeView::Answered(Err(e)) => StageView::Finished(Err(e)),
            },
            StageView::Pausing { phase, started_ms, attempts } => match event {
                EventView::Woke => waiting(os, phase, started_ms, attempts, now_ms),
                _ => self.stage,
            },
            StageView::Checking { probe } => match probe.advance(event) {
                ProbeView::Asking(query) => StageView::Checking { probe: ProbeView::Asking(query) },
                ProbeView::Answered(Ok(true)) => StageView::Gathering {
                    phase: Phase::Forced,
                    name: ProcessName::Chrome,
                    pids: Set::empty(),
                },
                ProbeView::Answered(Ok(false)) => StageView::Confirming {
                    probe: ProbeView::start(os),
                },
                ProbeView::Answered(Err(e)) => StageView::Finished(Err(e)),
            },
            StageView::Confirming { probe } => match probe.advance(event) {
                ProbeView::Asking(query) => StageView::Confirming {
                    probe: ProbeView::Asking(query),
                },
                ProbeView::Answered(Ok(true)) => StageView::Finished(
                    Err(ErrorView::ChromeStillRunning),
                ),
                ProbeView::Answered(Ok(false)) => StageView::Finished(Ok(())),
                ProbeView::Answered(Err(e)) => StageView::Finished(Err(e)),
            },
            StageView::Finished(_) => self.stage,
        };
        StopperView { os, stage }
    }
}

/// The request to run a command, if there is a command.
pub open spec fn run_of(command: Option<CommandView>) -> Option<ActionView> {
    match command {
        Some(command) => Some(ActionView::Run(command)),
        None => None,
    }
}

/// The request to run the command that a check awaits, if it awaits one.
pub fn probe_action(probe: &Probe) -> (r: Option<Action>)
    ensures
        match r {
            Some(action) => run_of(probe@.command()) == Some(action@),
            None => run_of(probe@.command()) is None,
        },
{
    match probe.command() {
        Some(command) => Some(Action::Run(command)),
        None => None,
    }
}

fn stop_command(os: OsKind, phase: Phase, pids: &PidSet) -> (r: Command)
    ensures
        r@ == stop_request(os, phase, pids@),
{
    match os {
        OsKind::Macos => quit_command(),
        OsKind::Windows => force_command(),
        OsKind::Linux => signal_command(phase.to_signal(), pids),
    }
}

fn stop_requested(os: OsKind, phase: Phase, pids: &PidSet, output: &CommandOutput) -> (r:
    AppResult<()>)
    ensures
        match r {
            Ok(_) => stop_outcome(os, phase, pids@, output@) is Ok,
            Err(e) => stop_outcome(os, phase, pids@, output@) == Err::<(), ErrorView>(e@),
        },
{
    match os {
        OsKind::Linux => send_signal(pids, phase.to_signal(), output),
        _ => if output.code == Some(0) {
            Ok(())
        } else {
            let command = stop_command(os, phase, pids);
            Err(command_failed(command.label.as_str(), output))
        },
    }
}

fn stage_after_wait(os: OsKind, phase: Phase) -> (r: Stage)
    ensures
        r@ == after_wait(os, phase),
{
    if os == OsKind::Linux && phase == Phase::Graceful {
        Stage::Checking { probe: Probe::start(os) }
    } else {
        Stage::Confirming { probe: Probe::start(os) }
    }
}

/// The wait at the head of its loop: another check of the monitor while the
/// budget lasts, the end of the wait once it is spent.
pub fn wait_for_process_stop(
    os: OsKind,
    phase: Phase,
    started_ms: u64,
    attempts: u64,
    now_ms: u64,
) -> (r: Stage)
    ensures
        r@ == waiting(os, phase, started_ms, attempts, now_ms),
{
    if now_ms >= started_ms && now_ms - started_ms >= WAIT_BUDGET_MS {
        stage_after_wait(os, phase)
    } else {
        let attempts = if attempts < u64::MAX {
            attempts + 1
        } else {
            attempts
        };
        Stage::Polling { phase, started_ms, attempts, probe: Probe::start(os) }
    }
}

impl Stopper {
    /// The terminator before anything has happened.
    pub fn start(os: OsKind) -> (r: Stopper)
        ensures
            r@ == StopperView::start(os),
            r@.consistent(),
    {
        let stage = match os {
            OsKind::Linux => Stage::Gathering {
                phase: Phase::Graceful,
                name: ProcessName::Chrome,
                pids: PidSet::new(),
            },
            _ => Stage::Requested { phase: Phase::Graceful, pids: PidSet::new() },
        };
        Stopper { os, stage }
    }

    /// What the driver is to do in this state, if the terminator is not
    /// done.
    pub fn action(&self) -> (r: Option<Action>)
        ensures
            match r {
                Some(action) => self@.action() == Some(action@),
                None => self@.action() is None,
            },
    {
        match &self.stage {
            Stage::Gathering { name, .. } => Some(Action::Run(find_command(name.as_str(), true))),
            Stage::Requested { phase, pids } => Some(
                Action::Run(stop_command(self.os, *phase, pids)),
            ),
            Stage::Polling { probe, .. } => probe_action(probe),
            Stage::Pausing { .. } => Some(Action::Sleep { millis: POLL_INTERVAL_MS }),
            Stage::Checking { probe } => probe_action(probe),
            Stage::Confirming { probe } => probe_action(probe),
            Stage::Finished(_) => None,
        }
    }

    /// Whether the terminator is done.
    pub fn is_finished(&self) -> (r: bool)
        ensures
            r == self@.outcome().is_some(),
    {
        match &self.stage {
            Stage::Finished(_) => true,
            _ => false,
        }
    }
}

/// Takes the terminator one step on, from the driver's answer to the action
/// that the terminator last asked for. `now_ms` is the driver's clock, in
/// milliseconds, at the time of the answer.
pub fn stop_chrome(stopper: Stopper, event: &Event, now_ms: u64) -> (r: Stopper)
    ensures
        r@ == stopper@.advance(event@, now_ms),
        stopper@.consistent() ==> r@.consistent(),
{
    let os = stopper.os;
    let stage = match stopper.stage {
        Stage::Gathering { phase, name, pids } => match event {
            Event::Exited(output) => match pgrep_pids(name.as_str(), output, pids) {
                Err(e) => Stage::Finished(Err(e)),
                Ok(found) => match name.next() {
                    Some(next) => Stage::Gathering { phase, name: next, pids: found },
                    None => if found.is_empty() {
                        match phase {
                            Phase::Graceful => Stage::Finished(Ok(())),
                            Phase::Forced => wait_for_process_stop(os, phase, now_ms, 0, now_ms),
                        }
                    } else {
                        Stage::Requested { phase, pids: found }
                    },
                },
            },
            Event::Failed(why) => Stage::Finished(Err(AppError::Io(why.clone()))),
            _ => Stage::Gathering { phase, name, pids },
        },
        Stage::Requested { phase, pids } => match event {
            Event::Exited(output) => match stop_requested(os, phase, &pids, output) {
                Ok(_) => wait_for_process_stop(os, phase, now_ms, 0, now_ms),
                Err(e) => Stage::Finished(Err(e)),
            },
            Event::Failed(why) => Stage::Finished(Err(AppError::Io(why.clone()))),
            _ => Stage::Requested { phase, pids },
        },
        Stage::Polling { phase, started_ms, attempts, probe } => match is_chrome_running(
            probe,
            event,
        ) {
            Probe::Asking(query) => Stage::Polling {
                phase,
                started_ms,
                attempts,
                probe: Probe::Asking(query),
            },
            Probe::Answered(Ok(true)) => Stage::Pausing { phase, started_ms, attempts },
            Probe::Answered(Ok(false)) => stage_after_wait(os, phase),
            Probe::Answered(Err(e)) => Stage::Finished(Err(e)),
        },
        Stage::Pausing { phase, started_ms, attempts } => match event {
            Event::Woke => wait_for_process_stop(os, phase, started_ms, attempts, now_ms),
            _ => Stage::Pausing { phase, started_ms, attempts },
        },
        Stage::Checking { probe } => match is_chrome_running(probe, event) {
            Probe::Asking(query) => Stage::Checking { probe: Probe::Asking(query) },
            Probe::Answered(Ok(true)) => Stage::Gathering {
                phase: Phase::Forced,
                name: ProcessName::Chrome,
                pids: PidSet::new(),
            },
            Probe::Answered(Ok(false)) => Stage::Confirming { probe: Probe::start(os) },
            Probe::Answered(Err(e)) => Stage::Finished(Err(e)),
        },
        Stage::Confirming { probe } => match is_chrome_running(probe, event) {
            Probe::Asking(query) => Stage::Confirming { probe: Probe::Asking(query) },
            Probe::Answered(Ok(true)) => Stage::Finished(Err(AppError::ChromeStillRunning)),
            Probe::Answered(Ok(false)) => Stage::Finished(Ok(())),
            Probe::Answered(Err(e)) => Stage::Finished(Err(e)),
        },
        Stage::Finished(outcome) => Stage::Finished(outcome),
    };
    Stopper { os, stage }
}


impl StageView {
    /// How far the terminator has come: the stages in the order in which a
    /// terminator passes through them.
    pub open spec fn rank(self) -> nat {
        match self {
            StageView::Gathering { phase: Phase::Graceful, .. } => 0,
            StageView::Requested { phase: Phase::Graceful, .. } => 1,
            StageView::Polling { phase: Phase::Graceful, .. } => 2,
            StageView::Pausing { phase: Phase::Graceful, .. } => 2,
            StageView::Checking { .. } => 3,
            StageView::Gathering { phase: Phase::Forced, .. } => 4,
            StageView::Requested { phase: Phase::Forced, .. } => 5,
            StageView::Polling { phase: Phase::Forced, .. } => 6,
            StageView::Pausing { phase: Phase::Forced, .. } => 6,
            StageView::Confirming { .. } => 7,
            StageView::Finished(_) => 8,
        }
    }

    /// Whether the stage belongs to the second, forced cycle.
    pub open spec fn escalated(self) -> bool {
        match self {
            StageView::Gathering { phase, .. } => phase == Phase::Forced,
            StageView::Requested { phase, .. } => phase == Phase::Forced,
            StageView::Polling { phase, .. } => phase == Phase::Forced,
            StageView::Pausing { phase, .. } => phase == Phase::Forced,
            _ => false,
        }
    }
}

impl StopperView {
    /// Whether what the terminator holds is of use: every check that it
    /// holds is still open, and on Linux a stop request has processes to go
    /// to. A check that has its answer is acted upon at once, and a request
    /// is issued only for a set that holds something, so every state that
    /// the terminator reaches is consistent.
    pub open spec fn consistent(self) -> bool {
        match self.stage {
            StageView::Requested { pids, .. } => self.os == OsKind::Linux ==> pids != Set::<
                i32,
            >::empty(),
            StageView::Polling { probe, .. } => probe is Asking,
            StageView::Checking { probe } => probe is Asking,
            StageView::Confirming { probe } => probe is Asking,
            _ => true,
        }
    }

    /// Whether the terminator keeps to the means of its operating system:
    /// away from Linux it gathers no identifiers, asks no check to decide on
    /// escalation, and is in no stage of the forced cycle.
    pub open spec fn within_platform(self) -> bool {
        self.os != OsKind::Linux ==> !(self.stage is Gathering) && !(self.stage is Checking)
            && !self.stage.escalated()
    }
}

/// The terminator starts in a consistent state.
pub proof fn lemma_stopper_starts_consistent(os: OsKind)
    ensures
        StopperView::start(os).consistent(),
{
}

/// The terminator stays in a consistent state, whatever the driver answers;
/// and while it is not done it has an action for its driver.
pub proof fn lemma_stopper_stays_consistent(stopper: StopperView, event: EventView, now_ms: u64)
    requires
        stopper.consistent(),
    ensures
        stopper.advance(event, now_ms).consistent(),
        stopper.outcome() is None <==> stopper.action() is Some,
{
}

/// No signal goes to nobody: where the terminator asks its driver to run
/// `kill`, the set of processes that it names is not empty.
pub proof fn lemma_signal_has_targets(stopper: StopperView)
    requires
        stopper.consistent(),
        stopper.os == OsKind::Linux,
        stopper.stage is Requested,
    ensures
        stopper.action() == Some(
            ActionView::Run(
                signal_command_view(
                    stopper.stage->Requested_phase.signal(),
                    stopper.stage->Requested_pids,
                ),
            ),
        ),
        stopper.stage->Requested_pids != Set::<i32>::empty(),
{
}

/// Escalation is for Linux alone: a terminator that starts on another
/// operating system never reaches the forced cycle, whatever the driver
/// answers.
pub proof fn lemma_escalation_only_on_linux(stopper: StopperView, event: EventView, now_ms: u64)
    requires
        stopper.within_platform(),
    ensures
        StopperView::start(stopper.os).within_platform(),
        stopper.advance(event, now_ms).within_platform(),
{
}

/// The terminator never goes back: no answer of the driver takes it to an
/// earlier stage, and the answer to a stop request takes it to a later one.
/// So each of the two stop requests is issued once at most, and the only
/// stages that the terminator stays in are the gathering, name by name, and
/// the two waits.
pub proof fn lemma_terminator_never_goes_back(stopper: StopperView, event: EventView, now_ms: u64)
    ensures
        stopper.advance(event, now_ms).stage.rank() >= stopper.stage.rank(),
        stopper.stage is Requested && (event is Exited || event is Failed) ==> stopper.advance(
            event,
            now_ms,
        ).stage.rank() > stopper.stage.rank(),
{
}

/// A wait asks for no further check once its budget is spent: from the sleep
/// between two checks the terminator goes on to another check exactly while
/// less than the budget has passed since the wait began.
pub proof fn lemma_wait_is_bounded(
    os: OsKind,
    phase: Phase,
    started_ms: u64,
    attempts: u64,
    now_ms: u64,
)
    ensures
        waiting(os, phase, started_ms, attempts, now_ms) is Polling <==> !budget_spent(
            started_ms,
            now_ms,
        ),
        budget_spent(started_ms, now_ms) <==> now_ms - started_ms >= 3000,
{
}

/// The terminator reports success only on evidence: it comes to a good end
/// only from the last check, when the monitor has just answered that the
/// browser does not run, or on Linux from the gathering of the graceful
/// phase, when no process of the browser was found.
pub proof fn lemma_success_needs_evidence(stopper: StopperView, event: EventView, now_ms: u64)
    requires
        stopper.outcome() is None,
        stopper.advance(event, now_ms).outcome() == Some(Ok::<(), ErrorView>(())),
    ensures
        match stopper.stage {
            StageView::Confirming { probe } => probe.advance(event) == ProbeView::Answered(
                Ok(false),
            ),
            StageView::Gathering { phase, name, pids } => {
                &&& phase == Phase::Graceful
                &&& event matches EventView::Exited(output)
                &&& gathered(name.text(), output, pids) == Ok::<Set<i32>, ErrorView>(Set::empty())
            },
            _ => false,
        },
{
}

/// The monitor answers "not running" only after every name has been looked
/// for and not found, or the listing did not name the browser's image.
pub proof fn lemma_not_running_needs_evidence(probe: ProbeView, event: EventView)
    requires
        probe is Asking,
        probe.advance(event) == ProbeView::Answered(Ok(false)),
    ensures
        match probe {
            ProbeView::Asking(Query::ByName(name)) => {
                &&& name.alias() is None
                &&& event matches EventView::Exited(output)
                &&& output.code == Some(1i32)
            },
            ProbeView::Asking(Query::ByImage) => {
                &&& event matches EventView::Exited(output)
                &&& output.succeeded()
                &&& !mentions(output.stdout, "chrome.exe"@)
            },
            _ => false,
        },
{
}

} // verus!
