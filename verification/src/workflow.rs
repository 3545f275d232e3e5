//! The run as a whole: find the preference store, make sure the browser does
//! not run, then patch the store or restore it from its backup.
//!
//! Like the controller of the browser's process, the run is a state machine
//! that a driver takes from step to step.

use vstd::prelude::*;
use crate::cli::Cli;
use crate::driver::{Action, ActionView, Event, EventView};
use crate::error::{AppError, AppResult, ErrorView};
use crate::lifecycle::{
    is_chrome_running, lemma_stopper_starts_consistent, lemma_stopper_stays_consistent,
    probe_action, run_of, stop_chrome, Probe, ProbeView, Stage, Stopper, StopperView,
};
use crate::patcher::{apply_patches, patch_outcome, PatchReport, PatchReportView};
use crate::platform::{
    chrome_state_path, current_os, join_path, os_named, path_below, path_variable,
    path_variable_name, state_file, OsKind,
};
use crate::text::{chars_of, followed_by};

verus! {

/// Where the components of a path begin: behind the separator that stands
/// for the root, or behind a `.` at the start that stands for the current
/// directory, or at the start.
pub open spec fn body_start(path: Seq<char>) -> int {
    if path.len() > 0 && path[0] == '/' {
        1
    } else if path.len() > 0 && path[0] == '.' && (path.len() == 1 || path[1] == '/') {
        1
    } else {
        0
    }
}

/// Where the last component of `path`, read from `from` up to `end`, ends:
/// the separators and the `.` components at the end are passed over. The
/// result is `from` where no component is left.
pub open spec fn component_end(path: Seq<char>, from: int, end: int) -> int
    decreases end - from,
{
    if end <= from {
        from
    } else if path[end - 1] == '/' {
        component_end(path, from, end - 1)
    } else if path[end - 1] == '.' && end - 1 == from {
        from
    } else if path[end - 1] == '.' && path[end - 2] == '/' {
        component_end(path, from, end - 2)
    } else {
        end
    }
}

/// Where the component of `path` begins that ends at `end`: behind the last
/// separator between `from` and `end`, or at `from` where there is none.
pub open spec fn component_start(path: Seq<char>, from: int, end: int) -> int
    decreases end - from,
{
    if end <= from {
        from
    } else if path[end - 1] == '/' {
        end
    } else {
        component_start(path, from, end - 1)
    }
}

/// The name that a path ends in, as the standard library reads a path whose
/// separator is `/`: separators and `.` components at the end are passed
/// over, and the component before them is the name. A path without
/// components has none, and neither has one whose last component is `..`.
pub open spec fn file_name(path: Seq<char>) -> Option<Seq<char>> {
    let from = body_start(path);
    let end = component_end(path, from, path.len() as int);
    let name = path.subrange(component_start(path, from, end), end);
    if end <= from || name == seq!['.', '.'] {
        None
    } else {
        Some(name)
    }
}

/// A path without the name that it ends in: what stands before that name,
/// up to the end of the component before it, or up to the root.
pub open spec fn parent(path: Seq<char>) -> Seq<char> {
    let from = body_start(path);
    let end = component_end(path, from, path.len() as int);
    let start = component_start(path, from, end);
    let cut = if start > from {
        start - 1
    } else {
        from
    };
    path.take(component_end(path, from, cut))
}

/// The path of the backup that belongs to a file: its sibling whose name has
/// `.bak` added. A path that ends in no name has none.
pub open spec fn backup_path(path: Seq<char>) -> Option<Seq<char>> {
    match file_name(path) {
        Some(name) => Some(path_below(parent(path), name + ".bak"@)),
        None => None,
    }
}

fn last_component_end(chars: &Vec<char>, from: usize, end: usize) -> (r: usize)
    requires
        from <= chars.len(),
        end <= chars.len(),
    ensures
        r == component_end(chars@, from as int, end as int),
        from <= r,
        r <= end || r == from,
{
    let mut e: usize = end;
    let mut found = false;
    while !found && e > from
        invariant
            from <= chars.len(),
            e <= end <= chars.len(),
            component_end(chars@, from as int, end as int) == component_end(
                chars@,
                from as int,
                e as int,
            ),
            found ==> e > from && component_end(chars@, from as int, e as int) == e,
        decreases (if found { 0int } else { 1int }), e,
    {
        if chars[e - 1] == '/' {
            e -= 1;
        } else if chars[e - 1] == '.' && e - 1 == from {
            e = from;
        } else if chars[e - 1] == '.' && chars[e - 2] == '/' {
            e -= 2;
        } else {
            found = true;
        }
    }
    if found {
        e
    } else {
        from
    }
}

fn last_component_start(chars: &Vec<char>, from: usize, end: usize) -> (r: usize)
    requires
        from <= end <= chars.len(),
    ensures
        r == component_start(chars@, from as int, end as int),
        from <= r <= end,
{
    let mut s: usize = end;
    while s > from && chars[s - 1] != '/'
        invariant
            from <= s <= end <= chars.len(),
            component_start(chars@, from as int, end as int) == component_start(
                chars@,
                from as int,
                s as int,
            ),
        decreases s,
    {
        s -= 1;
    }
    s
}

/// The path of the backup that belongs to a file: its sibling whose name has
/// `.bak` added. A path that ends in no name is an invalid path.
pub fn create_backup_path(chrome_state: &str) -> (r: AppResult<String>)
    ensures
        match r {
            Ok(backup) => backup_path(chrome_state@) == Some(backup@),
            Err(e) => backup_path(chrome_state@) is None && e@ == ErrorView::InvalidPath(
                chrome_state@,
            ),
        },
{
    let chars = chars_of(chrome_state);
    let length = chars.len();
    let from: usize = if length > 0 && chars[0] == '/' {
        1
    } else if length > 0 && chars[0] == '.' && (length == 1 || chars[1] == '/') {
        1
    } else {
        0
    };
    let end = last_component_end(&chars, from, length);
    if end <= from {
        return Err(AppError::InvalidPath(chrome_state.to_owned()));
    }
    let start = last_component_start(&chars, from, end);
    let ghost name = chrome_state@.subrange(start as int, end as int);
    let dots = end - start == 2 && chars[start] == '.' && chars[start + 1] == '.';
    proof {
        let two = seq!['.', '.'];
        assert(two.len() == 2 && two[0] == '.' && two[1] == '.');
        if dots {
            assert(name =~= two);
        } else if name.len() == 2 {
            assert(name[0] == chars@[start as int] && name[1] == chars@[start + 1]);
        }
    }
    if dots {
        return Err(AppError::InvalidPath(chrome_state.to_owned()));
    }
    let cut = if start > from {
        start - 1
    } else {
        from
    };
    let before = last_component_end(&chars, from, cut);
    assert(chrome_state@.subrange(0, before as int) =~= chrome_state@.take(before as int));
    let file = followed_by(chrome_state.substring_char(start, end), ".bak");
    Ok(join_path(chrome_state.substring_char(0, before), file.as_str()))
}

/// What is shown to the user after a patch: one line for each of the three
/// members, saying whether it was set, between an empty line and the closing
/// lines.
pub open spec fn report_text(report: PatchReportView) -> Seq<char> {
    "\n"@ + (if report.changed_is_glic {
        "✓ Enabled is_glic_eligible\n"@
    } else {
        "⚠️ is_glic_eligible field not found\n"@
    }) + (if report.changed_variations_country {
        "✓ Set variations_country = us\n"@
    } else {
        "⚠️ variations_country field not found\n"@
    }) + (if report.changed_variations_permanent_country {
        "✓ Set variations_permanent_consistency_country = us\n"@
    } else {
        "⚠️ variations_permanent_consistency_country field not found\n"@
    }) + "\n✅ Done, please restart Chrome\n"@
}

/// What is shown to the user after a patch.
pub fn print_patch_report(report: &PatchReport) -> (r: String)
    ensures
        r@ == report_text(report@),
{
    let mut text = "\n".to_owned();
    text.append(
        if report.changed_is_glic {
            "✓ Enabled is_glic_eligible\n"
        } else {
            "⚠️ is_glic_eligible field not found\n"
        },
    );
    text.append(
        if report.changed_variations_country {
            "✓ Set variations_country = us\n"
        } else {
            "⚠️ variations_country field not found\n"
        },
    );
    text.append(
        if report.changed_variations_permanent_country {
            "✓ Set variations_permanent_consistency_country = us\n"
        } else {
            "⚠️ variations_permanent_consistency_country field not found\n"
        },
    );
    text.append("\n✅ Done, please restart Chrome\n");
    text
}

/// Where the guard stands, which lets the run touch the preference store
/// only once the browser is gone.
#[derive(Debug)]
pub enum GuardStage {
    /// The first check of the monitor is under way.
    Checking { probe: Probe },
    /// The browser runs and the terminator is at work.
    Stopping { stopper: Stopper },
    /// The terminator reported success; one more check is under way.
    Rechecking { probe: Probe },
    /// The way is clear, or the run must end.
    Finished(AppResult<()>),
}

/// A [`GuardStage`] as a mathematical value.
pub enum GuardStageView {
    Checking { probe: ProbeView },
    Stopping { stopper: StopperView },
    Rechecking { probe: ProbeView },
    Finished(Result<(), ErrorView>),
}

impl View for GuardStage {
    type V = GuardStageView;

    open spec fn view(&self) -> GuardStageView {
        match self {
            GuardStage::Checking { probe } => GuardStageView::Checking { probe: probe@ },
            GuardStage::Stopping { stopper } => GuardStageView::Stopping { stopper: stopper@ },
            GuardStage::Rechecking { probe } => GuardStageView::Rechecking { probe: probe@ },
            GuardStage::Finished(Ok(_)) => GuardStageView::Finished(Ok(())),
            GuardStage::Finished(Err(e)) => GuardStageView::Finished(Err(e@)),
        }
    }
}

/// The guard: makes sure that the browser does not run, and stops it where
/// the user asked for that.
#[derive(Debug)]
pub struct Guard {
    /// The operating system whose means are used.
    pub os: OsKind,
    /// Whether a running browser is to be stopped.
    pub kill_chrome: bool,
    /// Where the guard stands.
    pub stage: GuardStage,
}

/// A [`Guard`] as a mathematical value.
pub struct GuardView {
    pub os: OsKind,
    pub kill_chrome: bool,
    pub stage: GuardStageView,
}

impl View for Guard {
    type V = GuardView;

    open spec fn view(&self) -> GuardView {
        GuardView { os: self.os, kill_chrome: self.kill_chrome, stage: self.stage@ }
    }
}

impl GuardView {
    /// The guard before anything has happened.
    pub open spec fn start(os: OsKind, kill_chrome: bool) -> GuardView {
        GuardView { os, kill_chrome, stage: GuardStageView::Checking { probe: ProbeView::start(os) } }
    }

    /// What the driver is to do in this state, if the guard is not done.
    pub open spec fn action(self) -> Option<ActionView> {
        match self.stage {
            GuardStageView::Checking { probe } => run_of(probe.command()),
            GuardStageView::Stopping { stopper } => stopper.action(),
            GuardStageView::Rechecking { probe } => run_of(probe.command()),
            GuardStageView::Finished(_) => None,
        }
    }

    /// The outcome, once the guard is done.
    pub open spec fn outcome(self) -> Option<Result<(), ErrorView>> {
        match self.stage {
            GuardStageView::Finished(outcome) => Some(outcome),
            _ => None,
        }
    }

    /// The guard after the driver's answer, which came in at `now_ms`. A
    /// browser that runs is stopped where the user asked for it, and is a
    /// failure where not; a browser that still runs after the terminator
    /// reported success is a failure too.
    pub open spec fn advance(self, event: EventView, now_ms: u64) -> GuardView {
        let stage = match self.stage {
            GuardStageView::Checking { probe } => match probe.advance(event) {
                ProbeView::Asking(query) => GuardStageView::Checking {
                    probe: ProbeView::Asking(query),
                },
                ProbeView::Answered(Ok(true)) => if self.kill_chrome {
                    GuardStageView::Stopping { stopper: StopperView::start(self.os) }
                } else {
                    GuardStageView::Finished(Err(ErrorView::ChromeRunning))
                },
                ProbeView::Answered(Ok(false)) => GuardStageView::Finished(Ok(())),
                ProbeView::Answered(Err(e)) => GuardStageView::Finished(Err(e)),
            },
            GuardStageView::Stopping { stopper } => {
                let next = stopper.advance(event, now_ms);
                match next.outcome() {
                    Some(Ok(_)) => GuardStageView::Rechecking { probe: ProbeView::start(self.os) },
                    Some(Err(e)) => GuardStageView::Finished(Err(e)),
                    None => GuardStageView::Stopping { stopper: next },
                }
            },
            GuardStageView::Rechecking { probe } => match probe.advance(event) {
                ProbeView::Asking(query) => GuardStageView::Rechecking {
                    probe: ProbeView::Asking(query),
                },
                ProbeView::Answered(Ok(true)) => GuardStageView::Finished(
                    Err(ErrorView::ChromeStillRunning),
                ),
                ProbeView::Answered(Ok(false)) => GuardStageView::Finished(Ok(())),
                ProbeView::Answered(Err(e)) => GuardStageView::Finished(Err(e)),
            },
            GuardStageView::Finished(_) => self.stage,
        };
        GuardView { os: self.os, kill_chrome: self.kill_chrome, stage }
    }
}

impl Guard {
    /// The guard before anything has happened.
    pub fn start(os: OsKind, kill_chrome: bool) -> (r: Guard)
        ensures
            r@ == GuardView::start(os, kill_chrome),
            r@.consistent(),
    {
        Guard { os, kill_chrome, stage: GuardStage::Checking { probe: Probe::start(os) } }
    }

    /// What the driver is to do in this state, if the guard is not done.
    pub fn action(&self) -> (r: Option<Action>)
        ensures
            match r {
                Some(action) => self@.action() == Some(action@),
                None => self@.action() is None,
            },
    {
        match &self.stage {
            GuardStage::Checking { probe } => probe_action(probe),
            GuardStage::Stopping { stopper } => stopper.action(),
            GuardStage::Rechecking { probe } => probe_action(probe),
            GuardStage::Finished(_) => None,
        }
    }

    /// Whether the guard is done.
    pub fn is_finished(&self) -> (r: bool)
        ensures
            r == self@.outcome().is_some(),
    {
        match &self.stage {
            GuardStage::Finished(_) => true,
            _ => false,
        }
    }
}

/// Takes the guard one step on, from the driver's answer to the action that
/// the guard last asked for. `now_ms` is the driver's clock, in milliseconds,
/// at the time of the answer.
pub fn ensure_chrome_not_running(guard: Guard, event: &Event, now_ms: u64) -> (r: Guard)
    ensures
        r@ == guard@.advance(event@, now_ms),
        guard@.consistent() ==> r@.consistent(),
{
    proof {
        if guard@.consistent() {
            lemma_guard_stays_consistent(guard@, event@, now_ms);
        }
    }
    let os = guard.os;
    let kill_chrome = guard.kill_chrome;
    let stage = match guard.stage {
        GuardStage::Checking { probe } => match is_chrome_running(probe, event) {
            Probe::Asking(query) => GuardStage::Checking { probe: Probe::Asking(query) },
            Probe::Answered(Ok(true)) => if kill_chrome {
                GuardStage::Stopping { stopper: Stopper::start(os) }
            } else {
                GuardStage::Finished(Err(AppError::ChromeRunning))
            },
            Probe::Answered(Ok(false)) => GuardStage::Finished(Ok(())),
            Probe::Answered(Err(e)) => GuardStage::Finished(Err(e)),
        },
        GuardStage::Stopping { stopper } => {
            let next = stop_chrome(stopper, event, now_ms);
            match next.stage {
                Stage::Finished(Ok(_)) => GuardStage::Rechecking {
                    probe: Probe::start(os),
                },
                Stage::Finished(Err(e)) => GuardStage::Finished(Err(e)),
                stage => GuardStage::Stopping { stopper: Stopper { os: next.os, stage } },
            }
        },
        GuardStage::Rechecking { probe } => match is_chrome_running(probe, event) {
            Probe::Asking(query) => GuardStage::Rechecking { probe: Probe::Asking(query) },
            Probe::Answered(Ok(true)) => GuardStage::Finished(Err(AppError::ChromeStillRunning)),
            Probe::Answered(Ok(false)) => GuardStage::Finished(Ok(())),
            Probe::Answered(Err(e)) => GuardStage::Finished(Err(e)),
        },
        GuardStage::Finished(outcome) => GuardStage::Finished(outcome),
    };
    Guard { os, kill_chrome, stage }
}


/// The two files that a run works on.
#[derive(Debug)]
pub struct Paths {
    /// The preference store.
    pub config: String,
    /// Its backup.
    pub backup: String,
}

/// [`Paths`] as a mathematical value.
pub struct PathsView {
    pub config: Seq<char>,
    pub backup: Seq<char>,
}

impl View for Paths {
    type V = PathsView;

    open spec fn view(&self) -> PathsView {
        PathsView { config: self.config@, backup: self.backup@ }
    }
}

/// Where the restoring of the preference store from its backup stands.
#[derive(Debug)]
pub enum Restore {
    /// The driver is finding out whether the backup exists.
    FindingBackup,
    /// The backup is being copied over the preference store.
    Copying,
    /// The user is being told.
    Announcing,
    /// Done.
    Finished(AppResult<()>),
}

/// A [`Restore`] as a mathematical value.
pub enum RestoreView {
    FindingBackup,
    Copying,
    Announcing,
    Finished(Result<(), ErrorView>),
}

impl View for Restore {
    type V = RestoreView;

    open spec fn view(&self) -> RestoreView {
        match self {
            Restore::FindingBackup => RestoreView::FindingBackup,
            Restore::Copying => RestoreView::Copying,
            Restore::Announcing => RestoreView::Announcing,
            Restore::Finished(Ok(_)) => RestoreView::Finished(Ok(())),
            Restore::Finished(Err(e)) => RestoreView::Finished(Err(e@)),
        }
    }
}

impl RestoreView {
    /// What the driver is to do in this state.
    pub open spec fn action(self, paths: PathsView) -> Option<ActionView> {
        match self {
            RestoreView::FindingBackup => Some(ActionView::CheckFile(paths.backup)),
            RestoreView::Copying => Some(
                ActionView::CopyFile { from: paths.backup, to: paths.config },
            ),
            RestoreView::Announcing => Some(
                ActionView::Print("✅ Restored from backup, please restart Chrome\n"@),
            ),
            RestoreView::Finished(_) => None,
        }
    }

    /// The state after the driver's answer. A backup that does not exist is
    /// a failure, and so is a copy that did not go through.
    pub open spec fn advance(self, paths: PathsView, event: EventView) -> RestoreView {
        match (self, event) {
            (RestoreView::Finished(_), _) => self,
            (RestoreView::FindingBackup, EventView::Exists(true)) => RestoreView::Copying,
            (RestoreView::FindingBackup, EventView::Exists(false)) => RestoreView::Finished(
                Err(ErrorView::BackupNotFound(paths.backup)),
            ),
            (RestoreView::Copying, EventView::Done) => RestoreView::Announcing,
            (RestoreView::Copying, EventView::Failed(_)) => RestoreView::Finished(
                Err(ErrorView::Io("Restore failed: "@ + paths.config)),
            ),
            (RestoreView::Announcing, EventView::Done) => RestoreView::Finished(Ok(())),
            (_, EventView::Failed(why)) => RestoreView::Finished(Err(ErrorView::Io(why))),
            _ => self,
        }
    }
}

impl Restore {
    /// What the driver is to do in this state.
    pub fn action(&self, paths: &Paths) -> (r: Option<Action>)
        ensures
            match r {
                Some(action) => self@.action(paths@) == Some(action@),
                None => self@.action(paths@) is None,
            },
    {
        match self {
            Restore::FindingBackup => Some(Action::CheckFile(paths.backup.clone())),
            Restore::Copying => Some(
                Action::CopyFile { from: paths.backup.clone(), to: paths.config.clone() },
            ),
            Restore::Announcing => Some(
                Action::Print("✅ Restored from backup, please restart Chrome\n".to_owned()),
            ),
            Restore::Finished(_) => None,
        }
    }
}

/// Takes the restoring of the preference store one step on, from the
/// driver's answer to the action last asked for.
pub fn restore_from_backup(restore: Restore, paths: &Paths, event: &Event) -> (r: Restore)
    ensures
        r@ == restore@.advance(paths@, event@),
{
    match restore {
        Restore::Finished(outcome) => Restore::Finished(outcome),
        Restore::FindingBackup => match event {
            Event::Exists(true) => Restore::Copying,
            Event::Exists(false) => Restore::Finished(
                Err(AppError::BackupNotFound(paths.backup.clone())),
            ),
            Event::Failed(why) => Restore::Finished(Err(AppError::Io(why.clone()))),
            _ => Restore::FindingBackup,
        },
        Restore::Copying => match event {
            Event::Done => Restore::Announcing,
            Event::Failed(_) => Restore::Finished(
                Err(AppError::Io(followed_by("Restore failed: ", paths.config.as_str()))),
            ),
            _ => Restore::Copying,
        },
        Restore::Announcing => match event {
            Event::Done => Restore::Finished(Ok(())),
            Event::Failed(why) => Restore::Finished(Err(AppError::Io(why.clone()))),
            _ => Restore::Announcing,
        },
    }
}

/// Where the patching of the preference store stands.
#[derive(Debug)]
pub enum Patching {
    /// The driver is finding out whether the preference store exists.
    FindingConfig,
    /// The preference store is being copied to its backup.
    BackingUp,
    /// The preference store is being read.
    Reading,
    /// The patch is made and the user is being told what it did.
    Reporting { report: PatchReport },
    /// The patched text is being written.
    Writing { content: String },
    /// Done.
    Finished(AppResult<()>),
}

/// A [`Patching`] as a mathematical value.
pub enum PatchingView {
    FindingConfig,
    BackingUp,
    Reading,
    Reporting { report: PatchReportView },
    Writing { content: Seq<char> },
    Finished(Result<(), ErrorView>),
}

impl View for Patching {
    type V = PatchingView;

    open spec fn view(&self) -> PatchingView {
        match self {
            Patching::FindingConfig => PatchingView::FindingConfig,
            Patching::BackingUp => PatchingView::BackingUp,
            Patching::Reading => PatchingView::Reading,
            Patching::Reporting { report } => PatchingView::Reporting { report: report@ },
            Patching::Writing { content } => PatchingView::Writing { content: content@ },
            Patching::Finished(Ok(_)) => PatchingView::Finished(Ok(())),
            Patching::Finished(Err(e)) => PatchingView::Finished(Err(e@)),
        }
    }
}

impl PatchingView {
    /// What the driver is to do in this state.
    pub open spec fn action(self, paths: PathsView) -> Option<ActionView> {
        match self {
            PatchingView::FindingConfig => Some(ActionView::CheckFile(paths.config)),
            PatchingView::BackingUp => Some(
                ActionView::CopyFile { from: paths.config, to: paths.backup },
            ),
            PatchingView::Reading => Some(ActionView::ReadFile(paths.config)),
            PatchingView::Reporting { report } => Some(ActionView::Print(report_text(report))),
            PatchingView::Writing { content } => Some(
                ActionView::WriteFile { path: paths.config, content },
            ),
            PatchingView::Finished(_) => None,
        }
    }

    /// The state after the text of the preference store has come in: the
    /// patch is made, and a text that cannot be patched is a failure.
    pub open spec fn after_reading(content: Seq<char>) -> PatchingView {
        match patch_outcome(content) {
            Ok(report) => PatchingView::Reporting { report },
            Err(why) => PatchingView::Finished(Err(ErrorView::InvalidJson(why))),
        }
    }

    /// The state after the driver's answer. A preference store that does not
    /// exist is a failure; the backup is made before the store is read, and
    /// the store is written only after the user has been told what the patch
    /// did.
    pub open spec fn advance(self, paths: PathsView, event: EventView) -> PatchingView {
        match (self, event) {
            (PatchingView::Finished(_), _) => self,
            (PatchingView::FindingConfig, EventView::Exists(true)) => PatchingView::BackingUp,
            (PatchingView::FindingConfig, EventView::Exists(false)) => PatchingView::Finished(
                Err(ErrorView::ConfigNotFound(paths.config)),
            ),
            (PatchingView::BackingUp, EventView::Done) => PatchingView::Reading,
            (PatchingView::BackingUp, EventView::Failed(_)) => PatchingView::Finished(
                Err(ErrorView::Io("Backup failed: "@ + paths.backup)),
            ),
            (PatchingView::Reading, EventView::Text(content)) => PatchingView::after_reading(
                content,
            ),
            (PatchingView::Reading, EventView::Failed(_)) => PatchingView::Finished(
                Err(ErrorView::Io("Read failed: "@ + paths.config)),
            ),
            (PatchingView::Reporting { report }, EventView::Done) => PatchingView::Writing {
                content: report.content,
            },
            (PatchingView::Writing { .. }, EventView::Done) => PatchingView::Finished(Ok(())),
            (PatchingView::Writing { .. }, EventView::Failed(_)) => PatchingView::Finished(
                Err(ErrorView::Io("Write failed: "@ + paths.config)),
            ),
            (_, EventView::Failed(why)) => PatchingView::Finished(Err(ErrorView::Io(why))),
            _ => self,
        }
    }
}

impl Patching {
    /// What the driver is to do in this state.
    pub fn action(&self, paths: &Paths) -> (r: Option<Action>)
        ensures
            match r {
                Some(action) => self@.action(paths@) == Some(action@),
                None => self@.action(paths@) is None,
            },
    {
        match self {
            Patching::FindingConfig => Some(Action::CheckFile(paths.config.clone())),
            Patching::BackingUp => Some(
                Action::CopyFile { from: paths.config.clone(), to: paths.backup.clone() },
            ),
            Patching::Reading => Some(Action::ReadFile(paths.config.clone())),
            Patching::Reporting { report } => Some(Action::Print(print_patch_report(report))),
            Patching::Writing { content } => Some(
                Action::WriteFile { path: paths.config.clone(), content: content.clone() },
            ),
            Patching::Finished(_) => None,
        }
    }
}

/// Takes the patching of the preference store one step on, from the
/// driver's answer to the action last asked for.
pub fn apply_patches_workflow(patching: Patching, paths: &Paths, event: &Event) -> (r: Patching)
    ensures
        r@ == patching@.advance(paths@, event@),
{
    match patching {
        Patching::Finished(outcome) => Patching::Finished(outcome),
        Patching::FindingConfig => match event {
            Event::Exists(true) => Patching::BackingUp,
            Event::Exists(false) => Patching::Finished(
                Err(AppError::ConfigNotFound(paths.config.clone())),
            ),
            Event::Failed(why) => Patching::Finished(Err(AppError::Io(why.clone()))),
            _ => Patching::FindingConfig,
        },
        Patching::BackingUp => match event {
            Event::Done => Patching::Reading,
            Event::Failed(_) => Patching::Finished(
                Err(AppError::Io(followed_by("Backup failed: ", paths.backup.as_str()))),
            ),
            _ => Patching::BackingUp,
        },
        Patching::Reading => match event {
            Event::Text(content) => match apply_patches(content.as_str()) {
                Ok(report) => Patching::Reporting { report },
                Err(e) => Patching::Finished(Err(e)),
            },
            Event::Failed(_) => Patching::Finished(
                Err(AppError::Io(followed_by("Read failed: ", paths.config.as_str()))),
            ),
            _ => Patching::Reading,
        },
        Patching::Reporting { report } => match event {
            Event::Done => Patching::Writing { content: report.content },
            Event::Failed(why) => Patching::Finished(Err(AppError::Io(why.clone()))),
            _ => Patching::Reporting { report },
        },
        Patching::Writing { content } => match event {
            Event::Done => Patching::Finished(Ok(())),
            Event::Failed(_) => Patching::Finished(
                Err(AppError::Io(followed_by("Write failed: ", paths.config.as_str()))),
            ),
            _ => Patching::Writing { content },
        },
    }
}


/// What a run is busy with once it knows its files.
#[derive(Debug)]
pub enum Task {
    /// Making sure that the browser does not run.
    Guarding(Guard),
    /// Restoring the preference store from its backup.
    Restoring(Restore),
    /// Patching the preference store.
    Patching(Patching),
}

/// A [`Task`] as a mathematical value.
pub enum TaskView {
    Guarding(GuardView),
    Restoring(RestoreView),
    Patching(PatchingView),
}

impl View for Task {
    type V = TaskView;

    open spec fn view(&self) -> TaskView {
        match self {
            Task::Guarding(guard) => TaskView::Guarding(guard@),
            Task::Restoring(restore) => TaskView::Restoring(restore@),
            Task::Patching(patching) => TaskView::Patching(patching@),
        }
    }
}

/// One run of the tool.
#[derive(Debug)]
pub enum Run {
    /// The directory under which the preference store lies is being asked
    /// for.
    Locating { cli: Cli, os: OsKind },
    /// The files are known and the run is at work.
    Working { cli: Cli, paths: Paths, task: Task },
    /// The run is over.
    Finished(AppResult<()>),
}

/// A [`Run`] as a mathematical value.
pub enum RunView {
    Locating { cli: Cli, os: OsKind },
    Working { cli: Cli, paths: PathsView, task: TaskView },
    Finished(Result<(), ErrorView>),
}

impl View for Run {
    type V = RunView;

    open spec fn view(&self) -> RunView {
        match self {
            Run::Locating { cli, os } => RunView::Locating { cli: *cli, os: *os },
            Run::Working { cli, paths, task } => RunView::Working {
                cli: *cli,
                paths: paths@,
                task: task@,
            },
            Run::Finished(Ok(_)) => RunView::Finished(Ok(())),
            Run::Finished(Err(e)) => RunView::Finished(Err(e@)),
        }
    }
}

impl RunView {
    /// The run before anything has happened, on the operating system that
    /// gives itself the name `os_name`. An operating system that is not
    /// supported ends the run at once.
    pub open spec fn start(cli: Cli, os_name: Seq<char>) -> RunView {
        match os_named(os_name) {
            Some(os) => RunView::Locating { cli, os },
            None => RunView::Finished(Err(ErrorView::UnsupportedOs(os_name))),
        }
    }

    /// The run once the value of the base directory's variable has come in.
    /// A variable that is not set ends the run, and so does a preference
    /// store whose path has no backup path.
    pub open spec fn located(cli: Cli, os: OsKind, base: Option<Seq<char>>) -> RunView {
        match base {
            None => RunView::Finished(Err(ErrorView::MissingEnv(path_variable_name(os)))),
            Some(dir) => {
                let config = path_below(dir, state_file(os));
                match backup_path(config) {
                    Some(backup) => RunView::Working {
                        cli,
                        paths: PathsView { config, backup },
                        task: TaskView::Guarding(GuardView::start(os, cli.kill_chrome)),
                    },
                    None => RunView::Finished(Err(ErrorView::InvalidPath(config))),
                }
            },
        }
    }

    /// What the driver is to do in this state, if the run is not over.
    pub open spec fn action(self) -> Option<ActionView> {
        match self {
            RunView::Locating { os, .. } => Some(ActionView::ReadVariable(path_variable_name(os))),
            RunView::Working { paths, task, .. } => match task {
                TaskView::Guarding(guard) => guard.action(),
                TaskView::Restoring(restore) => restore.action(paths),
                TaskView::Patching(patching) => patching.action(paths),
            },
            RunView::Finished(_) => None,
        }
    }

    /// The outcome, once the run is over.
    pub open spec fn outcome(self) -> Option<Result<(), ErrorView>> {
        match self {
            RunView::Finished(outcome) => Some(outcome),
            _ => None,
        }
    }

    /// The run after the driver's answer, which came in at `now_ms`. The
    /// files are touched only once the guard has let the run pass; then the preference
    /// store is restored where the user asked for that, and patched where
    /// not.
    pub open spec fn advance(self, event: EventView, now_ms: u64) -> RunView {
        match self {
            RunView::Locating { cli, os } => match event {
                EventView::Variable(base) => RunView::located(cli, os, base),
                EventView::Failed(why) => RunView::Finished(Err(ErrorView::Io(why))),
                _ => self,
            },
            RunView::Working { cli, paths, task } => match task {
                TaskView::Guarding(guard) => {
                    let next = guard.advance(event, now_ms);
                    match next.outcome() {
                        Some(Ok(_)) => RunView::Working {
                            cli,
                            paths,
                            task: if cli.restore {
                                TaskView::Restoring(RestoreView::FindingBackup)
                            } else {
                                TaskView::Patching(PatchingView::FindingConfig)
                            },
                        },
                        Some(Err(e)) => RunView::Finished(Err(e)),
                        None => RunView::Working { cli, paths, task: TaskView::Guarding(next) },
                    }
                },
                TaskView::Restoring(restore) => match restore.advance(paths, event) {
                    RestoreView::Finished(outcome) => RunView::Finished(outcome),
                    next => RunView::Working { cli, paths, task: TaskView::Restoring(next) },
                },
                TaskView::Patching(patching) => match patching.advance(paths, event) {
                    PatchingView::Finished(outcome) => RunView::Finished(outcome),
                    next => RunView::Working { cli, paths, task: TaskView::Patching(next) },
                },
            },
            RunView::Finished(_) => self,
        }
    }
}

impl Run {
    /// The run before anything has happened, on the operating system that
    /// gives itself the name `os_name`.
    pub fn start(cli: Cli, os_name: &str) -> (r: Run)
        ensures
            r@ == RunView::start(cli, os_name@),
            r@.consistent(),
    {
        match current_os(os_name) {
            Ok(os) => Run::Locating { cli, os },
            Err(e) => Run::Finished(Err(e)),
        }
    }

    /// What the driver is to do in this state, if the run is not over.
    pub fn action(&self) -> (r: Option<Action>)
        ensures
            match r {
                Some(action) => self@.action() == Some(action@),
                None => self@.action() is None,
            },
    {
        match self {
            Run::Locating { os, .. } => Some(Action::ReadVariable(path_variable(*os).to_owned())),
            Run::Working { paths, task, .. } => match task {
                Task::Guarding(guard) => guard.action(),
                Task::Restoring(restore) => restore.action(paths),
                Task::Patching(patching) => patching.action(paths),
            },
            Run::Finished(_) => None,
        }
    }

    /// Whether the run is over.
    pub fn is_finished(&self) -> (r: bool)
        ensures
            r == self@.outcome().is_some(),
    {
        match self {
            Run::Finished(_) => true,
            _ => false,
        }
    }
}

fn locate(cli: Cli, os: OsKind, base: &Option<String>) -> (r: Run)
    ensures
        r@ == RunView::located(
            cli,
            os,
            match base {
                Some(dir) => Some(dir@),
                None => None,
            },
        ),
{
    let dir = match base {
        Some(dir) => Some(dir.as_str()),
        None => None,
    };
    let config = match chrome_state_path(os, dir) {
        Ok(config) => config,
        Err(e) => {
            return Run::Finished(Err(e));
        },
    };
    match create_backup_path(config.as_str()) {
        Ok(backup) => Run::Working {
            cli,
            paths: Paths { config, backup },
            task: Task::Guarding(Guard::start(os, cli.kill_chrome)),
        },
        Err(e) => Run::Finished(Err(e)),
    }
}

/// Takes the run one step on, from the driver's answer to the action that
/// the run last asked for. `now_ms` is the driver's clock, in milliseconds,
/// at the time of the answer.
pub fn run(state: Run, event: &Event, now_ms: u64) -> (r: Run)
    ensures
        r@ == state@.advance(event@, now_ms),
        state@.consistent() ==> r@.consistent(),
{
    proof {
        if state@.consistent() {
            lemma_run_stays_consistent(state@, event@, now_ms);
        }
    }
    match state {
        Run::Locating { cli, os } => match event {
            Event::Variable(base) => locate(cli, os, base),
            Event::Failed(why) => Run::Finished(Err(AppError::Io(why.clone()))),
            _ => Run::Locating { cli, os },
        },
        Run::Working { cli, paths, task } => match task {
            Task::Guarding(guard) => {
                let next = ensure_chrome_not_running(guard, event, now_ms);
                match next.stage {
                    GuardStage::Finished(Ok(_)) => Run::Working {
                        cli,
                        paths,
                        task: if cli.restore {
                            Task::Restoring(Restore::FindingBackup)
                        } else {
                            Task::Patching(Patching::FindingConfig)
                        },
                    },
                    GuardStage::Finished(Err(e)) => Run::Finished(Err(e)),
                    stage => Run::Working {
                        cli,
                        paths,
                        task: Task::Guarding(
                            Guard { os: next.os, kill_chrome: next.kill_chrome, stage },
                        ),
                    },
                }
            },
            Task::Restoring(restore) => match restore_from_backup(restore, &paths, event) {
                Restore::Finished(outcome) => Run::Finished(outcome),
                next => Run::Working { cli, paths, task: Task::Restoring(next) },
            },
            Task::Patching(patching) => match apply_patches_workflow(patching, &paths, event) {
                Patching::Finished(outcome) => Run::Finished(outcome),
                next => Run::Working { cli, paths, task: Task::Patching(next) },
            },
        },
        Run::Finished(outcome) => Run::Finished(outcome),
    }
}


impl GuardView {
    /// Whether what the guard holds is still under way: a check that has
    /// its answer, and a terminator that is done, are acted upon at once, so
    /// no state that the guard reaches holds one.
    pub open spec fn consistent(self) -> bool {
        match self.stage {
            GuardStageView::Checking { probe } => probe is Asking,
            GuardStageView::Stopping { stopper } => stopper.os == self.os && stopper.consistent()
                && stopper.outcome() is None,
            GuardStageView::Rechecking { probe } => probe is Asking,
            GuardStageView::Finished(_) => true,
        }
    }

    /// The check whose answer the guard awaits, where it awaits one.
    pub open spec fn probe(self) -> Option<ProbeView> {
        match self.stage {
            GuardStageView::Checking { probe } => Some(probe),
            GuardStageView::Rechecking { probe } => Some(probe),
            _ => None,
        }
    }
}

/// The guard starts in a consistent state.
pub proof fn lemma_guard_starts_consistent(os: OsKind, kill_chrome: bool)
    ensures
        GuardView::start(os, kill_chrome).consistent(),
{
}

/// The guard stays in a consistent state, whatever the driver answers; and
/// while it is not done it has an action for its driver.
pub proof fn lemma_guard_stays_consistent(guard: GuardView, event: EventView, now_ms: u64)
    requires
        guard.consistent(),
    ensures
        guard.advance(event, now_ms).consistent(),
        guard.outcome() is None <==> guard.action() is Some,
{
    lemma_stopper_starts_consistent(guard.os);
    match guard.stage {
        GuardStageView::Stopping { stopper } => {
            lemma_stopper_stays_consistent(stopper, event, now_ms);
        },
        _ => {},
    }
}

/// The guard lets the run pass only on evidence: it comes to a good end
/// only when the monitor has just answered that the browser does not run.
pub proof fn lemma_guard_passes_on_evidence(guard: GuardView, event: EventView, now_ms: u64)
    requires
        guard.consistent(),
        guard.outcome() is None,
        guard.advance(event, now_ms).outcome() == Some(Ok::<(), ErrorView>(())),
    ensures
        guard.probe() matches Some(probe) && probe.advance(event) == ProbeView::Answered(
            Ok(false),
        ),
{
}

/// A browser that runs is never stopped unasked: without the user's word
/// the guard never sets the terminator to work.
pub proof fn lemma_guard_stops_only_when_asked(guard: GuardView, event: EventView, now_ms: u64)
    requires
        !guard.kill_chrome,
        !(guard.stage is Stopping),
    ensures
        !(guard.advance(event, now_ms).stage is Stopping),
        GuardView::start(guard.os, false).stage is Checking,
{
}

impl RunView {
    /// Whether what the run holds is still under way: no state that the run
    /// reaches holds a guard, a restoring or a patching that is done.
    pub open spec fn consistent(self) -> bool {
        match self {
            RunView::Working { cli, task, .. } => match task {
                TaskView::Guarding(guard) => guard.consistent() && guard.outcome() is None
                    && guard.kill_chrome == cli.kill_chrome,
                TaskView::Restoring(restore) => !(restore is Finished) && cli.restore,
                TaskView::Patching(patching) => !(patching is Finished) && !cli.restore,
            },
            _ => true,
        }
    }

    /// Whether the run is at work on its files.
    pub open spec fn touches_files(self) -> bool {
        self matches RunView::Working { task, .. } && !(task is Guarding)
    }
}

/// The run starts in a consistent state.
pub proof fn lemma_run_starts_consistent(cli: Cli, os_name: Seq<char>)
    ensures
        RunView::start(cli, os_name).consistent(),
{
}

/// The run stays in a consistent state, whatever the driver answers; and
/// while it is not over it has an action for its driver.
pub proof fn lemma_run_stays_consistent(run: RunView, event: EventView, now_ms: u64)
    requires
        run.consistent(),
    ensures
        run.advance(event, now_ms).consistent(),
        run.outcome() is None <==> run.action() is Some,
{
    match run {
        RunView::Working { task: TaskView::Guarding(guard), .. } => {
            lemma_guard_stays_consistent(guard, event, now_ms);
        },
        RunView::Locating { cli, os } => {
            lemma_guard_starts_consistent(os, cli.kill_chrome);
            lemma_guard_stays_consistent(GuardView::start(os, cli.kill_chrome), event, now_ms);
        },
        _ => {},
    }
}

/// The files are touched only once the browser is gone: a run goes over to
/// its files only from the guard, and only when the monitor has just
/// answered that the browser does not run.
pub proof fn lemma_files_wait_for_the_browser(run: RunView, event: EventView, now_ms: u64)
    requires
        run.consistent(),
        !run.touches_files(),
        run.advance(event, now_ms).touches_files(),
    ensures
        run matches RunView::Working { task: TaskView::Guarding(guard), .. } && guard.probe()
            matches Some(probe) && probe.advance(event) == ProbeView::Answered(Ok(false)),
        run.action() matches Some(ActionView::Run(_)),
{
    match run {
        RunView::Working { task: TaskView::Guarding(guard), .. } => {
            lemma_guard_passes_on_evidence(guard, event, now_ms);
        },
        _ => {},
    }
}

/// Before a run goes over to its files it asks its driver for nothing but
/// the base directory's variable, commands and sleeps: no file is read,
/// written or copied while the guard stands.
pub proof fn lemma_no_file_action_before_guard_passes(run: RunView)
    requires
        run.consistent(),
        !run.touches_files(),
    ensures
        match run.action() {
            Some(ActionView::ReadVariable(_)) => true,
            Some(ActionView::Run(_)) => true,
            Some(ActionView::Sleep { .. }) => true,
            Some(_) => false,
            None => true,
        },
{
}

impl PatchingView {
    /// How far the patching has come: its states in the order in which it
    /// passes through them.
    pub open spec fn rank(self) -> nat {
        match self {
            PatchingView::FindingConfig => 0,
            PatchingView::BackingUp => 1,
            PatchingView::Reading => 2,
            PatchingView::Reporting { .. } => 3,
            PatchingView::Writing { .. } => 4,
            PatchingView::Finished(_) => 5,
        }
    }
}

/// The patching takes its steps in order and leaves none out: an answer of
/// the driver leaves it where it is, takes it to the next state, or ends it.
/// So the backup is made before the preference store is read, and the store
/// is written only after the patch has been made and reported; and what is
/// written is the text of the report.
pub proof fn lemma_patching_in_order(patching: PatchingView, paths: PathsView, event: EventView)
    ensures
        ({
            let next = patching.advance(paths, event);
            next.rank() == patching.rank() || next.rank() == patching.rank() + 1
                || next is Finished
        }),
        patching.advance(paths, event) matches PatchingView::Writing { content } ==> ({
            ||| patching == PatchingView::Writing { content }
            ||| (patching matches PatchingView::Reporting { report } && report.content == content)
        }),
        patching.advance(paths, event) matches PatchingView::Reporting { report } ==> ({
            ||| patching == PatchingView::Reporting { report }
            ||| {
                &&& patching is Reading
                &&& event matches EventView::Text(text)
                &&& patch_outcome(text) == Ok::<PatchReportView, Seq<char>>(report)
            }
        }),
{
}

} // verus!
