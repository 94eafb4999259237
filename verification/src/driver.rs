//! The driver of one run. The host performs the action that the driver
//! asks for and reports what came of it; the driver decides what follows.
//! A run walks through its stages in one fixed order and never goes back;
//! every failure ends it.

use vstd::prelude::*;
use vstd::string::*;
use crate::bundle::{BundleView, CapabilityBundle};
use crate::error::{diagnostic_line, ErrorKind, RunError, RunErrorView};

verus! {

/// The exit status of a run that completed.
pub const EXIT_SUCCESS: i32 = 0;

/// The exit status of a run that was aborted.
pub const EXIT_FAILURE: i32 = 1;

/// Where a run stands.
#[derive(Clone, Copy, Debug, PartialEq, Eq, Structural)]
pub enum Stage {
    /// The engine instance is being constructed.
    Init,
    /// The bootstrap script is being evaluated.
    Bootstrap,
    /// The entry module and its dependencies are being resolved and loaded.
    Load,
    /// The evaluation of the loaded module is being scheduled.
    Evaluate,
    /// The event loop is running the pending work.
    Drain,
    /// The result of the evaluation is being awaited.
    Finish,
    /// The run ended well.
    Completed,
    /// The run ended with a failure.
    Aborted,
}

/// A loaded module: the specifier it was resolved to, and the handle that
/// the engine gave it.
#[derive(Debug, PartialEq, Eq)]
pub struct ModuleReference {
    pub specifier: String,
    pub id: usize,
}

/// The mathematical value of a [`ModuleReference`].
pub struct ModuleReferenceView {
    pub specifier: Seq<char>,
    pub id: usize,
}

impl View for ModuleReference {
    type V = ModuleReferenceView;

    open spec fn view(&self) -> ModuleReferenceView {
        ModuleReferenceView { specifier: self.specifier@, id: self.id }
    }
}

/// What the host reports after it has performed an action.
#[derive(Debug, PartialEq, Eq)]
pub enum Event {
    /// The engine instance stands, with the bundle and the loader installed.
    EngineCreated,
    /// The bootstrap script ran to its end.
    BootstrapEvaluated,
    /// The entry module and all it imports are loaded.
    ModuleLoaded(ModuleReference),
    /// The module's evaluation is on the engine's task queue.
    EvaluationScheduled,
    /// The event loop has no more work to do.
    LoopDrained,
    /// The module's evaluation resolved.
    EvaluationSucceeded,
    /// The action failed.
    Failed(RunError),
}

/// The mathematical value of an [`Event`].
pub enum EventView {
    EngineCreated,
    BootstrapEvaluated,
    ModuleLoaded(ModuleReferenceView),
    EvaluationScheduled,
    LoopDrained,
    EvaluationSucceeded,
    Failed(RunErrorView),
}

impl View for Event {
    type V = EventView;

    open spec fn view(&self) -> EventView {
        match self {
            Event::EngineCreated => EventView::EngineCreated,
            Event::BootstrapEvaluated => EventView::BootstrapEvaluated,
            Event::ModuleLoaded(m) => EventView::ModuleLoaded(m@),
            Event::EvaluationScheduled => EventView::EvaluationScheduled,
            Event::LoopDrained => EventView::LoopDrained,
            Event::EvaluationSucceeded => EventView::EvaluationSucceeded,
            Event::Failed(e) => EventView::Failed(e@),
        }
    }
}

/// What the driver asks the host to do.
#[derive(Debug, PartialEq, Eq)]
pub enum Action {
    /// Construct the engine instance with the driver's bundle and a loader
    /// that reads modules from the local file system.
    CreateEngine,
    /// Evaluate the bootstrap script, to its end.
    RunBootstrap,
    /// Resolve the path to a module specifier and load the module with all
    /// it imports.
    LoadModule { path: String },
    /// Schedule the evaluation of the loaded module.
    Evaluate { module: usize },
    /// Run the event loop until no work is pending.
    RunEventLoop { wait_for_child_resources: bool },
    /// Await the result of the scheduled evaluation.
    AwaitEvaluation,
    /// End the run silently with this status.
    Exit { status: i32 },
    /// Write the line to the error stream and end the run with this status.
    Report { line: String, status: i32 },
}

/// The mathematical value of an [`Action`].
pub enum ActionView {
    CreateEngine,
    RunBootstrap,
    LoadModule { path: Seq<char> },
    Evaluate { module: usize },
    RunEventLoop { wait_for_child_resources: bool },
    AwaitEvaluation,
    Exit { status: i32 },
    Report { line: Seq<char>, status: i32 },
}

impl View for Action {
    type V = ActionView;

    open spec fn view(&self) -> ActionView {
        match self {
            Action::CreateEngine => ActionView::CreateEngine,
            Action::RunBootstrap => ActionView::RunBootstrap,
            Action::LoadModule { path } => ActionView::LoadModule { path: path@ },
            Action::Evaluate { module } => ActionView::Evaluate { module: *module },
            Action::RunEventLoop { wait_for_child_resources } => ActionView::RunEventLoop {
                wait_for_child_resources: *wait_for_child_resources,
            },
            Action::AwaitEvaluation => ActionView::AwaitEvaluation,
            Action::Exit { status } => ActionView::Exit { status: *status },
            Action::Report { line, status } => ActionView::Report { line: line@, status: *status },
        }
    }
}

/// A stage together with what the run has gathered by then: the loaded
/// module from `Evaluate` on, the failure in `Aborted`.
#[derive(Debug, PartialEq, Eq)]
pub enum Progress {
    Init,
    Bootstrap,
    Load,
    Evaluate(ModuleReference),
    Drain(ModuleReference),
    Finish(ModuleReference),
    Completed(ModuleReference),
    Aborted(RunError),
}

/// The mathematical value of a [`Progress`].
pub enum ProgressView {
    Init,
    Bootstrap,
    Load,
    Evaluate(ModuleReferenceView),
    Drain(ModuleReferenceView),
    Finish(ModuleReferenceView),
    Completed(ModuleReferenceView),
    Aborted(RunErrorView),
}

impl View for Progress {
    type V = ProgressView;

    open spec fn view(&self) -> ProgressView {
        match self {
            Progress::Init => ProgressView::Init,
            Progress::Bootstrap => ProgressView::Bootstrap,
            Progress::Load => ProgressView::Load,
            Progress::Evaluate(m) => ProgressView::Evaluate(m@),
            Progress::Drain(m) => ProgressView::Drain(m@),
            Progress::Finish(m) => ProgressView::Finish(m@),
            Progress::Completed(m) => ProgressView::Completed(m@),
            Progress::Aborted(e) => ProgressView::Aborted(e@),
        }
    }
}

/// The stage of a progress.
pub open spec fn stage_of(p: ProgressView) -> Stage {
    match p {
        ProgressView::Init => Stage::Init,
        ProgressView::Bootstrap => Stage::Bootstrap,
        ProgressView::Load => Stage::Load,
        ProgressView::Evaluate(_) => Stage::Evaluate,
        ProgressView::Drain(_) => Stage::Drain,
        ProgressView::Finish(_) => Stage::Finish,
        ProgressView::Completed(_) => Stage::Completed,
        ProgressView::Aborted(_) => Stage::Aborted,
    }
}

/// A run that has reached one of these stages is over.
pub open spec fn is_terminal(stage: Stage) -> bool {
    stage == Stage::Completed || stage == Stage::Aborted
}

/// The failure that ends a run when the host reports something that does
/// not answer the action it was asked to perform.
pub open spec fn unexpected_event() -> RunErrorView {
    RunErrorView {
        kind: ErrorKind::Configuration,
        message: "event does not answer the pending action"@,
    }
}

/// Where a run stands after the host has reported `event`.
///
/// A finished run stays as it is. Otherwise a failure aborts the run and is
/// kept as reported; the one event that answers the pending action moves
/// the run to the next stage; any other event aborts it.
pub open spec fn next_progress(p: ProgressView, event: EventView) -> ProgressView {
    match (p, event) {
        (ProgressView::Completed(_), _) => p,
        (ProgressView::Aborted(_), _) => p,
        (_, EventView::Failed(e)) => ProgressView::Aborted(e),
        (ProgressView::Init, EventView::EngineCreated) => ProgressView::Bootstrap,
        (ProgressView::Bootstrap, EventView::BootstrapEvaluated) => ProgressView::Load,
        (ProgressView::Load, EventView::ModuleLoaded(m)) => ProgressView::Evaluate(m),
        (ProgressView::Evaluate(m), EventView::EvaluationScheduled) => ProgressView::Drain(m),
        (ProgressView::Drain(m), EventView::LoopDrained) => ProgressView::Finish(m),
        (ProgressView::Finish(m), EventView::EvaluationSucceeded) => ProgressView::Completed(m),
        _ => ProgressView::Aborted(unexpected_event()),
    }
}

/// What the host is to do for a run of `entry` that stands at `p`.
///
/// The event loop is never asked to wait for child resources that the
/// entry module left unsettled. A completed run exits silently with status
/// zero; an aborted one reports its failure in one line and exits with a
/// status that is not zero.
pub open spec fn pending_action(entry: Seq<char>, p: ProgressView) -> ActionView {
    match p {
        ProgressView::Init => ActionView::CreateEngine,
        ProgressView::Bootstrap => ActionView::RunBootstrap,
        ProgressView::Load => ActionView::LoadModule { path: entry },
        ProgressView::Evaluate(m) => ActionView::Evaluate { module: m.id },
        ProgressView::Drain(_) => ActionView::RunEventLoop { wait_for_child_resources: false },
        ProgressView::Finish(_) => ActionView::AwaitEvaluation,
        ProgressView::Completed(_) => ActionView::Exit { status: EXIT_SUCCESS },
        ProgressView::Aborted(e) => ActionView::Report {
            line: diagnostic_line(e),
            status: EXIT_FAILURE,
        },
    }
}

/// The driver of one run: the bundle it installs, the path of the entry
/// module, and where the run stands.
#[derive(Debug)]
pub struct Driver {
    bundle: CapabilityBundle,
    entry: String,
    progress: Progress,
}

/// The mathematical value of a [`Driver`].
pub struct DriverView {
    pub bundle: BundleView,
    pub entry: Seq<char>,
    pub progress: ProgressView,
}

impl View for Driver {
    type V = DriverView;

    closed spec fn view(&self) -> DriverView {
        DriverView { bundle: self.bundle@, entry: self.entry@, progress: self.progress@ }
    }
}

/// The driver after the host has reported `event`: the bundle and the entry
/// path stay, the progress moves.
pub open spec fn step_spec(d: DriverView, event: EventView) -> DriverView {
    DriverView { bundle: d.bundle, entry: d.entry, progress: next_progress(d.progress, event) }
}

impl Driver {
    /// A run of the module at `entry` that has not begun: it stands at
    /// `Init`, with the bundle that the engine is to be given.
    pub fn new(bundle: CapabilityBundle, entry: String) -> (d: Driver)
        ensures
            d@ == (DriverView { bundle: bundle@, entry: entry@, progress: ProgressView::Init }),
    {
        Driver { bundle, entry, progress: Progress::Init }
    }

    /// The stage at which the run stands.
    pub fn stage(&self) -> (s: Stage)
        ensures
            s == stage_of(self@.progress),
    {
        match &self.progress {
            Progress::Init => Stage::Init,
            Progress::Bootstrap => Stage::Bootstrap,
            Progress::Load => Stage::Load,
            Progress::Evaluate(_) => Stage::Evaluate,
            Progress::Drain(_) => Stage::Drain,
            Progress::Finish(_) => Stage::Finish,
            Progress::Completed(_) => Stage::Completed,
            Progress::Aborted(_) => Stage::Aborted,
        }
    }

    /// Whether the run is over.
    pub fn is_finished(&self) -> (b: bool)
        ensures
            b == is_terminal(stage_of(self@.progress)),
    {
        match &self.progress {
            Progress::Completed(_) => true,
            Progress::Aborted(_) => true,
            _ => false,
        }
    }

    /// The bundle that the engine instance is constructed with.
    pub fn bundle(&self) -> (b: &CapabilityBundle)
        ensures
            b@ == self@.bundle,
    {
        &self.bundle
    }

    /// The path of the entry module, as the caller gave it.
    pub fn entry(&self) -> (path: &str)
        ensures
            path@ == self@.entry,
    {
        self.entry.as_str()
    }

    /// Where the run stands, with the module or the failure it holds.
    pub fn progress(&self) -> (p: &Progress)
        ensures
            p@ == self@.progress,
    {
        &self.progress
    }

    /// What the host is to do now.
    pub fn action(&self) -> (a: Action)
        ensures
            a@ == pending_action(self@.entry, self@.progress),
    {
        match &self.progress {
            Progress::Init => Action::CreateEngine,
            Progress::Bootstrap => Action::RunBootstrap,
            Progress::Load => Action::LoadModule { path: self.entry.clone() },
            Progress::Evaluate(m) => Action::Evaluate { module: m.id },
            Progress::Drain(_) => Action::RunEventLoop { wait_for_child_resources: false },
            Progress::Finish(_) => Action::AwaitEvaluation,
            Progress::Completed(_) => Action::Exit { status: EXIT_SUCCESS },
            Progress::Aborted(e) => Action::Report { line: e.diagnostic(), status: EXIT_FAILURE },
        }
    }

    /// Takes in what the host reports of the action it performed, and
    /// gives the driver as it stands then together with the next action.
    pub fn step(self, event: Event) -> (next: (Driver, Action))
        ensures
            next.0@ == step_spec(self@, event@),
            next.1@ == pending_action(next.0@.entry, next.0@.progress),
    {
        let Driver { bundle, entry, progress } = self;
        let progress = match (progress, event) {
            (Progress::Completed(m), _) => Progress::Completed(m),
            (Progress::Aborted(e), _) => Progress::Aborted(e),
            (_, Event::Failed(e)) => Progress::Aborted(e),
            (Progress::Init, Event::EngineCreated) => Progress::Bootstrap,
            (Progress::Bootstrap, Event::BootstrapEvaluated) => Progress::Load,
            (Progress::Load, Event::ModuleLoaded(m)) => Progress::Evaluate(m),
            (Progress::Evaluate(m), Event::EvaluationScheduled) => Progress::Drain(m),
            (Progress::Drain(m), Event::LoopDrained) => Progress::Finish(m),
            (Progress::Finish(m), Event::EvaluationSucceeded) => Progress::Completed(m),
            _ => Progress::Aborted(
                RunError::configuration(
                    String::from_str("event does not answer the pending action"),
                ),
            ),
        };
        let driver = Driver { bundle, entry, progress };
        let action = driver.action();
        (driver, action)
    }
}

} // verus!
