//! One run of a script, as a sequence of decisions.
//!
//! A run reads its script, launches an interpreter on it and reports how the
//! script ended. Reading a file, starting and closing an embedded interpreter,
//! running statements in it and spawning an external interpreter are the
//! caller's work. What to do next is decided here: [`begin`] gives the first
//! [`Action`], and [`step`] takes what came of the last action, as an
//! [`Event`], and gives the next one, until it gives [`Action::Report`].
//!
//! The script is read before anything is launched. An embedded interpreter is
//! initialised once, runs the setup script if search-path entries are listed
//! and then the payload, and is finalised once, whether the payload succeeded
//! or not. The setup script's own result is not looked at: the payload's
//! result is the run's. An external interpreter is spawned once, on the setup
//! script followed by the payload. Nothing is retried.

use vstd::prelude::*;
use vstd::string::StringExecFns;
use crate::outcome::{ExecutionResult, ExecutionResultView, ReportView, RunError};
use crate::search_path::{setup_script, setup_text, OrderPolicy};

verus! {

/// Where the script comes from.
#[derive(Debug, PartialEq, Eq)]
pub enum ScriptSource {
    /// The script itself.
    Literal(String),
    /// The path of a file that holds the script.
    File(String),
}

/// Where the script runs.
#[derive(Clone, Copy, Debug, PartialEq, Eq)]
pub enum Backend {
    /// In an interpreter inside this process.
    Embedded,
    /// In an interpreter started as a process of its own.
    Process,
}

/// What one run is to do.
#[derive(Debug, PartialEq, Eq)]
pub struct RunConfig {
    pub source: ScriptSource,
    /// Directories to put ahead of the interpreter's own search locations.
    pub search_paths: Vec<String>,
    /// What the listed order of `search_paths` means.
    pub policy: OrderPolicy,
    pub backend: Backend,
}

/// How far a run has come.
#[derive(Debug, PartialEq, Eq)]
pub enum Phase {
    /// The script file is being read.
    Reading,
    /// The embedded interpreter is being initialised.
    Starting { payload: String },
    /// The setup script is running in the embedded interpreter.
    Preparing { payload: String },
    /// The payload is running.
    Running,
    /// The embedded interpreter is being finalised.
    Closing { result: ExecutionResult },
    /// The run has reported.
    Finished,
}

/// What came of the last action.
#[derive(Debug, PartialEq, Eq)]
pub enum Event {
    /// The script file was read; this is its text.
    SourceRead(String),
    /// The script file is missing or cannot be read.
    SourceUnreadable,
    /// The embedded interpreter is initialised.
    Initialized,
    /// The script that was handed out has ended, with this result.
    Completed(ExecutionResult),
    /// The external interpreter could not be launched.
    SpawnFailed,
    /// The embedded interpreter is finalised.
    Finalized,
}

/// What the caller is to do next.
#[derive(Debug, PartialEq, Eq)]
pub enum Action {
    /// Read the file at this path as text.
    ReadFile(String),
    /// Initialise the embedded interpreter.
    Initialize,
    /// Run these statements in the embedded interpreter.
    RunScript(String),
    /// Start an external interpreter on this script and wait for it.
    Spawn(String),
    /// Finalise the embedded interpreter.
    Finalize,
    /// The run is over; this is what it reports.
    Report(Result<ExecutionResult, RunError>),
    /// The event was not awaited; there is nothing to do.
    Ignore,
}

/// The mathematical value of a [`ScriptSource`].
pub enum SourceView {
    Literal(Seq<char>),
    File(Seq<char>),
}

/// The mathematical value of a [`RunConfig`].
pub struct ConfigView {
    pub source: SourceView,
    pub search_paths: Seq<Seq<char>>,
    pub policy: OrderPolicy,
    pub backend: Backend,
}

/// The mathematical value of a [`Phase`].
pub enum PhaseView {
    Reading,
    Starting { payload: Seq<char> },
    Preparing { payload: Seq<char> },
    Running,
    Closing { result: ExecutionResultView },
    Finished,
}

/// The mathematical value of an [`Event`].
pub enum EventView {
    SourceRead(Seq<char>),
    SourceUnreadable,
    Initialized,
    Completed(ExecutionResultView),
    SpawnFailed,
    Finalized,
}

/// The mathematical value of an [`Action`].
pub enum ActionView {
    ReadFile(Seq<char>),
    Initialize,
    RunScript(Seq<char>),
    Spawn(Seq<char>),
    Finalize,
    Report(ReportView),
    Ignore,
}

impl View for ScriptSource {
    type V = SourceView;

    open spec fn view(&self) -> SourceView {
        match self {
            ScriptSource::Literal(text) => SourceView::Literal(text@),
            ScriptSource::File(path) => SourceView::File(path@),
        }
    }
}

impl View for RunConfig {
    type V = ConfigView;

    open spec fn view(&self) -> ConfigView {
        ConfigView {
            source: self.source@,
            search_paths: self.search_paths.deep_view(),
            policy: self.policy,
            backend: self.backend,
        }
    }
}

impl View for Phase {
    type V = PhaseView;

    open spec fn view(&self) -> PhaseView {
        match self {
            Phase::Reading => PhaseView::Reading,
            Phase::Starting { payload } => PhaseView::Starting { payload: payload@ },
            Phase::Preparing { payload } => PhaseView::Preparing { payload: payload@ },
            Phase::Running => PhaseView::Running,
            Phase::Closing { result } => PhaseView::Closing { result: result@ },
            Phase::Finished => PhaseView::Finished,
        }
    }
}

impl View for Event {
    type V = EventView;

    open spec fn view(&self) -> EventView {
        match self {
            Event::SourceRead(text) => EventView::SourceRead(text@),
            Event::SourceUnreadable => EventView::SourceUnreadable,
            Event::Initialized => EventView::Initialized,
            Event::Completed(result) => EventView::Completed(result@),
            Event::SpawnFailed => EventView::SpawnFailed,
            Event::Finalized => EventView::Finalized,
        }
    }
}

impl View for Action {
    type V = ActionView;

    open spec fn view(&self) -> ActionView {
        match self {
            Action::ReadFile(path) => ActionView::ReadFile(path@),
            Action::Initialize => ActionView::Initialize,
            Action::RunScript(code) => ActionView::RunScript(code@),
            Action::Spawn(script) => ActionView::Spawn(script@),
            Action::Finalize => ActionView::Finalize,
            Action::Report(Ok(result)) => ActionView::Report(Ok(result@)),
            Action::Report(Err(error)) => ActionView::Report(Err(*error)),
            Action::Ignore => ActionView::Ignore,
        }
    }
}

/// The script that an external interpreter is started on: the payload, after
/// the setup script if search-path entries are listed.
pub open spec fn process_script(config: ConfigView, payload: Seq<char>) -> Seq<char> {
    if config.search_paths.len() == 0 {
        payload
    } else {
        setup_text(config.search_paths, config.policy) + payload
    }
}

/// What a run does once it has its script.
pub open spec fn launch_spec(config: ConfigView, payload: Seq<char>) -> (PhaseView, ActionView) {
    match config.backend {
        Backend::Embedded => (PhaseView::Starting { payload }, ActionView::Initialize),
        Backend::Process => (PhaseView::Running, ActionView::Spawn(process_script(config, payload))),
    }
}

/// What a run does first.
pub open spec fn begin_spec(config: ConfigView) -> (PhaseView, ActionView) {
    match config.source {
        SourceView::Literal(text) => launch_spec(config, text),
        SourceView::File(path) => (PhaseView::Reading, ActionView::ReadFile(path)),
    }
}

/// What a run in `phase` does when `event` comes in.
pub open spec fn step_spec(config: ConfigView, phase: PhaseView, event: EventView) -> (
    PhaseView,
    ActionView,
) {
    match (phase, event) {
        (PhaseView::Reading, EventView::SourceRead(text)) => launch_spec(config, text),
        (PhaseView::Reading, EventView::SourceUnreadable) => (
            PhaseView::Finished,
            ActionView::Report(Err(RunError::IOError)),
        ),
        (PhaseView::Starting { payload }, EventView::Initialized) => {
            if config.search_paths.len() == 0 {
                (PhaseView::Running, ActionView::RunScript(payload))
            } else {
                (
                    PhaseView::Preparing { payload },
                    ActionView::RunScript(setup_text(config.search_paths, config.policy)),
                )
            }
        },
        (PhaseView::Preparing { payload }, EventView::Completed(_)) => (
            PhaseView::Running,
            ActionView::RunScript(payload),
        ),
        (PhaseView::Running, EventView::Completed(result)) => match config.backend {
            Backend::Embedded => (PhaseView::Closing { result }, ActionView::Finalize),
            Backend::Process => (PhaseView::Finished, ActionView::Report(Ok(result))),
        },
        (PhaseView::Running, EventView::SpawnFailed) => match config.backend {
            Backend::Embedded => (phase, ActionView::Ignore),
            Backend::Process => (
                PhaseView::Finished,
                ActionView::Report(Err(RunError::ProcessSpawnError)),
            ),
        },
        (PhaseView::Closing { result }, EventView::Finalized) => (
            PhaseView::Finished,
            ActionView::Report(Ok(result)),
        ),
        _ => (phase, ActionView::Ignore),
    }
}

fn launch(config: &RunConfig, payload: String) -> (next: (Phase, Action))
    ensures
        (next.0@, next.1@) == launch_spec(config@, payload@),
{
    match config.backend {
        Backend::Embedded => (Phase::Starting { payload }, Action::Initialize),
        Backend::Process => {
            if config.search_paths.len() == 0 {
                (Phase::Running, Action::Spawn(payload))
            } else {
                let mut script = setup_script(&config.search_paths, config.policy);
                script.append(payload.as_str());
                (Phase::Running, Action::Spawn(script))
            }
        },
    }
}

/// Starts a run: says what to do first, and the phase the run is in while
/// that is being done.
pub fn begin(config: &RunConfig) -> (next: (Phase, Action))
    ensures
        (next.0@, next.1@) == begin_spec(config@),
{
    match &config.source {
        ScriptSource::Literal(text) => launch(config, text.clone()),
        ScriptSource::File(path) => (Phase::Reading, Action::ReadFile(path.clone())),
    }
}

/// Takes what came of the last action and says what to do next, and the phase
/// the run is in while that is being done. An event that the phase does not
/// await changes nothing and is answered with [`Action::Ignore`].
pub fn step(config: &RunConfig, phase: Phase, event: Event) -> (next: (Phase, Action))
    ensures
        (next.0@, next.1@) == step_spec(config@, phase@, event@),
{
    match (phase, event) {
        (Phase::Reading, Event::SourceRead(text)) => launch(config, text),
        (Phase::Reading, Event::SourceUnreadable) => (
            Phase::Finished,
            Action::Report(Err(RunError::IOError)),
        ),
        (Phase::Starting { payload }, Event::Initialized) => {
            if config.search_paths.len() == 0 {
                (Phase::Running, Action::RunScript(payload))
            } else {
                let setup = setup_script(&config.search_paths, config.policy);
                (Phase::Preparing { payload }, Action::RunScript(setup))
            }
        },
        (Phase::Preparing { payload }, Event::Completed(_)) => (
            Phase::Running,
            Action::RunScript(payload),
        ),
        (Phase::Running, Event::Completed(result)) => match config.backend {
            Backend::Embedded => (Phase::Closing { result }, Action::Finalize),
            Backend::Process => (Phase::Finished, Action::Report(Ok(result))),
        },
        (Phase::Running, Event::SpawnFailed) => match config.backend {
            Backend::Embedded => (Phase::Running, Action::Ignore),
            Backend::Process => (Phase::Finished, Action::Report(Err(RunError::ProcessSpawnError))),
        },
        (Phase::Closing { result }, Event::Finalized) => (
            Phase::Finished,
            Action::Report(Ok(result)),
        ),
        (phase, _) => (phase, Action::Ignore),
    }
}

} // verus!
