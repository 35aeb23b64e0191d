//! The pipeline controller: a state machine over the three stages. The
//! caller performs what the controller asks for and reports what happened;
//! the controller decides what comes next, and halts at the first failure.

use vstd::prelude::*;
use crate::arguments::{domain_args, report_args};
use crate::config::text_view;
use crate::orchestrator::{AgentOrchestrator, OrchestratorView, call_of};
use crate::stage::{AgentResult, CallView, ResultView, Stage, StageCall};

verus! {

/// How far a stage has come.
#[derive(Debug, Clone, Copy, PartialEq, Eq, Structural)]
pub enum StageState {
    Pending,
    Running,
    Succeeded,
    Failed,
}

/// Why a run ended early.
#[derive(Debug, Clone, PartialEq, Eq)]
pub enum PipelineError {
    /// A working directory could not be created.
    Io { path: String, message: String },
    /// A stage's process could not be started.
    Launch { stage: Stage, message: String },
    /// A stage ran out of time and was terminated.
    Timeout { stage: Stage },
    /// A stage exited with a status other than zero.
    StageFailed { stage: Stage, error: String },
}

pub enum ErrorView {
    Io { path: Seq<char>, message: Seq<char> },
    Launch { stage: Stage, message: Seq<char> },
    Timeout { stage: Stage },
    StageFailed { stage: Stage, error: Seq<char> },
}

impl View for PipelineError {
    type V = ErrorView;

    open spec fn view(&self) -> ErrorView {
        match *self {
            PipelineError::Io { path, message } => ErrorView::Io { path: path@, message: message@ },
            PipelineError::Launch { stage, message } => ErrorView::Launch {
                stage,
                message: message@,
            },
            PipelineError::Timeout { stage } => ErrorView::Timeout { stage },
            PipelineError::StageFailed { stage, error } => ErrorView::StageFailed {
                stage,
                error: error@,
            },
        }
    }
}

/// What the caller reports back to the controller.
#[derive(Debug, Clone, PartialEq, Eq)]
pub enum Event {
    /// The working directories exist.
    DirectoriesReady,
    /// A working directory could not be created.
    DirectoryFailed { path: String, message: String },
    /// The stage's process ran to its end.
    Exited(AgentResult),
    /// The stage's time ran out, and its process was terminated.
    TimedOut,
    /// The stage's process could not be started.
    LaunchFailed { message: String },
}

pub enum EventView {
    DirectoriesReady,
    DirectoryFailed { path: Seq<char>, message: Seq<char> },
    Exited(ResultView),
    TimedOut,
    LaunchFailed { message: Seq<char> },
}

impl View for Event {
    type V = EventView;

    open spec fn view(&self) -> EventView {
        match *self {
            Event::DirectoriesReady => EventView::DirectoriesReady,
            Event::DirectoryFailed { path, message } => EventView::DirectoryFailed {
                path: path@,
                message: message@,
            },
            Event::Exited(result) => EventView::Exited(result@),
            Event::TimedOut => EventView::TimedOut,
            Event::LaunchFailed { message } => EventView::LaunchFailed { message: message@ },
        }
    }
}

/// What the controller asks the caller to do.
#[derive(Debug, Clone, PartialEq, Eq)]
pub enum Action {
    /// Create the two working directories, unless they exist.
    EnsureDirectories { data_dir: String, output_dir: String },
    /// Show the status line, if there is one, and start the stage.
    Invoke(StageCall),
    /// Nothing more is to be done. The progress display is cleared where
    /// there is one and the whole run succeeded.
    Finish { clear_progress: bool },
}

pub enum ActionView {
    EnsureDirectories { data_dir: Seq<char>, output_dir: Seq<char> },
    Invoke(CallView),
    Finish { clear_progress: bool },
}

impl View for Action {
    type V = ActionView;

    open spec fn view(&self) -> ActionView {
        match *self {
            Action::EnsureDirectories { data_dir, output_dir } => ActionView::EnsureDirectories {
                data_dir: data_dir@,
                output_dir: output_dir@,
            },
            Action::Invoke(call) => ActionView::Invoke(call@),
            Action::Finish { clear_progress } => ActionView::Finish { clear_progress },
        }
    }
}

/// The state of a run as mathematical values.
pub struct PipelineView {
    pub use_mock: Option<bool>,
    pub project_id: Option<Seq<char>>,
    /// Whether the working directories are known to exist.
    pub prepared: bool,
    pub collect: StageState,
    pub explain: StageState,
    pub report: StageState,
    /// The results of the stages that ran to their end, in their order.
    pub results: Seq<ResultView>,
    pub failure: Option<ErrorView>,
}

/// The state before anything has been done.
pub open spec fn initial(use_mock: Option<bool>, project_id: Option<Seq<char>>) -> PipelineView {
    PipelineView {
        use_mock,
        project_id,
        prepared: false,
        collect: StageState::Pending,
        explain: StageState::Pending,
        report: StageState::Pending,
        results: Seq::empty(),
        failure: None,
    }
}

impl PipelineView {
    pub open spec fn state(self, stage: Stage) -> StageState {
        match stage {
            Stage::Collect => self.collect,
            Stage::Explain => self.explain,
            Stage::Report => self.report,
        }
    }

    /// Whether the run is over: it failed, or its last stage succeeded.
    pub open spec fn finished(self) -> bool {
        self.failure is Some || self.report == StageState::Succeeded
    }

    /// Whether every stage has succeeded.
    pub open spec fn succeeded(self) -> bool {
        self.failure is None && self.report == StageState::Succeeded
    }

    /// The stage whose end is awaited.
    pub open spec fn current(self) -> Stage {
        if self.collect == StageState::Running {
            Stage::Collect
        } else if self.explain == StageState::Running {
            Stage::Explain
        } else {
            Stage::Report
        }
    }

    pub open spec fn with_state(self, stage: Stage, state: StageState) -> PipelineView {
        match stage {
            Stage::Collect => PipelineView { collect: state, ..self },
            Stage::Explain => PipelineView { explain: state, ..self },
            Stage::Report => PipelineView { report: state, ..self },
        }
    }

    /// The state after `stage` has succeeded: the stage behind it, if
    /// there is one, is running.
    pub open spec fn passed(self, stage: Stage) -> PipelineView {
        match stage {
            Stage::Collect => PipelineView {
                collect: StageState::Succeeded,
                explain: StageState::Running,
                ..self
            },
            Stage::Explain => PipelineView {
                explain: StageState::Succeeded,
                report: StageState::Running,
                ..self
            },
            Stage::Report => PipelineView { report: StageState::Succeeded, ..self },
        }
    }

    /// The state after `stage` has failed for the reason `error`.
    pub open spec fn halted(self, stage: Stage, error: ErrorView) -> PipelineView {
        PipelineView { failure: Some(error), ..self.with_state(stage, StageState::Failed) }
    }

    /// The state after the caller has reported `event`. A run that is over
    /// stays as it is, and so does a run to which the event does not apply.
    pub open spec fn after(self, event: EventView) -> PipelineView {
        if self.finished() {
            self
        } else if !self.prepared {
            match event {
                EventView::DirectoriesReady => PipelineView {
                    prepared: true,
                    collect: StageState::Running,
                    ..self
                },
                EventView::DirectoryFailed { path, message } => PipelineView {
                    failure: Some(ErrorView::Io { path, message }),
                    ..self
                },
                _ => self,
            }
        } else {
            let stage = self.current();
            match event {
                EventView::Exited(result) => {
                    let recorded = PipelineView { results: self.results.push(result), ..self };
                    if result.success {
                        recorded.passed(stage)
                    } else {
                        recorded.halted(stage, ErrorView::StageFailed { stage, error: result.error })
                    }
                },
                EventView::TimedOut => self.halted(stage, ErrorView::Timeout { stage }),
                EventView::LaunchFailed { message } => self.halted(
                    stage,
                    ErrorView::Launch { stage, message },
                ),
                _ => self,
            }
        }
    }

    /// The state after the caller has reported `events`, one after the other.
    pub open spec fn after_all(self, events: Seq<EventView>) -> PipelineView
        decreases events.len(),
    {
        if events.len() == 0 {
            self
        } else {
            self.after(events[0]).after_all(events.drop_first())
        }
    }
}

/// What a stage that runs alone comes to. A stage that ran to its end
/// hands its result to the caller, whatever its exit status; a stage that
/// ran out of time or could not be started fails, and so does a stage in
/// whose place something else was reported.
pub open spec fn stage_outcome(stage: Stage, event: EventView) -> Result<ResultView, ErrorView> {
    match event {
        EventView::Exited(result) => Ok(result),
        EventView::TimedOut => Err(ErrorView::Timeout { stage }),
        EventView::LaunchFailed { message } => Err(ErrorView::Launch { stage, message }),
        EventView::DirectoryFailed { path, message } => Err(ErrorView::Io { path, message }),
        EventView::DirectoriesReady => Err(
            ErrorView::Launch { stage, message: "the stage was not started"@ },
        ),
    }
}

/// What the controller asks for in the state `s`. The collector and the
/// explainer get the parameters of the run; the reporter gets none and
/// works on the configured directories.
pub open spec fn action_for(o: OrchestratorView, s: PipelineView) -> ActionView {
    if s.failure is Some {
        ActionView::Finish { clear_progress: false }
    } else if !s.prepared {
        ActionView::EnsureDirectories {
            data_dir: o.config.data_dir,
            output_dir: o.config.output_dir,
        }
    } else if s.collect == StageState::Running {
        ActionView::Invoke(
            call_of(o, Stage::Collect, domain_args(o.config, s.use_mock, s.project_id)),
        )
    } else if s.explain == StageState::Running {
        ActionView::Invoke(
            call_of(o, Stage::Explain, domain_args(o.config, s.use_mock, s.project_id)),
        )
    } else if s.report == StageState::Running {
        ActionView::Invoke(call_of(o, Stage::Report, report_args(o.config, None, None, None)))
    } else {
        ActionView::Finish { clear_progress: o.progress }
    }
}

/// The views of the results that a vector holds.
pub open spec fn result_views(results: Vec<AgentResult>) -> Seq<ResultView> {
    Seq::new(results@.len(), |i: int| results@[i]@)
}

/// The view of an optional error.
pub open spec fn failure_view(failure: Option<PipelineError>) -> Option<ErrorView> {
    match failure {
        Some(e) => Some(e@),
        None => None,
    }
}

/// One run of the pipeline.
#[derive(Debug)]
pub struct Pipeline {
    use_mock: Option<bool>,
    project_id: Option<String>,
    prepared: bool,
    collect: StageState,
    explain: StageState,
    report: StageState,
    results: Vec<AgentResult>,
    failure: Option<PipelineError>,
}

impl View for Pipeline {
    type V = PipelineView;

    closed spec fn view(&self) -> PipelineView {
        PipelineView {
            use_mock: self.use_mock,
            project_id: text_view(self.project_id),
            prepared: self.prepared,
            collect: self.collect,
            explain: self.explain,
            report: self.report,
            results: result_views(self.results),
            failure: failure_view(self.failure),
        }
    }
}

/// What a run has come to: the results of the stages that ran to their
/// end, and the reason why the run ended early, if it did.
#[derive(Debug, Clone, PartialEq, Eq)]
pub struct PipelineOutcome {
    pub results: Vec<AgentResult>,
    pub failure: Option<PipelineError>,
}

impl PipelineOutcome {
    /// Whether the whole run succeeded.
    pub fn succeeded(&self) -> (r: bool)
        ensures
            r == (self.failure is None),
    {
        self.failure.is_none()
    }
}

/// What a stage that ran alone comes to, given what the caller reports
/// of it.
pub fn stage_result(stage: Stage, event: Event) -> (r: Result<AgentResult, PipelineError>)
    ensures
        match stage_outcome(stage, event@) {
            Ok(result) => r matches Ok(a) && a@ == result,
            Err(error) => r matches Err(e) && e@ == error,
        },
{
    match event {
        Event::Exited(result) => Ok(result),
        Event::TimedOut => Err(PipelineError::Timeout { stage }),
        Event::LaunchFailed { message } => Err(PipelineError::Launch { stage, message }),
        Event::DirectoryFailed { path, message } => Err(PipelineError::Io { path, message }),
        Event::DirectoriesReady => Err(
            PipelineError::Launch { stage, message: "the stage was not started".to_owned() },
        ),
    }
}

/// A copy of an optional text.
fn copy_text(text: &Option<String>) -> (r: Option<String>)
    ensures
        text_view(r) == text_view(*text),
{
    match text {
        Some(t) => Some(t.clone()),
        None => None,
    }
}

impl Pipeline {
    pub fn state(&self, stage: Stage) -> (r: StageState)
        ensures
            r == self@.state(stage),
    {
        match stage {
            Stage::Collect => self.collect,
            Stage::Explain => self.explain,
            Stage::Report => self.report,
        }
    }

    /// Whether the run is over.
    pub fn is_finished(&self) -> (r: bool)
        ensures
            r == self@.finished(),
    {
        self.failure.is_some() || self.report == StageState::Succeeded
    }

    /// The stage whose end is awaited.
    fn current(&self) -> (r: Stage)
        ensures
            r == self@.current(),
    {
        if self.collect == StageState::Running {
            Stage::Collect
        } else if self.explain == StageState::Running {
            Stage::Explain
        } else {
            Stage::Report
        }
    }

    fn pass(&mut self, stage: Stage)
        ensures
            final(self)@ == old(self)@.passed(stage),
    {
        match stage {
            Stage::Collect => {
                self.collect = StageState::Succeeded;
                self.explain = StageState::Running;
            },
            Stage::Explain => {
                self.explain = StageState::Succeeded;
                self.report = StageState::Running;
            },
            Stage::Report => {
                self.report = StageState::Succeeded;
            },
        }
    }

    fn halt(&mut self, stage: Stage, error: PipelineError)
        ensures
            final(self)@ == old(self)@.halted(stage, error@),
    {
        match stage {
            Stage::Collect => {
                self.collect = StageState::Failed;
            },
            Stage::Explain => {
                self.explain = StageState::Failed;
            },
            Stage::Report => {
                self.report = StageState::Failed;
            },
        }
        self.failure = Some(error);
    }

    /// Takes note of what the caller reports.
    pub fn record(&mut self, event: Event)
        ensures
            final(self)@ == old(self)@.after(event@),
    {
        if self.is_finished() {
            return ;
        }
        if !self.prepared {
            match event {
                Event::DirectoriesReady => {
                    self.prepared = true;
                    self.collect = StageState::Running;
                },
                Event::DirectoryFailed { path, message } => {
                    self.failure = Some(PipelineError::Io { path, message });
                },
                _ => {},
            }
            return ;
        }
        let stage = self.current();
        match event {
            Event::Exited(result) => {
                let ghost before = self@;
                let success = result.success;
                let error = result.error.clone();
                self.results.push(result);
                assert(self@ == PipelineView { results: before.results.push(result@), ..before }) by {
                    assert(self@.results =~= before.results.push(result@));
                }
                if success {
                    self.pass(stage);
                } else {
                    self.halt(stage, PipelineError::StageFailed { stage, error });
                }
            },
            Event::TimedOut => {
                self.halt(stage, PipelineError::Timeout { stage });
            },
            Event::LaunchFailed { message } => {
                self.halt(stage, PipelineError::Launch { stage, message });
            },
            _ => {},
        }
    }

    /// What the run has come to, once it is over.
    pub fn outcome(self) -> (r: Option<PipelineOutcome>)
        ensures
            r is Some <==> self@.finished(),
            r matches Some(o) ==> result_views(o.results) == self@.results && failure_view(o.failure)
                == self@.failure,
    {
        if self.is_finished() {
            Some(PipelineOutcome { results: self.results, failure: self.failure })
        } else {
            None
        }
    }
}

impl AgentOrchestrator {
    /// Begins a full run: collect, then explain, then report. The two
    /// parameters go to the collector and to the explainer.
    pub fn run_full_audit(&self, use_mock: Option<bool>, project_id: Option<String>) -> (r:
        Pipeline)
        ensures
            r@ == initial(use_mock, text_view(project_id)),
    {
        let r = Pipeline {
            use_mock,
            project_id,
            prepared: false,
            collect: StageState::Pending,
            explain: StageState::Pending,
            report: StageState::Pending,
            results: Vec::new(),
            failure: None,
        };
        assert(r@.results =~= Seq::empty());
        r
    }

    /// What the caller is to do next for `run`.
    pub fn next_action(&self, run: &Pipeline) -> (r: Action)
        ensures
            r@ == action_for(self@, run@),
    {
        if run.failure.is_some() {
            Action::Finish { clear_progress: false }
        } else if !run.prepared {
            Action::EnsureDirectories {
                data_dir: self.config().paths.data_dir.clone(),
                output_dir: self.config().paths.output_dir.clone(),
            }
        } else if run.collect == StageState::Running {
            Action::Invoke(self.run_collector(run.use_mock, copy_text(&run.project_id)))
        } else if run.explain == StageState::Running {
            Action::Invoke(self.run_explainer(run.use_mock, copy_text(&run.project_id)))
        } else if run.report == StageState::Running {
            Action::Invoke(self.run_reporter(None, None, None))
        } else {
            Action::Finish { clear_progress: self.reports_progress() }
        }
    }
}

} // verus!
