//! The orchestrator: it holds the configuration of a run and says, for
//! each stage, which process is to be started.

use vstd::prelude::*;
use crate::arguments::{domain_args, domain_arguments, list_view, report_args, report_arguments};
use crate::config::{Config, ConfigView, text_view};
use crate::paths::{join_path, joined};
use crate::stage::{CallView, InvocationView, Stage, StageCall, StageInvocation, texts};

verus! {

/// Prepares the stages of a run from its configuration.
pub struct AgentOrchestrator {
    config: Config,
    progress: bool,
}

pub struct OrchestratorView {
    pub config: ConfigView,
    /// Whether the caller is shown a status line for each stage.
    pub progress: bool,
}

impl View for AgentOrchestrator {
    type V = OrchestratorView;

    closed spec fn view(&self) -> OrchestratorView {
        OrchestratorView { config: self.config@, progress: self.progress }
    }
}

/// The call of `stage` with the arguments `args`: the configured
/// interpreter runs the stage's script, found under the configured
/// directory, within the configured time. The status line is there
/// where progress is reported.
pub open spec fn call_of(o: OrchestratorView, stage: Stage, args: Seq<Seq<char>>) -> CallView {
    CallView {
        stage,
        announce: if o.progress {
            Some(stage.status_text())
        } else {
            None
        },
        invocation: InvocationView {
            program: o.config.command,
            script: joined(o.config.agents_path, stage.script_text()),
            args,
            timeout_seconds: o.config.timeout_seconds,
        },
    }
}

/// The file that the collector leaves for the explainer. It is to exist
/// before the explainer runs alone.
pub open spec fn collected_file(config: ConfigView) -> Seq<char> {
    joined(config.data_dir, "collected.json"@)
}

/// The file that the explainer leaves for the reporter, in the directory
/// that the caller names or else in the configured one. It is to exist
/// before the reporter runs alone.
pub open spec fn explained_file(config: ConfigView, input_dir: Option<Seq<char>>) -> Seq<char> {
    joined(input_dir.unwrap_or(config.data_dir), "explained.json"@)
}

impl AgentOrchestrator {
    /// An orchestrator for `config` that reports no progress.
    pub fn new(config: Config) -> (r: Self)
        ensures
            r@.config == config@,
            !r@.progress,
    {
        AgentOrchestrator { config, progress: false }
    }

    /// The same orchestrator, reporting progress.
    pub fn with_progress(self) -> (r: Self)
        ensures
            r@.config == self@.config,
            r@.progress,
    {
        AgentOrchestrator { config: self.config, progress: true }
    }

    /// The configuration of the run.
    pub fn config(&self) -> (r: &Config)
        ensures
            r@ == self@.config,
    {
        &self.config
    }

    /// Whether progress is reported.
    pub fn reports_progress(&self) -> (r: bool)
        ensures
            r == self@.progress,
    {
        self.progress
    }

    /// The call of `stage` with the arguments `args`.
    fn call(&self, stage: Stage, args: Vec<String>) -> (r: StageCall)
        ensures
            r@ == call_of(self@, stage, texts(args)),
    {
        let announce = if self.progress {
            Some(stage.status_message().to_owned())
        } else {
            None
        };
        StageCall {
            stage,
            announce,
            invocation: StageInvocation {
                program: self.config.python.command.clone(),
                script: join_path(self.config.python.agents_path.as_str(), stage.script()),
                args,
                timeout_seconds: self.config.execution.timeout_seconds,
            },
        }
    }

    /// The call of the collector. An override, where given, takes the
    /// place of the configured value; a project that is neither given nor
    /// configured, or configured as empty, is left out.
    pub fn run_collector(&self, use_mock: Option<bool>, project_id: Option<String>) -> (r:
        StageCall)
        ensures
            r@ == call_of(
                self@,
                Stage::Collect,
                domain_args(self@.config, use_mock, text_view(project_id)),
            ),
    {
        let args = domain_arguments(&self.config, use_mock, project_id);
        self.call(Stage::Collect, args)
    }

    /// The call of the explainer, which takes the parameters of the collector.
    pub fn run_explainer(&self, use_mock: Option<bool>, project_id: Option<String>) -> (r:
        StageCall)
        ensures
            r@ == call_of(
                self@,
                Stage::Explain,
                domain_args(self@.config, use_mock, text_view(project_id)),
            ),
    {
        let args = domain_arguments(&self.config, use_mock, project_id);
        self.call(Stage::Explain, args)
    }

    /// The call of the reporter. The directories default to the configured
    /// ones, and a directory that is configured as empty is left out; the
    /// formats are passed on only where the caller names them.
    pub fn run_reporter(
        &self,
        input_dir: Option<String>,
        output_dir: Option<String>,
        format: Option<Vec<String>>,
    ) -> (r: StageCall)
        ensures
            r@ == call_of(
                self@,
                Stage::Report,
                report_args(
                    self@.config,
                    text_view(input_dir),
                    text_view(output_dir),
                    list_view(format),
                ),
            ),
    {
        let args = report_arguments(&self.config, input_dir, output_dir, format);
        self.call(Stage::Report, args)
    }

    /// The file that is to exist before the explainer runs alone.
    pub fn explainer_input(&self) -> (r: String)
        ensures
            r@ == collected_file(self@.config),
    {
        join_path(self.config.paths.data_dir.as_str(), "collected.json")
    }

    /// The file that is to exist before the reporter runs alone.
    pub fn reporter_input(&self, input_dir: &Option<String>) -> (r: String)
        ensures
            r@ == explained_file(self@.config, text_view(*input_dir)),
    {
        match input_dir {
            Some(dir) => join_path(dir.as_str(), "explained.json"),
            None => join_path(self.config.paths.data_dir.as_str(), "explained.json"),
        }
    }
}

} // verus!
