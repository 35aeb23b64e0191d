//! The three stages of the pipeline, what is handed to a stage when it is
//! invoked, and what comes back.

use vstd::prelude::*;

verus! {

/// One step of the pipeline. Each is an external program.
#[derive(Debug, Clone, Copy, PartialEq, Eq, Structural)]
pub enum Stage {
    Collect,
    Explain,
    Report,
}

impl Stage {
    /// The stage's script, relative to the directory of the stage scripts.
    pub open spec fn script_text(self) -> Seq<char> {
        match self {
            Stage::Collect => "collector/agent_collector.py"@,
            Stage::Explain => "explainer/agent_explainer.py"@,
            Stage::Report => "reporter/agent_reporter.py"@,
        }
    }

    /// The status line shown while the stage runs.
    pub open spec fn status_text(self) -> Seq<char> {
        match self {
            Stage::Collect => "Running collector agent..."@,
            Stage::Explain => "Running explainer agent..."@,
            Stage::Report => "Running reporter agent..."@,
        }
    }

    /// The stage's place in the pipeline, from 0.
    pub open spec fn position(self) -> int {
        match self {
            Stage::Collect => 0,
            Stage::Explain => 1,
            Stage::Report => 2,
        }
    }

    pub fn script(self) -> (r: &'static str)
        ensures
            r@ == self.script_text(),
    {
        match self {
            Stage::Collect => "collector/agent_collector.py",
            Stage::Explain => "explainer/agent_explainer.py",
            Stage::Report => "reporter/agent_reporter.py",
        }
    }

    pub fn status_message(self) -> (r: &'static str)
        ensures
            r@ == self.status_text(),
    {
        match self {
            Stage::Collect => "Running collector agent...",
            Stage::Explain => "Running explainer agent...",
            Stage::Report => "Running reporter agent...",
        }
    }
}

/// The outcome of one stage that ran to its end: whether it exited with
/// status zero, and what it wrote to its output and error streams.
#[derive(Debug, Clone, PartialEq, Eq)]
pub struct AgentResult {
    pub success: bool,
    pub output: String,
    pub error: String,
}

pub struct ResultView {
    pub success: bool,
    pub output: Seq<char>,
    pub error: Seq<char>,
}

impl View for AgentResult {
    type V = ResultView;

    open spec fn view(&self) -> ResultView {
        ResultView { success: self.success, output: self.output@, error: self.error@ }
    }
}

/// The process to start for a stage: the interpreter, the script, the
/// script's arguments and the time the stage is given.
#[derive(Debug, Clone, PartialEq, Eq)]
pub struct StageInvocation {
    pub program: String,
    pub script: String,
    pub args: Vec<String>,
    pub timeout_seconds: u64,
}

pub struct InvocationView {
    pub program: Seq<char>,
    pub script: Seq<char>,
    pub args: Seq<Seq<char>>,
    pub timeout_seconds: u64,
}

/// The texts that a vector of strings holds.
pub open spec fn texts(items: Vec<String>) -> Seq<Seq<char>> {
    Seq::new(items@.len(), |i: int| items@[i]@)
}

impl View for StageInvocation {
    type V = InvocationView;

    open spec fn view(&self) -> InvocationView {
        InvocationView {
            program: self.program@,
            script: self.script@,
            args: texts(self.args),
            timeout_seconds: self.timeout_seconds,
        }
    }
}

/// What the controller asks for when a stage is due: the status line to
/// show, where progress is reported, and the process to start.
#[derive(Debug, Clone, PartialEq, Eq)]
pub struct StageCall {
    pub stage: Stage,
    pub announce: Option<String>,
    pub invocation: StageInvocation,
}

pub struct CallView {
    pub stage: Stage,
    pub announce: Option<Seq<char>>,
    pub invocation: InvocationView,
}

impl View for StageCall {
    type V = CallView;

    open spec fn view(&self) -> CallView {
        CallView {
            stage: self.stage,
            announce: match self.announce {
                Some(t) => Some(t@),
                None => None,
            },
            invocation: self.invocation@,
        }
    }
}

} // verus!
