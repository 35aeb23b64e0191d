//! What a failure is called when it is shown to the user.

use vstd::prelude::*;
use crate::config::ConfigError;
use crate::pipeline::{ErrorView, PipelineError};
use crate::stage::Stage;
use crate::validation::ValidationError;

verus! {

impl Stage {
    /// The name of the stage's program.
    pub open spec fn agent_text(self) -> Seq<char> {
        match self {
            Stage::Collect => "Collector"@,
            Stage::Explain => "Explainer"@,
            Stage::Report => "Reporter"@,
        }
    }

    pub fn agent_name(self) -> (r: &'static str)
        ensures
            r@ == self.agent_text(),
    {
        match self {
            Stage::Collect => "Collector",
            Stage::Explain => "Explainer",
            Stage::Report => "Reporter",
        }
    }
}

/// The message for a failed run: it names the stage and carries what the
/// stage or the system said.
pub open spec fn pipeline_message(error: ErrorView) -> Seq<char> {
    match error {
        ErrorView::Io { path, message } => "Failed to create directory "@ + path + ": "@ + message,
        ErrorView::Launch { stage, message } => "Failed to execute "@ + stage.agent_text()
            + " agent: "@ + message,
        ErrorView::Timeout { stage } => stage.agent_text() + " agent execution timed out"@,
        ErrorView::StageFailed { stage, error } => stage.agent_text() + " agent failed: "@ + error,
    }
}

impl PipelineError {
    pub fn message(&self) -> (r: String)
        ensures
            r@ == pipeline_message(self@),
    {
        match self {
            PipelineError::Io { path, message } => "Failed to create directory ".to_owned().concat(
                path.as_str(),
            ).concat(": ").concat(message.as_str()),
            PipelineError::Launch { stage, message } => "Failed to execute ".to_owned().concat(
                stage.agent_name(),
            ).concat(" agent: ").concat(message.as_str()),
            PipelineError::Timeout { stage } => stage.agent_name().to_owned().concat(
                " agent execution timed out",
            ),
            PipelineError::StageFailed { stage, error } => stage.agent_name().to_owned().concat(
                " agent failed: ",
            ).concat(error.as_str()),
        }
    }
}

/// The message for a check that did not pass.
pub open spec fn validation_message(error: ValidationError) -> Seq<char> {
    match error {
        ValidationError::InterpreterUnavailable { command } => "Python command '"@ + command@
            + "' is not available"@,
        ValidationError::StageScriptMissing { path } => "Agent not found: "@ + path@,
    }
}

impl ValidationError {
    pub fn message(&self) -> (r: String)
        ensures
            r@ == validation_message(*self),
    {
        match self {
            ValidationError::InterpreterUnavailable { command } => "Python command '".to_owned().concat(
                command.as_str(),
            ).concat("' is not available"),
            ValidationError::StageScriptMissing { path } => "Agent not found: ".to_owned().concat(
                path.as_str(),
            ),
        }
    }
}

/// The message for a configuration that could not be read or written.
pub open spec fn config_message(error: ConfigError) -> Seq<char> {
    match error {
        ConfigError::Syntax { message } => "Failed to parse config: "@ + message@,
        ConfigError::InvalidField { field } => "Failed to parse config: invalid type for "@
            + field@,
        ConfigError::Render { message } => "Failed to serialize config: "@ + message@,
    }
}

impl ConfigError {
    pub fn message(&self) -> (r: String)
        ensures
            r@ == config_message(*self),
    {
        match self {
            ConfigError::Syntax { message } => "Failed to parse config: ".to_owned().concat(
                message.as_str(),
            ),
            ConfigError::InvalidField { field } => "Failed to parse config: invalid type for ".to_owned().concat(
            field.as_str()),
            ConfigError::Render { message } => "Failed to serialize config: ".to_owned().concat(
                message.as_str(),
            ),
        }
    }
}

} // verus!
