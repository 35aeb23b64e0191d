use paddi::config::{Config, ConfigError};
use paddi::orchestrator::AgentOrchestrator;
use paddi::pipeline::PipelineError;
use paddi::stage::Stage;
use paddi::validation::ValidationError;

#[test]
fn stages_are_named_after_their_agents() {
    assert_eq!(Stage::Collect.agent_name(), "Collector");
    assert_eq!(Stage::Explain.agent_name(), "Explainer");
    assert_eq!(Stage::Report.agent_name(), "Reporter");
}

#[test]
fn failed_stage_is_named_with_its_diagnostic() {
    let error = PipelineError::StageFailed { stage: Stage::Explain, error: "boom".to_string() };
    assert_eq!(error.message(), "Explainer agent failed: boom");
    let error = PipelineError::Timeout { stage: Stage::Collect };
    assert_eq!(error.message(), "Collector agent execution timed out");
    let error = PipelineError::Launch { stage: Stage::Report, message: "not found".to_string() };
    assert_eq!(error.message(), "Failed to execute Reporter agent: not found");
    let error = PipelineError::Io { path: "out".to_string(), message: "denied".to_string() };
    assert_eq!(error.message(), "Failed to create directory out: denied");
}

#[test]
fn validation_failures_name_the_resource() {
    let error = ValidationError::InterpreterUnavailable { command: "py".to_string() };
    assert_eq!(error.message(), "Python command 'py' is not available");
    let error = ValidationError::StageScriptMissing { path: "a/x.py".to_string() };
    assert_eq!(error.message(), "Agent not found: a/x.py");
}

#[test]
fn configuration_failures_name_the_cause() {
    let error = ConfigError::Syntax { message: "expected `]`".to_string() };
    assert_eq!(error.message(), "Failed to parse config: expected `]`");
    let error = ConfigError::InvalidField { field: "gcp.use_mock".to_string() };
    assert_eq!(error.message(), "Failed to parse config: invalid type for gcp.use_mock");
    let error = ConfigError::Render { message: "m".to_string() };
    assert_eq!(error.message(), "Failed to serialize config: m");
}

#[test]
fn single_stages_wait_for_the_file_of_the_stage_before() {
    let mut config = Config::default();
    let orchestrator = AgentOrchestrator::new(config.clone());
    assert_eq!(orchestrator.explainer_input(), "data/collected.json");
    assert_eq!(orchestrator.reporter_input(&None), "data/explained.json");
    assert_eq!(orchestrator.reporter_input(&Some("in".to_string())), "in/explained.json");

    config.paths.data_dir = "/var/audit/".to_string();
    let orchestrator = AgentOrchestrator::new(config);
    assert_eq!(orchestrator.explainer_input(), "/var/audit/collected.json");
    assert_eq!(orchestrator.reporter_input(&None), "/var/audit/explained.json");
}
