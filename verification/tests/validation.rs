use paddi::validation::{
    check_agents_exist, check_python_available, stage_scripts, version_query, ValidationError,
};

#[test]
fn interpreter_is_asked_for_its_version() {
    assert_eq!(version_query(), vec!["--version"]);
}

#[test]
fn interpreter_that_answers_is_available() {
    assert_eq!(check_python_available("python3", Some(true)), Ok(()));
}

#[test]
fn interpreter_that_fails_or_cannot_start_is_unavailable() {
    let unavailable = ValidationError::InterpreterUnavailable { command: "py".to_string() };
    assert_eq!(check_python_available("py", Some(false)), Err(unavailable.clone()));
    assert_eq!(check_python_available("py", None), Err(unavailable));
}

#[test]
fn scripts_are_expected_under_the_agents_path() {
    assert_eq!(
        stage_scripts("python_agents"),
        vec![
            "python_agents/collector/agent_collector.py",
            "python_agents/explainer/agent_explainer.py",
            "python_agents/reporter/agent_reporter.py",
        ]
    );
}

#[test]
fn all_scripts_present_passes() {
    assert_eq!(check_agents_exist("agents", &vec![true, true, true]), Ok(()));
    assert_eq!(check_agents_exist("agents", &vec![true, true, true, false]), Ok(()));
}

#[test]
fn missing_reporter_script_is_named() {
    assert_eq!(
        check_agents_exist("/srv/agents", &vec![true, true, false]),
        Err(ValidationError::StageScriptMissing {
            path: "/srv/agents/reporter/agent_reporter.py".to_string()
        })
    );
}

#[test]
fn first_missing_script_is_reported() {
    let missing = |path: &str| Err(ValidationError::StageScriptMissing { path: path.to_string() });
    assert_eq!(check_agents_exist("a", &vec![false, false, false]),
        missing("a/collector/agent_collector.py"));
    assert_eq!(check_agents_exist("a", &vec![true, false, false]),
        missing("a/explainer/agent_explainer.py"));
    assert_eq!(check_agents_exist("a", &vec![false, true, true]),
        missing("a/collector/agent_collector.py"));
}

#[test]
fn script_without_an_answer_counts_as_missing() {
    let missing = |path: &str| Err(ValidationError::StageScriptMissing { path: path.to_string() });
    assert_eq!(check_agents_exist("a", &vec![]), missing("a/collector/agent_collector.py"));
    assert_eq!(check_agents_exist("a", &vec![true]), missing("a/explainer/agent_explainer.py"));
    assert_eq!(check_agents_exist("a", &vec![true, true]), missing("a/reporter/agent_reporter.py"));
}
