use paddi::arguments::{domain_arguments, join_with_commas, report_arguments};
use paddi::config::Config;
use paddi::orchestrator::AgentOrchestrator;
use paddi::stage::{Stage, StageCall};

fn strings(items: &[&str]) -> Vec<String> {
    items.iter().map(|s| s.to_string()).collect()
}

fn configured() -> Config {
    let mut config = Config::default();
    config.python.command = "py".to_string();
    config.python.agents_path = "/opt/agents".to_string();
    config.gcp.project_id = Some("configured".to_string());
    config.gcp.use_mock = false;
    config.paths.data_dir = "in".to_string();
    config.paths.output_dir = "out".to_string();
    config.execution.timeout_seconds = 1;
    config
}

#[test]
fn stages_have_fixed_scripts_and_status_lines() {
    assert_eq!(Stage::Collect.script(), "collector/agent_collector.py");
    assert_eq!(Stage::Explain.script(), "explainer/agent_explainer.py");
    assert_eq!(Stage::Report.script(), "reporter/agent_reporter.py");
    assert_eq!(Stage::Collect.status_message(), "Running collector agent...");
    assert_eq!(Stage::Explain.status_message(), "Running explainer agent...");
    assert_eq!(Stage::Report.status_message(), "Running reporter agent...");
}

#[test]
fn collector_call_with_defaults() {
    let call = AgentOrchestrator::new(Config::default()).run_collector(None, None);
    assert_eq!(call.stage, Stage::Collect);
    assert_eq!(call.announce, None);
    assert_eq!(call.invocation.program, "python3");
    assert_eq!(call.invocation.script, "python_agents/collector/agent_collector.py");
    assert_eq!(call.invocation.args, strings(&["--use_mock=true"]));
    assert_eq!(call.invocation.timeout_seconds, 300);
}

#[test]
fn configuration_fills_in_what_the_caller_leaves_open() {
    let orchestrator = AgentOrchestrator::new(configured());
    let call = orchestrator.run_collector(None, None);
    assert_eq!(call.invocation.program, "py");
    assert_eq!(call.invocation.script, "/opt/agents/collector/agent_collector.py");
    assert_eq!(call.invocation.args, strings(&["--use_mock=false", "--project_id=configured"]));
    assert_eq!(call.invocation.timeout_seconds, 1);
}

#[test]
fn override_takes_precedence_over_the_configuration() {
    let orchestrator = AgentOrchestrator::new(configured());
    let call = orchestrator.run_collector(Some(true), Some("given".to_string()));
    assert_eq!(call.invocation.args, strings(&["--use_mock=true", "--project_id=given"]));

    let call = orchestrator.run_explainer(Some(true), None);
    assert_eq!(call.invocation.args, strings(&["--use_mock=true", "--project_id=configured"]));

    let call = orchestrator.run_explainer(None, Some("".to_string()));
    assert_eq!(call.invocation.args, strings(&["--use_mock=false", "--project_id="]));

    let call = orchestrator.run_reporter(Some("i".to_string()), Some("o".to_string()), None);
    assert_eq!(call.invocation.args, strings(&["--input_dir=i", "--output_dir=o"]));
}

#[test]
fn explainer_call_names_its_script() {
    let call = AgentOrchestrator::new(Config::default())
        .run_explainer(Some(false), Some("p".to_string()));
    assert_eq!(call.stage, Stage::Explain);
    assert_eq!(call.invocation.script, "python_agents/explainer/agent_explainer.py");
    assert_eq!(call.invocation.args, strings(&["--use_mock=false", "--project_id=p"]));
}

#[test]
fn reporter_call_uses_configured_directories() {
    let call = AgentOrchestrator::new(Config::default()).run_reporter(None, None, None);
    assert_eq!(call.stage, Stage::Report);
    assert_eq!(call.invocation.script, "python_agents/reporter/agent_reporter.py");
    assert_eq!(call.invocation.args, strings(&["--input_dir=data", "--output_dir=output"]));

    let call = AgentOrchestrator::new(configured()).run_reporter(None, Some("o".to_string()), None);
    assert_eq!(call.invocation.args, strings(&["--input_dir=in", "--output_dir=o"]));
}

#[test]
fn reporter_formats_are_one_comma_joined_argument() {
    let orchestrator = AgentOrchestrator::new(Config::default());
    let formats = strings(&["markdown", "html", "honkit"]);
    let call = orchestrator.run_reporter(None, None, Some(formats));
    assert_eq!(
        call.invocation.args,
        strings(&["--input_dir=data", "--output_dir=output", "--format=markdown,html,honkit"])
    );
    let call = orchestrator.run_reporter(None, None, Some(strings(&["html"])));
    assert_eq!(call.invocation.args[2], "--format=html");
    let call = orchestrator.run_reporter(None, None, Some(vec![]));
    assert_eq!(call.invocation.args[2], "--format=");
}

#[test]
fn commas_separate_the_items() {
    assert_eq!(join_with_commas(&vec![]), "");
    assert_eq!(join_with_commas(&strings(&["a"])), "a");
    assert_eq!(join_with_commas(&strings(&["a", "b"])), "a,b");
    assert_eq!(join_with_commas(&strings(&["", "b", ""])), ",b,");
}

#[test]
fn arguments_are_derived_from_configuration_and_overrides() {
    let config = configured();
    assert_eq!(domain_arguments(&config, None, None),
        strings(&["--use_mock=false", "--project_id=configured"]));
    assert_eq!(domain_arguments(&Config::default(), Some(false), None),
        strings(&["--use_mock=false"]));
    assert_eq!(report_arguments(&config, None, None, Some(strings(&["a", "b"]))),
        strings(&["--input_dir=in", "--output_dir=out", "--format=a,b"]));
}

#[test]
fn progress_adds_the_status_line() {
    let quiet = AgentOrchestrator::new(Config::default());
    assert!(!quiet.reports_progress());
    let orchestrator = quiet.with_progress();
    assert!(orchestrator.reports_progress());
    assert_eq!(orchestrator.config(), &Config::default());

    let expect = |call: StageCall, line: &str| assert_eq!(call.announce, Some(line.to_string()));
    expect(orchestrator.run_collector(None, None), "Running collector agent...");
    expect(orchestrator.run_explainer(None, None), "Running explainer agent...");
    expect(orchestrator.run_reporter(None, None, None), "Running reporter agent...");
}

#[test]
fn empty_configured_project_is_left_out() {
    let mut config = Config::default();
    config.gcp.project_id = Some("".to_string());
    let orchestrator = AgentOrchestrator::new(config.clone());
    let call = orchestrator.run_collector(None, None);
    assert_eq!(call.invocation.args, strings(&["--use_mock=true"]));
    assert!(call.invocation.args.iter().all(|a| !a.starts_with("--project_id")));
    let call = orchestrator.run_explainer(Some(false), None);
    assert_eq!(call.invocation.args, strings(&["--use_mock=false"]));
    assert_eq!(domain_arguments(&config, None, None), strings(&["--use_mock=true"]));

    let call = orchestrator.run_collector(None, Some("".to_string()));
    assert_eq!(call.invocation.args, strings(&["--use_mock=true", "--project_id="]));
}

#[test]
fn empty_configured_directory_is_left_out() {
    let mut config = Config::default();
    config.paths.data_dir = "".to_string();
    let orchestrator = AgentOrchestrator::new(config.clone());
    let call = orchestrator.run_reporter(None, None, None);
    assert_eq!(call.invocation.args, strings(&["--output_dir=output"]));
    let call = orchestrator.run_reporter(None, Some("o".to_string()), Some(strings(&["html"])));
    assert_eq!(call.invocation.args, strings(&["--output_dir=o", "--format=html"]));
    let call = orchestrator.run_reporter(Some("".to_string()), None, None);
    assert_eq!(call.invocation.args, strings(&["--input_dir=", "--output_dir=output"]));

    config.paths.output_dir = "".to_string();
    assert_eq!(report_arguments(&config, None, None, None), Vec::<String>::new());
    assert_eq!(
        report_arguments(&config, None, None, Some(strings(&["a", "b"]))),
        strings(&["--format=a,b"])
    );
    let orchestrator = AgentOrchestrator::new(config);
    let call = orchestrator.run_reporter(Some("i".to_string()), None, None);
    assert_eq!(call.invocation.args, strings(&["--input_dir=i"]));
}
