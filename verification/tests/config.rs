use paddi::config::{
    default_agents_path, default_data_dir, default_output_dir, default_parallel,
    default_python_command, default_timeout, Candidate, Config, ConfigError,
};
use paddi::source::ConfigSource;

#[test]
fn test_default_config() {
    let config = Config::default();
    assert_eq!(config.python.command, "python3");
    assert_eq!(config.gcp.use_mock, true);
    assert_eq!(config.execution.timeout_seconds, 300);
}

#[test]
fn test_config_save_and_load() {
    let config = Config::default();
    let text = config.save().unwrap();

    let loaded = Config::from_file(&text).unwrap();
    assert_eq!(config.python.command, loaded.python.command);
    assert_eq!(config.gcp.use_mock, loaded.gcp.use_mock);
}

#[test]
fn test_partial_config() {
    let toml_str = r#"
        [python]
        command = "python"
        
        [gcp]
        project_id = "test-project"
        "#;

    let config: Config = Config::from_file(toml_str).unwrap();
    assert_eq!(config.python.command, "python");
    assert_eq!(config.gcp.project_id, Some("test-project".to_string()));
    // Check defaults are applied
    assert_eq!(config.paths.data_dir, "data");
}

#[test]
fn defaults_have_their_documented_values() {
    assert_eq!(default_python_command(), "python3");
    assert_eq!(default_agents_path(), "python_agents");
    assert_eq!(default_data_dir(), "data");
    assert_eq!(default_output_dir(), "output");
    assert_eq!(default_parallel(), false);
    assert_eq!(default_timeout(), 300);

    let config = Config::default();
    assert_eq!(config.python.agents_path, "python_agents");
    assert_eq!(config.gcp.project_id, None);
    assert_eq!(config.paths.data_dir, "data");
    assert_eq!(config.paths.output_dir, "output");
    assert_eq!(config.execution.parallel, false);
}

#[test]
fn empty_file_gives_the_defaults() {
    assert_eq!(Config::from_file("").unwrap(), Config::default());
}

#[test]
fn every_field_can_be_specified() {
    let text = r#"
        [python]
        command = "py"
        agents_path = "/opt/agents"

        [gcp]
        project_id = "p-1"
        use_mock = false

        [paths]
        data_dir = "d"
        output_dir = "o"

        [execution]
        parallel = true
        timeout_seconds = 7
    "#;
    let config = Config::from_file(text).unwrap();
    assert_eq!(config.python.command, "py");
    assert_eq!(config.python.agents_path, "/opt/agents");
    assert_eq!(config.gcp.project_id, Some("p-1".to_string()));
    assert_eq!(config.gcp.use_mock, false);
    assert_eq!(config.paths.data_dir, "d");
    assert_eq!(config.paths.output_dir, "o");
    assert_eq!(config.execution.parallel, true);
    assert_eq!(config.execution.timeout_seconds, 7);
}

#[test]
fn unspecified_fields_keep_their_defaults() {
    let config = Config::from_file("[execution]\ntimeout_seconds = 1\n").unwrap();
    assert_eq!(config.execution.timeout_seconds, 1);
    assert_eq!(config.execution.parallel, false);
    assert_eq!(config.python.command, "python3");
    assert_eq!(config.python.agents_path, "python_agents");
    assert_eq!(config.gcp.project_id, None);
    assert_eq!(config.gcp.use_mock, true);
    assert_eq!(config.paths.data_dir, "data");
    assert_eq!(config.paths.output_dir, "output");
}

#[test]
fn unknown_groups_and_fields_are_ignored() {
    let text = "title = \"x\"\n[python]\ncommand = \"py\"\nflavour = 3\n[extra]\nkey = 1.5\n";
    let config = Config::from_file(text).unwrap();
    assert_eq!(config.python.command, "py");
    assert_eq!(config.python.agents_path, "python_agents");
}

#[test]
fn wrong_type_names_the_field() {
    let field = |text: &str| match Config::from_file(text) {
        Err(ConfigError::InvalidField { field }) => field,
        other => panic!("expected an invalid field, got {:?}", other),
    };
    assert_eq!(field("python = 3"), "python");
    assert_eq!(field("[python]\ncommand = 3"), "python.command");
    assert_eq!(field("[python]\nagents_path = true"), "python.agents_path");
    assert_eq!(field("gcp = \"x\""), "gcp");
    assert_eq!(field("[gcp]\nproject_id = 12"), "gcp.project_id");
    assert_eq!(field("[gcp]\nuse_mock = \"yes\""), "gcp.use_mock");
    assert_eq!(field("paths = [1]"), "paths");
    assert_eq!(field("[paths]\ndata_dir = 1"), "paths.data_dir");
    assert_eq!(field("[paths]\noutput_dir = 1.5"), "paths.output_dir");
    assert_eq!(field("execution = false"), "execution");
    assert_eq!(field("[execution]\nparallel = 1"), "execution.parallel");
    assert_eq!(field("[execution]\ntimeout_seconds = \"5\""), "execution.timeout_seconds");
    assert_eq!(field("[execution]\ntimeout_seconds = -1"), "execution.timeout_seconds");
    assert_eq!(field("[execution]\ntimeout_seconds = 2.0"), "execution.timeout_seconds");
}

#[test]
fn first_wrong_field_is_reported() {
    match Config::from_file("[execution]\nparallel = 1\n[python]\ncommand = 3\n") {
        Err(ConfigError::InvalidField { field }) => assert_eq!(field, "python.command"),
        other => panic!("expected an invalid field, got {:?}", other),
    }
}

#[test]
fn text_that_is_no_document_is_a_syntax_error() {
    match Config::from_file("[python\ncommand = ") {
        Err(ConfigError::Syntax { message }) => assert!(!message.is_empty()),
        other => panic!("expected a syntax error, got {:?}", other),
    }
}

#[test]
fn source_holds_what_the_document_specifies() {
    let mut python = toml::Table::new();
    python.insert("command".to_string(), toml::Value::String("py".to_string()));
    let mut doc = toml::Table::new();
    doc.insert("python".to_string(), toml::Value::Table(python));

    let source = ConfigSource::from_table(&doc).unwrap();
    assert_eq!(source.command, Some("py".to_string()));
    assert_eq!(source.agents_path, None);
    assert_eq!(source.project_id, None);
    assert_eq!(source.use_mock, None);
    assert_eq!(source.data_dir, None);
    assert_eq!(source.output_dir, None);
    assert_eq!(source.parallel, None);
    assert_eq!(source.timeout_seconds, None);

    let config = Config::from_table(&doc).unwrap();
    assert_eq!(config.python.command, "py");
    assert_eq!(config.paths.output_dir, "output");
}

#[test]
fn source_reports_the_wrong_field() {
    let mut execution = toml::Table::new();
    execution.insert("timeout_seconds".to_string(), toml::Value::Integer(-5));
    let mut doc = toml::Table::new();
    doc.insert("execution".to_string(), toml::Value::Table(execution));
    assert_eq!(
        ConfigSource::from_table(&doc),
        Err("execution.timeout_seconds".to_string())
    );
}

#[test]
fn overlay_takes_the_source_first() {
    let source = ConfigSource {
        command: None,
        agents_path: Some("agents".to_string()),
        project_id: Some("p".to_string()),
        use_mock: Some(false),
        data_dir: None,
        output_dir: Some("out".to_string()),
        parallel: None,
        timeout_seconds: Some(9),
    };
    let config = Config::default().overlay(source);
    assert_eq!(config.python.command, "python3");
    assert_eq!(config.python.agents_path, "agents");
    assert_eq!(config.gcp.project_id, Some("p".to_string()));
    assert_eq!(config.gcp.use_mock, false);
    assert_eq!(config.paths.data_dir, "data");
    assert_eq!(config.paths.output_dir, "out");
    assert_eq!(config.execution.parallel, false);
    assert_eq!(config.execution.timeout_seconds, 9);
}

#[test]
fn overlay_keeps_a_project_that_the_source_leaves_open() {
    let mut base = Config::default();
    base.gcp.project_id = Some("kept".to_string());
    let source = ConfigSource {
        command: None,
        agents_path: None,
        project_id: None,
        use_mock: None,
        data_dir: None,
        output_dir: None,
        parallel: None,
        timeout_seconds: None,
    };
    assert_eq!(base.clone().overlay(source), base);
}

fn sample() -> Config {
    let mut config = Config::default();
    config.python.command = "py \"3\"".to_string();
    config.python.agents_path = "/a b/agents".to_string();
    config.gcp.project_id = Some("proj-é".to_string());
    config.gcp.use_mock = false;
    config.paths.data_dir = "d\\x".to_string();
    config.paths.output_dir = "".to_string();
    config.execution.parallel = true;
    config.execution.timeout_seconds = 1;
    config
}

#[test]
fn save_then_load_gives_every_field_back() {
    let config = sample();
    let text = config.save().unwrap();
    assert_eq!(Config::from_file(&text).unwrap(), config);

    let config = Config::default();
    let text = config.save().unwrap();
    assert_eq!(Config::from_file(&text).unwrap(), config);
}

#[test]
fn table_round_trip_gives_every_field_back() {
    let config = sample();
    let doc = config.to_table();
    assert_eq!(Config::from_table(&doc).unwrap(), config);
}

#[test]
fn saved_text_names_the_groups() {
    let text = Config::default().save().unwrap();
    assert!(text.contains("[python]"));
    assert!(text.contains("[gcp]"));
    assert!(text.contains("[paths]"));
    assert!(text.contains("[execution]"));
    assert!(text.contains("command = \"python3\""));
    assert!(text.contains("timeout_seconds = 300"));
    assert!(!text.contains("project_id"));
}

#[test]
fn table_holds_every_field() {
    let doc = sample().to_table();
    assert_eq!(doc.len(), 4);
    assert_eq!(doc["python"]["command"].as_str(), Some("py \"3\""));
    assert_eq!(doc["python"]["agents_path"].as_str(), Some("/a b/agents"));
    assert_eq!(doc["gcp"]["project_id"].as_str(), Some("proj-é"));
    assert_eq!(doc["gcp"]["use_mock"].as_bool(), Some(false));
    assert_eq!(doc["paths"]["data_dir"].as_str(), Some("d\\x"));
    assert_eq!(doc["paths"]["output_dir"].as_str(), Some(""));
    assert_eq!(doc["execution"]["parallel"].as_bool(), Some(true));
    assert_eq!(doc["execution"]["timeout_seconds"].as_integer(), Some(1));
    assert!(Config::default().to_table()["gcp"].get("project_id").is_none());
}

#[test]
fn every_timeout_is_saved_and_read_back() {
    for timeout in [0, 1, 300, i64::MAX as u64, i64::MAX as u64 + 1, u64::MAX - 1, u64::MAX] {
        let mut config = Config::default();
        config.execution.timeout_seconds = timeout;
        let text = config.save().unwrap();
        let loaded = Config::from_file(&text).unwrap();
        assert_eq!(loaded.execution.timeout_seconds, timeout);
        assert_eq!(loaded, config);
        assert_eq!(Config::from_table(&config.to_table()).unwrap(), config);
    }
}

#[test]
fn largest_timeout_is_saved_with_every_other_field() {
    let mut config = Config::default();
    config.execution.timeout_seconds = u64::MAX;
    let text = config.save().unwrap();
    assert!(text.contains("[python]"));
    assert!(text.contains("[gcp]"));
    assert!(text.contains("[paths]"));
    assert!(text.contains("[execution]"));
    assert!(text.contains("timeout_seconds = \"18446744073709551615\""));
    let loaded = Config::from_file(&text).unwrap();
    assert_eq!(loaded.execution.timeout_seconds, 18446744073709551615);
    assert_eq!(loaded.python, config.python);
    assert_eq!(loaded.gcp, config.gcp);
    assert_eq!(loaded.paths, config.paths);
    assert_eq!(loaded.execution.parallel, config.execution.parallel);
}

#[test]
fn timeout_is_an_integer_up_to_the_largest_of_toml() {
    let mut config = Config::default();
    config.execution.timeout_seconds = i64::MAX as u64;
    assert_eq!(config.to_table()["execution"]["timeout_seconds"].as_integer(), Some(i64::MAX));
    config.execution.timeout_seconds = i64::MAX as u64 + 1;
    assert_eq!(
        config.to_table()["execution"]["timeout_seconds"].as_str(),
        Some("9223372036854775808")
    );
    config.execution.timeout_seconds = u64::MAX;
    assert_eq!(
        config.to_table()["execution"]["timeout_seconds"].as_str(),
        Some("18446744073709551615")
    );
}

#[test]
fn timeout_as_text_is_read_only_in_its_one_form() {
    let read = |value: &str| {
        Config::from_file(&format!("[execution]\ntimeout_seconds = {}\n", value))
            .map(|c| c.execution.timeout_seconds)
    };
    let wrong = Err(ConfigError::InvalidField { field: "execution.timeout_seconds".to_string() });
    assert_eq!(read("\"9223372036854775808\""), Ok(9223372036854775808));
    assert_eq!(read("\"18446744073709551615\""), Ok(u64::MAX));
    assert_eq!(read("9223372036854775807"), Ok(i64::MAX as u64));
    assert_eq!(read("\"9223372036854775807\""), wrong);
    assert_eq!(read("\"18446744073709551616\""), wrong);
    assert_eq!(read("\"018446744073709551615\""), wrong);
    assert_eq!(read("\"+18446744073709551615\""), wrong);
    assert_eq!(read("\"99999999999999999999999999\""), wrong);
    assert_eq!(read("\"1844674407370955161x\""), wrong);
    assert_eq!(read("\"300\""), wrong);
    assert_eq!(read("\"\""), wrong);
}

fn candidate(path: &str, content: Option<&str>) -> Candidate {
    Candidate { path: path.to_string(), content: content.map(|c| c.to_string()) }
}

#[test]
fn load_without_any_file_gives_the_defaults() {
    assert_eq!(Config::load(&vec![]).unwrap(), Config::default());
    let none = vec![candidate("paddi.toml", None), candidate(".paddi.toml", None)];
    assert_eq!(Config::load(&none).unwrap(), Config::default());
}

#[test]
fn load_reads_the_first_file_that_exists() {
    let candidates = vec![
        candidate("paddi.toml", None),
        candidate(".paddi.toml", Some("[python]\ncommand = \"second\"")),
        candidate("/home/u/.config/paddi/config.toml", Some("[python]\ncommand = \"third\"")),
    ];
    assert_eq!(Config::load(&candidates).unwrap().python.command, "second");
}

#[test]
fn load_fails_where_the_first_file_is_wrong() {
    let candidates = vec![
        candidate("paddi.toml", Some("[python]\ncommand = 1")),
        candidate(".paddi.toml", Some("[python]\ncommand = \"fine\"")),
    ];
    assert_eq!(
        Config::load(&candidates),
        Err(ConfigError::InvalidField { field: "python.command".to_string() })
    );
}

#[test]
fn search_paths_start_in_the_working_directory() {
    assert_eq!(Config::search_paths_in(None), vec!["paddi.toml", ".paddi.toml"]);
    assert_eq!(
        Config::search_paths_in(Some("/home/u/.config".to_string())),
        vec!["paddi.toml", ".paddi.toml", "/home/u/.config/paddi/config.toml"]
    );
    let here = Config::search_paths();
    assert!(here.len() == 2 || here.len() == 3);
    assert_eq!(here[0], "paddi.toml");
    assert_eq!(here[1], ".paddi.toml");
    if here.len() == 3 {
        assert!(here[2].ends_with("paddi/config.toml"));
    }
}

#[test]
fn first_source_is_the_first_file_that_exists() {
    assert_eq!(Config::first_source(&vec![]), None);
    let none = vec![candidate("a", None), candidate("b", None)];
    assert_eq!(Config::first_source(&none), None);
    let later = vec![candidate("a", None), candidate("b", Some("")), candidate("c", Some(""))];
    assert_eq!(Config::first_source(&later), Some(1));
    let first = vec![candidate("a", Some("x")), candidate("b", None)];
    assert_eq!(Config::first_source(&first), Some(0));
}
