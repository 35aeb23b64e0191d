//! The effective configuration: built-in defaults, overlaid with what a
//! configuration source specifies.

use vstd::prelude::*;
use crate::document::{Node, parsed_document, parse_table, parse_error_message, table_nodes};
use crate::source::{ConfigSource, SourceView, first_mismatch, source_values};

verus! {

/// The interpreter and where the stage scripts live.
#[derive(Debug, Clone, PartialEq, Eq)]
pub struct PythonConfig {
    pub command: String,
    pub agents_path: String,
}

/// Domain parameters forwarded to the stages.
#[derive(Debug, Clone, PartialEq, Eq)]
pub struct GcpConfig {
    pub project_id: Option<String>,
    pub use_mock: bool,
}

/// Working directories for intermediate and final artifacts.
#[derive(Debug, Clone, PartialEq, Eq)]
pub struct PathsConfig {
    pub data_dir: String,
    pub output_dir: String,
}

/// How stages are executed.
#[derive(Debug, Clone, PartialEq, Eq)]
pub struct ExecutionConfig {
    pub parallel: bool,
    pub timeout_seconds: u64,
}

/// The fully resolved configuration of one run. Every field is populated.
#[derive(Debug, Clone, PartialEq, Eq)]
pub struct Config {
    pub python: PythonConfig,
    pub gcp: GcpConfig,
    pub paths: PathsConfig,
    pub execution: ExecutionConfig,
}

/// A configuration as mathematical values.
pub struct ConfigView {
    pub command: Seq<char>,
    pub agents_path: Seq<char>,
    pub project_id: Option<Seq<char>>,
    pub use_mock: bool,
    pub data_dir: Seq<char>,
    pub output_dir: Seq<char>,
    pub parallel: bool,
    pub timeout_seconds: u64,
}

/// The view of an optional text.
pub open spec fn text_view(text: Option<String>) -> Option<Seq<char>> {
    match text {
        Some(t) => Some(t@),
        None => None,
    }
}

impl View for Config {
    type V = ConfigView;

    open spec fn view(&self) -> ConfigView {
        ConfigView {
            command: self.python.command@,
            agents_path: self.python.agents_path@,
            project_id: text_view(self.gcp.project_id),
            use_mock: self.gcp.use_mock,
            data_dir: self.paths.data_dir@,
            output_dir: self.paths.output_dir@,
            parallel: self.execution.parallel,
            timeout_seconds: self.execution.timeout_seconds,
        }
    }
}

/// The built-in defaults.
pub open spec fn default_view() -> ConfigView {
    ConfigView {
        command: "python3"@,
        agents_path: "python_agents"@,
        project_id: None,
        use_mock: true,
        data_dir: "data"@,
        output_dir: "output"@,
        parallel: false,
        timeout_seconds: 300,
    }
}

pub fn default_python_command() -> (r: String)
    ensures
        r@ == "python3"@,
{
    "python3".to_owned()
}

pub fn default_agents_path() -> (r: String)
    ensures
        r@ == "python_agents"@,
{
    "python_agents".to_owned()
}

pub fn default_data_dir() -> (r: String)
    ensures
        r@ == "data"@,
{
    "data".to_owned()
}

pub fn default_output_dir() -> (r: String)
    ensures
        r@ == "output"@,
{
    "output".to_owned()
}

pub fn default_parallel() -> (r: bool)
    ensures
        r == false,
{
    false
}

/// Five minutes.
pub fn default_timeout() -> (r: u64)
    ensures
        r == 300,
{
    300
}

impl Default for PythonConfig {
    fn default() -> (r: Self)
        ensures
            r.command@ == "python3"@,
            r.agents_path@ == "python_agents"@,
    {
        PythonConfig { command: default_python_command(), agents_path: default_agents_path() }
    }
}

impl Default for GcpConfig {
    fn default() -> (r: Self)
        ensures
            r.project_id is None,
            r.use_mock,
    {
        GcpConfig { project_id: None, use_mock: true }
    }
}

impl Default for PathsConfig {
    fn default() -> (r: Self)
        ensures
            r.data_dir@ == "data"@,
            r.output_dir@ == "output"@,
    {
        PathsConfig { data_dir: default_data_dir(), output_dir: default_output_dir() }
    }
}

impl Default for ExecutionConfig {
    fn default() -> (r: Self)
        ensures
            !r.parallel,
            r.timeout_seconds == 300,
    {
        ExecutionConfig { parallel: default_parallel(), timeout_seconds: default_timeout() }
    }
}

impl Default for Config {
    fn default() -> (r: Self)
        ensures
            r@ == default_view(),
    {
        Config {
            python: PythonConfig::default(),
            gcp: GcpConfig::default(),
            paths: PathsConfig::default(),
            execution: ExecutionConfig::default(),
        }
    }
}

/// Why a configuration could not be read or written.
#[derive(Debug, Clone, PartialEq, Eq)]
pub enum ConfigError {
    /// The text is not a TOML document.
    Syntax { message: String },
    /// A group or field holds a value of the wrong type.
    InvalidField { field: String },
    /// The document could not be written as text.
    Render { message: String },
}

/// `base`, with every field that `source` specifies taken from `source`.
pub open spec fn overlaid(base: ConfigView, source: SourceView) -> ConfigView {
    ConfigView {
        command: source.command.unwrap_or(base.command),
        agents_path: source.agents_path.unwrap_or(base.agents_path),
        project_id: if source.project_id is Some {
            source.project_id
        } else {
            base.project_id
        },
        use_mock: source.use_mock.unwrap_or(base.use_mock),
        data_dir: source.data_dir.unwrap_or(base.data_dir),
        output_dir: source.output_dir.unwrap_or(base.output_dir),
        parallel: source.parallel.unwrap_or(base.parallel),
        timeout_seconds: source.timeout_seconds.unwrap_or(base.timeout_seconds),
    }
}

/// What reading a document gives: the defaults overlaid with the fields
/// it specifies, or the first field of the wrong type.
pub open spec fn reads_document(doc: Map<Seq<char>, Node>, r: Result<Config, ConfigError>) -> bool {
    match first_mismatch(doc) {
        Some(name) => r matches Err(ConfigError::InvalidField { field }) && field@ == name,
        None => r matches Ok(config) && config@ == overlaid(default_view(), source_values(doc)),
    }
}

/// What reading a text gives: a syntax error where the text is no TOML
/// document, and otherwise what reading the document gives.
pub open spec fn reads_text(content: Seq<char>, r: Result<Config, ConfigError>) -> bool {
    match parsed_document(content) {
        Some(doc) => reads_document(doc, r),
        None => r matches Err(ConfigError::Syntax { .. }),
    }
}

/// A place where a configuration file is looked for, with the file's text
/// where the file exists.
#[derive(Debug, Clone, PartialEq, Eq)]
pub struct Candidate {
    pub path: String,
    pub content: Option<String>,
}

/// Whether `index` is the first candidate whose file exists.
pub open spec fn first_existing(candidates: Seq<Candidate>, index: int) -> bool {
    &&& 0 <= index < candidates.len()
    &&& candidates[index].content is Some
    &&& forall|j: int| 0 <= j < index ==> (#[trigger] candidates[j]).content is None
}

impl Config {
    /// This configuration, with every field that `source` specifies
    /// replaced by the source's value.
    pub fn overlay(self, source: ConfigSource) -> (r: Config)
        ensures
            r@ == overlaid(self@, source@),
    {
        Config {
            python: PythonConfig {
                command: match source.command {
                    Some(v) => v,
                    None => self.python.command,
                },
                agents_path: match source.agents_path {
                    Some(v) => v,
                    None => self.python.agents_path,
                },
            },
            gcp: GcpConfig {
                project_id: match source.project_id {
                    Some(v) => Some(v),
                    None => self.gcp.project_id,
                },
                use_mock: match source.use_mock {
                    Some(v) => v,
                    None => self.gcp.use_mock,
                },
            },
            paths: PathsConfig {
                data_dir: match source.data_dir {
                    Some(v) => v,
                    None => self.paths.data_dir,
                },
                output_dir: match source.output_dir {
                    Some(v) => v,
                    None => self.paths.output_dir,
                },
            },
            execution: ExecutionConfig {
                parallel: match source.parallel {
                    Some(v) => v,
                    None => self.execution.parallel,
                },
                timeout_seconds: match source.timeout_seconds {
                    Some(v) => v,
                    None => self.execution.timeout_seconds,
                },
            },
        }
    }

    /// The configuration that a TOML document denotes: the defaults,
    /// overlaid with the fields that the document specifies.
    pub fn from_table(doc: &toml::map::Map<String, toml::Value>) -> (r: Result<Config, ConfigError>)
        ensures
            reads_document(table_nodes(*doc), r),
    {
        match ConfigSource::from_table(doc) {
            Ok(source) => Ok(Config::default().overlay(source)),
            Err(field) => Err(ConfigError::InvalidField { field }),
        }
    }

    /// The configuration that the text of a configuration file denotes.
    pub fn from_file(content: &str) -> (r: Result<Config, ConfigError>)
        ensures
            reads_text(content@, r),
    {
        match parse_table(content) {
            Ok(doc) => Config::from_table(&doc),
            Err(error) => Err(ConfigError::Syntax { message: parse_error_message(&error) }),
        }
    }

    /// The first candidate whose file exists, if any does.
    pub fn first_source(candidates: &Vec<Candidate>) -> (r: Option<usize>)
        ensures
            match r {
                Some(index) => first_existing(candidates@, index as int),
                None => forall|i: int|
                    0 <= i < candidates@.len() ==> (#[trigger] candidates@[i]).content is None,
            },
    {
        let mut i: usize = 0;
        while i < candidates.len()
            invariant
                i <= candidates@.len(),
                forall|j: int| 0 <= j < i ==> (#[trigger] candidates@[j]).content is None,
            decreases candidates@.len() - i,
        {
            if candidates[i].content.is_some() {
                return Some(i);
            }
            i += 1;
        }
        None
    }

    /// The configuration for a run, given the places where a configuration
    /// file is looked for, in order of precedence: the first file that
    /// exists is read, and where none exists the defaults apply.
    pub fn load(candidates: &Vec<Candidate>) -> (r: Result<Config, ConfigError>)
        ensures
            forall|i: int| first_existing(candidates@, i) ==> reads_text(candidates@[i].content->0@, r),
            (forall|i: int| 0 <= i < candidates@.len() ==> (#[trigger] candidates@[i]).content is None)
                ==> (r matches Ok(config) && config@ == default_view()),
    {
        match Config::first_source(candidates) {
            Some(index) => match &candidates[index].content {
                Some(content) => {
                    let r = Config::from_file(content.as_str());
                    assert forall|k: int| first_existing(candidates@, k) implies k == index by {
                        if k < index {
                            assert(candidates@[k].content is None);
                        } else if k > index {
                            assert(candidates@[index as int].content is None);
                        }
                    }
                    r
                },
                None => Ok(Config::default()),
            },
            None => Ok(Config::default()),
        }
    }
}

} // verus!
