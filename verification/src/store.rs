//! Writing a configuration as a TOML document, and the law that reading the
//! document back gives the same configuration.

use vstd::prelude::*;
use crate::config::{Config, ConfigError, ConfigView};
use crate::decimal::{decimal, to_decimal};
use crate::document::{Node, no_entries, table_nodes, table_new, table_insert, text_value, flag_value, integer_value, table_value, groups_of_scalars, scalars_only, rendered_document, render_table, render_error_message};

verus! {

pub open spec fn python_nodes(c: ConfigView) -> Map<Seq<char>, Node> {
    no_entries().insert("command"@, Node::Text(c.command)).insert(
        "agents_path"@,
        Node::Text(c.agents_path),
    )
}

/// The project identifier is written only where the configuration has one.
pub open spec fn gcp_nodes(c: ConfigView) -> Map<Seq<char>, Node> {
    let named = match c.project_id {
        Some(id) => no_entries().insert("project_id"@, Node::Text(id)),
        None => no_entries(),
    };
    named.insert("use_mock"@, Node::Flag(c.use_mock))
}

pub open spec fn paths_nodes(c: ConfigView) -> Map<Seq<char>, Node> {
    no_entries().insert("data_dir"@, Node::Text(c.data_dir)).insert(
        "output_dir"@,
        Node::Text(c.output_dir),
    )
}

/// How a count is written: as an integer up to `i64::MAX`, the largest
/// integer of TOML, and beyond it as the text of its decimal digits.
pub open spec fn count_node(count: u64) -> Node {
    if count <= i64::MAX {
        Node::Integer(count as int)
    } else {
        Node::Text(decimal(count as nat))
    }
}

pub open spec fn execution_nodes(c: ConfigView) -> Map<Seq<char>, Node> {
    no_entries().insert("parallel"@, Node::Flag(c.parallel)).insert(
        "timeout_seconds"@,
        count_node(c.timeout_seconds),
    )
}

/// The document that holds every field of a configuration.
pub open spec fn config_nodes(c: ConfigView) -> Map<Seq<char>, Node> {
    no_entries().insert("python"@, Node::Table(python_nodes(c))).insert(
        "gcp"@,
        Node::Table(gcp_nodes(c)),
    ).insert("paths"@, Node::Table(paths_nodes(c))).insert(
        "execution"@,
        Node::Table(execution_nodes(c)),
    )
}

/// What writing a configuration gives: the text that `toml` writes for
/// the configuration's document.
pub open spec fn writes_text(c: ConfigView, r: Result<String, ConfigError>) -> bool {
    match rendered_document(config_nodes(c)) {
        Some(text) => r matches Ok(t) && t@ == text,
        None => r matches Err(ConfigError::Render { .. }),
    }
}

impl Config {
    /// The TOML document that holds every field of this configuration.
    pub fn to_table(&self) -> (r: toml::map::Map<String, toml::Value>)
        ensures
            table_nodes(r) == config_nodes(self@),
    {
        let timeout = if self.execution.timeout_seconds <= 0x7fff_ffff_ffff_ffff {
            integer_value(self.execution.timeout_seconds as i64)
        } else {
            text_value(to_decimal(self.execution.timeout_seconds))
        };

        let mut python = table_new();
        table_insert(&mut python, "command".to_owned(), text_value(self.python.command.clone()));
        table_insert(
            &mut python,
            "agents_path".to_owned(),
            text_value(self.python.agents_path.clone()),
        );

        let mut gcp = table_new();
        match &self.gcp.project_id {
            Some(id) => {
                table_insert(&mut gcp, "project_id".to_owned(), text_value(id.clone()));
            },
            None => {},
        }
        table_insert(&mut gcp, "use_mock".to_owned(), flag_value(self.gcp.use_mock));

        let mut paths = table_new();
        table_insert(&mut paths, "data_dir".to_owned(), text_value(self.paths.data_dir.clone()));
        table_insert(
            &mut paths,
            "output_dir".to_owned(),
            text_value(self.paths.output_dir.clone()),
        );

        let mut execution = table_new();
        table_insert(&mut execution, "parallel".to_owned(), flag_value(self.execution.parallel));
        table_insert(&mut execution, "timeout_seconds".to_owned(), timeout);

        let mut doc = table_new();
        table_insert(&mut doc, "python".to_owned(), table_value(python));
        table_insert(&mut doc, "gcp".to_owned(), table_value(gcp));
        table_insert(&mut doc, "paths".to_owned(), table_value(paths));
        table_insert(&mut doc, "execution".to_owned(), table_value(execution));
        doc
    }

    /// The text of the configuration file that holds every field of this
    /// configuration.
    pub fn save(&self) -> (r: Result<String, ConfigError>)
        ensures
            writes_text(self@, r),
    {
        let doc = self.to_table();
        proof {
            lemma_config_nodes_are_groups(self@);
        }
        match render_table(&doc) {
            Ok(text) => Ok(text),
            Err(error) => Err(ConfigError::Render { message: render_error_message(&error) }),
        }
    }
}

/// Every entry of a configuration's document is a group of scalars.
pub proof fn lemma_config_nodes_are_groups(c: ConfigView)
    ensures
        groups_of_scalars(config_nodes(c)),
{
    assert(scalars_only(python_nodes(c)));
    assert(scalars_only(gcp_nodes(c)));
    assert(scalars_only(paths_nodes(c)));
    assert(scalars_only(execution_nodes(c)));
}

} // verus!
