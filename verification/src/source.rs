//! What one configuration source specifies, and how it is read from a TOML
//! document: four optional groups, each with two optional fields. Unknown
//! groups and fields are ignored; a value of the wrong type is an error that
//! names the field. A count is an integer, or, beyond the integers of
//! TOML, the text of its decimal digits.

use vstd::prelude::*;
use crate::config::text_view;
use crate::decimal::{large_count, read_large_count};
use crate::document::{Node, table_nodes, table_get, value_as_table, value_as_str, value_as_bool, value_as_integer};

verus! {

/// The fields that a source specifies. `None` stands for a field that the
/// source leaves to the defaults.
#[derive(Debug, Clone, PartialEq, Eq)]
pub struct ConfigSource {
    pub command: Option<String>,
    pub agents_path: Option<String>,
    pub project_id: Option<String>,
    pub use_mock: Option<bool>,
    pub data_dir: Option<String>,
    pub output_dir: Option<String>,
    pub parallel: Option<bool>,
    pub timeout_seconds: Option<u64>,
}

/// A source as mathematical values.
pub struct SourceView {
    pub command: Option<Seq<char>>,
    pub agents_path: Option<Seq<char>>,
    pub project_id: Option<Seq<char>>,
    pub use_mock: Option<bool>,
    pub data_dir: Option<Seq<char>>,
    pub output_dir: Option<Seq<char>>,
    pub parallel: Option<bool>,
    pub timeout_seconds: Option<u64>,
}

impl View for ConfigSource {
    type V = SourceView;

    open spec fn view(&self) -> SourceView {
        SourceView {
            command: text_view(self.command),
            agents_path: text_view(self.agents_path),
            project_id: text_view(self.project_id),
            use_mock: self.use_mock,
            data_dir: text_view(self.data_dir),
            output_dir: text_view(self.output_dir),
            parallel: self.parallel,
            timeout_seconds: self.timeout_seconds,
        }
    }
}

/// The entries of the group `name`, or no entries where the document has no
/// such table.
pub open spec fn group_entries(doc: Map<Seq<char>, Node>, name: Seq<char>) -> Map<Seq<char>, Node> {
    if doc.contains_key(name) && doc[name] is Table {
        doc[name]->Table_0
    } else {
        Map::empty()
    }
}

/// A group is misplaced where its name is bound to something other than a table.
pub open spec fn group_misplaced(doc: Map<Seq<char>, Node>, name: Seq<char>) -> bool {
    doc.contains_key(name) && !(doc[name] is Table)
}

/// The text under `key`, if the entry is a string.
pub open spec fn text_at(entries: Map<Seq<char>, Node>, key: Seq<char>) -> Option<Seq<char>> {
    if entries.contains_key(key) && entries[key] is Text {
        Some(entries[key]->Text_0)
    } else {
        None
    }
}

/// The boolean under `key`, if the entry is one.
pub open spec fn flag_at(entries: Map<Seq<char>, Node>, key: Seq<char>) -> Option<bool> {
    if entries.contains_key(key) && entries[key] is Flag {
        Some(entries[key]->Flag_0)
    } else {
        None
    }
}

/// The count that a value stands for: an integer that is not negative,
/// or the decimal form of a count beyond `i64::MAX`.
pub open spec fn count_of(node: Node) -> Option<u64> {
    match node {
        Node::Integer(number) => if 0 <= number <= u64::MAX {
            Some(number as u64)
        } else {
            None
        },
        Node::Text(text) => large_count(text),
        _ => None,
    }
}

/// The count under `key`, if the entry stands for one.
pub open spec fn count_at(entries: Map<Seq<char>, Node>, key: Seq<char>) -> Option<u64> {
    if entries.contains_key(key) {
        count_of(entries[key])
    } else {
        None
    }
}

/// An entry is present and its value is not what the field takes.
pub open spec fn text_mismatch(entries: Map<Seq<char>, Node>, key: Seq<char>) -> bool {
    entries.contains_key(key) && text_at(entries, key) is None
}

pub open spec fn flag_mismatch(entries: Map<Seq<char>, Node>, key: Seq<char>) -> bool {
    entries.contains_key(key) && flag_at(entries, key) is None
}

pub open spec fn count_mismatch(entries: Map<Seq<char>, Node>, key: Seq<char>) -> bool {
    entries.contains_key(key) && count_at(entries, key) is None
}

/// The fields that a document specifies with a value of the right type.
pub open spec fn source_values(doc: Map<Seq<char>, Node>) -> SourceView {
    SourceView {
        command: text_at(group_entries(doc, "python"@), "command"@),
        agents_path: text_at(group_entries(doc, "python"@), "agents_path"@),
        project_id: text_at(group_entries(doc, "gcp"@), "project_id"@),
        use_mock: flag_at(group_entries(doc, "gcp"@), "use_mock"@),
        data_dir: text_at(group_entries(doc, "paths"@), "data_dir"@),
        output_dir: text_at(group_entries(doc, "paths"@), "output_dir"@),
        parallel: flag_at(group_entries(doc, "execution"@), "parallel"@),
        timeout_seconds: count_at(group_entries(doc, "execution"@), "timeout_seconds"@),
    }
}

/// The first group or field, in the order of the configuration's
/// declaration, whose value has the wrong type.
pub open spec fn first_mismatch(doc: Map<Seq<char>, Node>) -> Option<Seq<char>> {
    if group_misplaced(doc, "python"@) {
        Some("python"@)
    } else if text_mismatch(group_entries(doc, "python"@), "command"@) {
        Some("python.command"@)
    } else if text_mismatch(group_entries(doc, "python"@), "agents_path"@) {
        Some("python.agents_path"@)
    } else if group_misplaced(doc, "gcp"@) {
        Some("gcp"@)
    } else if text_mismatch(group_entries(doc, "gcp"@), "project_id"@) {
        Some("gcp.project_id"@)
    } else if flag_mismatch(group_entries(doc, "gcp"@), "use_mock"@) {
        Some("gcp.use_mock"@)
    } else if group_misplaced(doc, "paths"@) {
        Some("paths"@)
    } else if text_mismatch(group_entries(doc, "paths"@), "data_dir"@) {
        Some("paths.data_dir"@)
    } else if text_mismatch(group_entries(doc, "paths"@), "output_dir"@) {
        Some("paths.output_dir"@)
    } else if group_misplaced(doc, "execution"@) {
        Some("execution"@)
    } else if flag_mismatch(group_entries(doc, "execution"@), "parallel"@) {
        Some("execution.parallel"@)
    } else if count_mismatch(group_entries(doc, "execution"@), "timeout_seconds"@) {
        Some("execution.timeout_seconds"@)
    } else {
        None
    }
}

/// A group as read from a table: its entries, if the table has the group.
struct Group<'a> {
    table: Option<&'a toml::map::Map<String, toml::Value>>,
}

impl<'a> Group<'a> {
    spec fn entries(self) -> Map<Seq<char>, Node> {
        match self.table {
            Some(t) => table_nodes(*t),
            None => Map::empty(),
        }
    }

    /// The group `name` of `doc`; `None` where the name is bound to
    /// something other than a table.
    fn open(doc: &'a toml::map::Map<String, toml::Value>, name: &str) -> (r: Option<Group<'a>>)
        ensures
            r is None <==> group_misplaced(table_nodes(*doc), name@),
            r matches Some(g) ==> g.entries() == group_entries(table_nodes(*doc), name@),
    {
        match table_get(doc, name) {
            None => Some(Group { table: None }),
            Some(value) => match value_as_table(value) {
                Some(t) => Some(Group { table: Some(t) }),
                None => None,
            },
        }
    }

    /// The text under `key`; `Err` where the entry is no string.
    fn text(&self, key: &str) -> (r: Result<Option<String>, ()>)
        ensures
            r is Err <==> text_mismatch(self.entries(), key@),
            r matches Ok(v) ==> text_view(v) == text_at(self.entries(), key@),
    {
        match self.table {
            None => Ok(None),
            Some(t) => match table_get(t, key) {
                None => Ok(None),
                Some(value) => match value_as_str(value) {
                    Some(s) => Ok(Some(s.to_owned())),
                    None => Err(()),
                },
            },
        }
    }

    /// The boolean under `key`; `Err` where the entry is no boolean.
    fn flag(&self, key: &str) -> (r: Result<Option<bool>, ()>)
        ensures
            r is Err <==> flag_mismatch(self.entries(), key@),
            r matches Ok(v) ==> v == flag_at(self.entries(), key@),
    {
        match self.table {
            None => Ok(None),
            Some(t) => match table_get(t, key) {
                None => Ok(None),
                Some(value) => match value_as_bool(value) {
                    Some(b) => Ok(Some(b)),
                    None => Err(()),
                },
            },
        }
    }

    /// The count under `key`; `Err` where the entry stands for no count.
    fn count(&self, key: &str) -> (r: Result<Option<u64>, ()>)
        ensures
            r is Err <==> count_mismatch(self.entries(), key@),
            r matches Ok(v) ==> v == count_at(self.entries(), key@),
    {
        match self.table {
            None => Ok(None),
            Some(t) => match table_get(t, key) {
                None => Ok(None),
                Some(value) => match value_as_integer(value) {
                    Some(n) => if n >= 0 {
                        Ok(Some(n as u64))
                    } else {
                        Err(())
                    },
                    None => match value_as_str(value) {
                        Some(text) => match read_large_count(text) {
                            Some(n) => Ok(Some(n)),
                            None => Err(()),
                        },
                        None => Err(()),
                    },
                },
            },
        }
    }
}

impl ConfigSource {
    /// Reads the fields that a TOML document specifies. Fails with the name
    /// of the first group or field whose value has the wrong type.
    pub fn from_table(doc: &toml::map::Map<String, toml::Value>) -> (r: Result<ConfigSource, String>)
        ensures
            match first_mismatch(table_nodes(*doc)) {
                Some(field) => r matches Err(name) && name@ == field,
                None => r matches Ok(source) && source@ == source_values(table_nodes(*doc)),
            },
    {
        let python = match Group::open(doc, "python") {
            Some(g) => g,
            None => { return Err("python".to_owned()); },
        };
        let command = match python.text("command") {
            Ok(v) => v,
            Err(_) => { return Err("python.command".to_owned()); },
        };
        let agents_path = match python.text("agents_path") {
            Ok(v) => v,
            Err(_) => { return Err("python.agents_path".to_owned()); },
        };
        let gcp = match Group::open(doc, "gcp") {
            Some(g) => g,
            None => { return Err("gcp".to_owned()); },
        };
        let project_id = match gcp.text("project_id") {
            Ok(v) => v,
            Err(_) => { return Err("gcp.project_id".to_owned()); },
        };
        let use_mock = match gcp.flag("use_mock") {
            Ok(v) => v,
            Err(_) => { return Err("gcp.use_mock".to_owned()); },
        };
        let paths = match Group::open(doc, "paths") {
            Some(g) => g,
            None => { return Err("paths".to_owned()); },
        };
        let data_dir = match paths.text("data_dir") {
            Ok(v) => v,
            Err(_) => { return Err("paths.data_dir".to_owned()); },
        };
        let output_dir = match paths.text("output_dir") {
            Ok(v) => v,
            Err(_) => { return Err("paths.output_dir".to_owned()); },
        };
        let execution = match Group::open(doc, "execution") {
            Some(g) => g,
            None => { return Err("execution".to_owned()); },
        };
        let parallel = match execution.flag("parallel") {
            Ok(v) => v,
            Err(_) => { return Err("execution.parallel".to_owned()); },
        };
        let timeout_seconds = match execution.count("timeout_seconds") {
            Ok(v) => v,
            Err(_) => { return Err("execution.timeout_seconds".to_owned()); },
        };
        Ok(ConfigSource {
            command,
            agents_path,
            project_id,
            use_mock,
            data_dir,
            output_dir,
            parallel,
            timeout_seconds,
        })
    }
}

} // verus!
