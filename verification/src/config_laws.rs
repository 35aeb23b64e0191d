//! Laws of configuration resolution.

use vstd::prelude::*;
use crate::config::{Config, ConfigError, default_view, reads_document};
use crate::decimal::lemma_decimal_reads_back;
use crate::document::Node;
use crate::source::{group_entries, first_mismatch, source_values};
use crate::store::{config_nodes, python_nodes, gcp_nodes, paths_nodes, execution_nodes};

verus! {

/// Whether a document has the group `group` with an entry under `key`.
pub open spec fn specifies(doc: Map<Seq<char>, Node>, group: Seq<char>, key: Seq<char>) -> bool {
    group_entries(doc, group).contains_key(key)
}

/// A configuration read from a document has the built-in default in every
/// field that the document does not specify.
pub proof fn lemma_unspecified_fields_are_defaults(doc: Map<Seq<char>, Node>, config: Config)
    requires
        reads_document(doc, Ok(config)),
    ensures
        !specifies(doc, "python"@, "command"@) ==> config@.command == default_view().command,
        !specifies(doc, "python"@, "agents_path"@) ==> config@.agents_path
            == default_view().agents_path,
        !specifies(doc, "gcp"@, "project_id"@) ==> config@.project_id == default_view().project_id,
        !specifies(doc, "gcp"@, "use_mock"@) ==> config@.use_mock == default_view().use_mock,
        !specifies(doc, "paths"@, "data_dir"@) ==> config@.data_dir == default_view().data_dir,
        !specifies(doc, "paths"@, "output_dir"@) ==> config@.output_dir == default_view().output_dir,
        !specifies(doc, "execution"@, "parallel"@) ==> config@.parallel == default_view().parallel,
        !specifies(doc, "execution"@, "timeout_seconds"@) ==> config@.timeout_seconds
            == default_view().timeout_seconds,
{
}

/// The names of the four groups differ from one another, and so do the two
/// field names of each group.
proof fn lemma_names_differ()
    ensures
        "python"@ != "gcp"@,
        "python"@ != "paths"@,
        "python"@ != "execution"@,
        "gcp"@ != "paths"@,
        "gcp"@ != "execution"@,
        "paths"@ != "execution"@,
        "command"@ != "agents_path"@,
        "project_id"@ != "use_mock"@,
        "data_dir"@ != "output_dir"@,
        "parallel"@ != "timeout_seconds"@,
{
    reveal_strlit("python");
    reveal_strlit("gcp");
    reveal_strlit("paths");
    reveal_strlit("execution");
    reveal_strlit("command");
    reveal_strlit("agents_path");
    reveal_strlit("project_id");
    reveal_strlit("use_mock");
    reveal_strlit("data_dir");
    reveal_strlit("output_dir");
    reveal_strlit("parallel");
    reveal_strlit("timeout_seconds");
    assert("python"@.len() == 6 && "gcp"@.len() == 3 && "paths"@.len() == 5);
    assert("execution"@.len() == 9);
    assert("command"@.len() == 7 && "agents_path"@.len() == 11);
    assert("project_id"@.len() == 10 && "use_mock"@.len() == 8);
    assert("data_dir"@.len() == 8 && "output_dir"@.len() == 10);
    assert("parallel"@.len() == 8 && "timeout_seconds"@.len() == 15);
}

/// Reading the document that holds every field of a configuration gives
/// that configuration back, equal in every field.
pub proof fn lemma_document_round_trip(config: Config, r: Result<Config, ConfigError>)
    requires
        reads_document(config_nodes(config@), r),
    ensures
        r matches Ok(back) && back@ == config@,
{
    lemma_names_differ();
    lemma_decimal_reads_back(config.execution.timeout_seconds as nat);
    let c = config@;
    let doc = config_nodes(c);
    assert(group_entries(doc, "python"@) == python_nodes(c));
    assert(group_entries(doc, "gcp"@) == gcp_nodes(c));
    assert(group_entries(doc, "paths"@) == paths_nodes(c));
    assert(group_entries(doc, "execution"@) == execution_nodes(c));
    assert(first_mismatch(doc) is None);
    assert(source_values(doc).project_id == c.project_id);
}

} // verus!
