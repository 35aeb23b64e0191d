//! Checks that a caller may make before it runs the pipeline. The caller
//! asks the system; the verdict on what it found is given here.

use vstd::prelude::*;
use crate::paths::{join_path, joined};
use crate::stage::{Stage, texts};

verus! {

/// Why a run cannot start.
#[derive(Debug, Clone, PartialEq, Eq)]
pub enum ValidationError {
    /// The interpreter could not be started, or did not answer the
    /// question for its version with status zero.
    InterpreterUnavailable { command: String },
    /// A stage's script is not where it is expected.
    StageScriptMissing { path: String },
}

/// The stage at a position of the pipeline.
pub open spec fn stage_at(position: int) -> Stage {
    if position == 0 {
        Stage::Collect
    } else if position == 1 {
        Stage::Explain
    } else {
        Stage::Report
    }
}

/// Where the script of the stage at `position` is expected.
pub open spec fn script_at(agents_path: Seq<char>, position: int) -> Seq<char> {
    joined(agents_path, stage_at(position).script_text())
}

/// Whether the script at `position` was found. A position beyond the
/// answers counts as not found.
pub open spec fn found(exists: Seq<bool>, position: int) -> bool {
    0 <= position < exists.len() && exists[position]
}

/// The arguments with which the interpreter is asked for its version.
pub fn version_query() -> (r: Vec<String>)
    ensures
        texts(r) == seq!["--version"@],
{
    let mut args: Vec<String> = Vec::new();
    args.push("--version".to_owned());
    assert(texts(args) =~= seq!["--version"@]);
    args
}

/// The verdict on the interpreter, given how the question for its version
/// ended: `None` where it could not be started, and otherwise whether it
/// exited with status zero.
pub fn check_python_available(python_cmd: &str, exited_ok: Option<bool>) -> (r: Result<
    (),
    ValidationError,
>)
    ensures
        exited_ok == Some(true) ==> r is Ok,
        exited_ok != Some(true) ==> (r matches Err(ValidationError::InterpreterUnavailable { command })
            && command@ == python_cmd@),
{
    match exited_ok {
        Some(true) => Ok(()),
        _ => Err(ValidationError::InterpreterUnavailable { command: python_cmd.to_owned() }),
    }
}

/// Where the three stage scripts are expected, in the order of the stages.
pub fn stage_scripts(agents_path: &str) -> (r: Vec<String>)
    ensures
        texts(r) == Seq::new(3, |i: int| script_at(agents_path@, i)),
{
    let mut scripts: Vec<String> = Vec::new();
    scripts.push(join_path(agents_path, Stage::Collect.script()));
    scripts.push(join_path(agents_path, Stage::Explain.script()));
    scripts.push(join_path(agents_path, Stage::Report.script()));
    assert(texts(scripts) =~= Seq::new(3, |i: int| script_at(agents_path@, i)));
    scripts
}

/// The verdict on the stage scripts, given for each of them, in the order
/// of the stages, whether it exists: the first one that does not is
/// reported as missing.
pub fn check_agents_exist(agents_path: &str, exists: &Vec<bool>) -> (r: Result<(), ValidationError>)
    ensures
        r is Ok <==> forall|i: int| 0 <= i < 3 ==> found(exists@, i),
        r matches Err(e) ==> exists|i: int|
            0 <= i < 3 && !found(exists@, i) && (forall|j: int| 0 <= j < i ==> found(exists@, j))
                && (e matches ValidationError::StageScriptMissing { path } && path@ == script_at(
                agents_path@,
                i,
            )),
{
    if !(exists.len() > 0 && exists[0]) {
        assert(!found(exists@, 0));
        return Err(
            ValidationError::StageScriptMissing {
                path: join_path(agents_path, Stage::Collect.script()),
            },
        );
    }
    if !(exists.len() > 1 && exists[1]) {
        assert(!found(exists@, 1));
        return Err(
            ValidationError::StageScriptMissing {
                path: join_path(agents_path, Stage::Explain.script()),
            },
        );
    }
    if !(exists.len() > 2 && exists[2]) {
        assert(!found(exists@, 2));
        return Err(
            ValidationError::StageScriptMissing {
                path: join_path(agents_path, Stage::Report.script()),
            },
        );
    }
    Ok(())
}

} // verus!
