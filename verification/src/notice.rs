//! What the tool tells its user when a step has gone well. The word that
//! opens a notice is shown in bold green.

use vstd::prelude::*;

verus! {

/// The notice that the source file at `path` was compiled.
pub open spec fn compiled_source(path: Seq<char>) -> Seq<char> {
    "    \x1b[1;32mCompiled\x1b[0m "@ + path
}

/// The notice that the executable of the project called `project` was
/// linked.
pub open spec fn compiled_project(project: Seq<char>) -> Seq<char> {
    "    \x1b[1;32mCompiled\x1b[0m '"@ + project + "'"@
}

/// The notice that the executable at `path` is about to run.
pub open spec fn running(path: Seq<char>) -> Seq<char> {
    "    \x1b[1;32mRunning\x1b[0m "@ + path
}

/// The notice that a new project was made in the directory `path`.
pub open spec fn created_project(path: Seq<char>) -> Seq<char> {
    "\x1b[1;32mSuccess:\x1b[0m Created project '"@ + path + "'"@
}

/// The notice that the source file at `path` was compiled.
pub fn source_compiled(path: &str) -> (notice: String)
    ensures
        notice@ == compiled_source(path@),
{
    let mut notice = String::from_str("    \x1b[1;32mCompiled\x1b[0m ");
    notice.append(path);
    notice
}

/// The notice that the executable of the project called `project` was
/// linked.
pub fn project_compiled(project: &str) -> (notice: String)
    ensures
        notice@ == compiled_project(project@),
{
    let mut notice = String::from_str("    \x1b[1;32mCompiled\x1b[0m '");
    notice.append(project);
    notice.append("'");
    notice
}

/// The notice that the executable at `path` is about to run.
pub fn now_running(path: &str) -> (notice: String)
    ensures
        notice@ == running(path@),
{
    let mut notice = String::from_str("    \x1b[1;32mRunning\x1b[0m ");
    notice.append(path);
    notice
}

/// The notice that a new project was made in the directory `path`.
pub fn project_created(path: &str) -> (notice: String)
    ensures
        notice@ == created_project(path@),
{
    let mut notice = String::from_str("\x1b[1;32mSuccess:\x1b[0m Created project '");
    notice.append(path);
    notice.append("'");
    notice
}

} // verus!
