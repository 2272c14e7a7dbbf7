//! Where a project keeps its files: the sources under `src/`, and under
//! `bin/<mode>/` the object files and the executable of each mode.

use vstd::prelude::*;
use crate::BuildMode;
use crate::path::{join, joined, lemma_joined_ends_like_name};

verus! {

/// The directory of the source files.
pub open spec fn src_dir(root: Seq<char>) -> Seq<char> {
    joined(root, "src"@)
}

/// The directory that holds everything a build in `mode` produces.
pub open spec fn out_dir(root: Seq<char>, mode: BuildMode) -> Seq<char> {
    joined(joined(root, "bin"@), mode.dir_name())
}

/// The name of the object file of the source file called `source_name`.
pub open spec fn object_name(source_name: Seq<char>) -> Seq<char> {
    source_name + ".o"@
}

/// The object file of the source file called `source_name`.
pub open spec fn object_path(root: Seq<char>, mode: BuildMode, source_name: Seq<char>) -> Seq<
    char,
> {
    joined(out_dir(root, mode), object_name(source_name))
}

/// The executable of the project called `project`.
pub open spec fn executable_path(root: Seq<char>, mode: BuildMode, project: Seq<char>) -> Seq<
    char,
> {
    joined(out_dir(root, mode), project)
}

/// The directory of the source files of the project at `root`.
pub fn source_directory(root: &str) -> (dir: String)
    ensures
        dir@ == src_dir(root@),
{
    join(root, "src")
}

/// The directory that holds everything a build in `mode` produces.
pub fn output_directory(root: &str, mode: BuildMode) -> (dir: String)
    ensures
        dir@ == out_dir(root@, mode),
{
    let bin = join(root, "bin");
    let name = mode.to_string();
    join(bin.as_str(), name.as_str())
}

/// The object file of the source file called `source_name`.
pub fn object_file(root: &str, mode: BuildMode, source_name: &str) -> (path: String)
    ensures
        path@ == object_path(root@, mode, source_name@),
{
    let dir = output_directory(root, mode);
    let mut name = String::from_str(source_name);
    name.append(".o");
    join(dir.as_str(), name.as_str())
}

/// The executable of the project called `project`.
pub fn executable(root: &str, mode: BuildMode, project: &str) -> (path: String)
    ensures
        path@ == executable_path(root@, mode, project@),
{
    let dir = output_directory(root, mode);
    join(dir.as_str(), project)
}

/// The output directory of a mode is not the empty path and does not end in
/// `/`: whatever is joined to it lies in it.
pub proof fn lemma_out_dir_is_a_directory(root: Seq<char>, mode: BuildMode)
    ensures
        out_dir(root, mode).len() > 0,
        out_dir(root, mode).last() != '/',
{
    reveal_strlit("debug");
    reveal_strlit("release");
    lemma_joined_ends_like_name(joined(root, "bin"@), mode.dir_name());
}

} // verus!
