//! The command lines of a build: one compiler run for each source file that
//! has to be compiled, and one linker run at the end.

use vstd::prelude::*;
use crate::BuildMode;
use crate::layout::{executable, executable_path, object_file, object_path};
use crate::project::{Lang, Toolchain, ToolchainView};
use crate::scan::{SourceEntry, SourceEntryView};
use crate::views::{lemma_views_push, lemma_views_take, views};

verus! {

/// A program to run and the arguments to run it with.
#[derive(Debug, Clone, PartialEq, Eq)]
pub struct Invocation {
    pub program: String,
    pub args: Vec<String>,
}

/// [`Invocation`] as a mathematical value.
pub struct InvocationView {
    pub program: Seq<char>,
    pub args: Seq<Seq<char>>,
}

impl View for Invocation {
    type V = InvocationView;

    open spec fn view(&self) -> InvocationView {
        InvocationView { program: self.program@, args: views(self.args@) }
    }
}

/// The compiler run that turns `source` into its object file: the compiler
/// of the source's language, told the optimisation level of `mode`, to keep
/// debug information, to compile without linking, what to read and where to
/// write.
pub open spec fn compile_invocation(
    toolchain: ToolchainView,
    mode: BuildMode,
    root: Seq<char>,
    source: SourceEntryView,
) -> InvocationView {
    InvocationView {
        program: source.language.compiler(toolchain),
        args: seq![
            mode.flag(),
            "-g"@,
            "-c"@,
            source.path,
            "-o"@,
            object_path(root, mode, source.name),
        ],
    }
}

/// The linker run that turns `objects` into the executable of `project`. The
/// C compiler links, whatever the languages of the sources were.
pub open spec fn link_invocation(
    toolchain: ToolchainView,
    mode: BuildMode,
    root: Seq<char>,
    project: Seq<char>,
    objects: Seq<Seq<char>>,
) -> InvocationView {
    InvocationView {
        program: toolchain.cc,
        args: objects + seq![mode.flag(), "-o"@, executable_path(root, mode, project)],
    }
}

pub fn compile_command(toolchain: &Toolchain, mode: BuildMode, root: &str, source: &SourceEntry) -> (command:
    Invocation)
    ensures
        command@ == compile_invocation(toolchain@, mode, root@, source@),
{
    let program = String::from_str(source.language.get_compiler(toolchain));
    let mut args: Vec<String> = Vec::new();
    args.push(String::from_str(mode.to_flag()));
    args.push(String::from_str("-g"));
    args.push(String::from_str("-c"));
    args.push(source.path.clone());
    args.push(String::from_str("-o"));
    args.push(object_file(root, mode, source.name.as_str()));
    assert(views(args@) =~= compile_invocation(toolchain@, mode, root@, source@).args);
    Invocation { program, args }
}

pub fn link_command(
    toolchain: &Toolchain,
    mode: BuildMode,
    root: &str,
    project: &str,
    objects: &Vec<String>,
) -> (command: Invocation)
    ensures
        command@ == link_invocation(toolchain@, mode, root@, project@, views(objects@)),
{
    let program = toolchain.cc.clone();
    let mut args: Vec<String> = Vec::new();
    let mut i: usize = 0;
    while i < objects.len()
        invariant
            i <= objects.len(),
            views(args@) == views(objects@).take(i as int),
        decreases objects.len() - i,
    {
        let object = objects[i].clone();
        proof {
            lemma_views_push(args@, object);
            lemma_views_take(objects@, i as int);
        }
        args.push(object);
        i += 1;
    }
    assert(views(objects@).take(objects.len() as int) =~= views(objects@));
    args.push(String::from_str(mode.to_flag()));
    args.push(String::from_str("-o"));
    args.push(executable(root, mode, project));
    assert(views(args@) =~= link_invocation(
        toolchain@,
        mode,
        root@,
        project@,
        views(objects@),
    ).args);
    Invocation { program, args }
}

} // verus!
