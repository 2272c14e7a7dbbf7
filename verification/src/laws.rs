//! What every build guarantees, proved of the decisions in
//! [`crate::orchestrator`].
//!
//! The laws speak of a build as a mathematical value and of the events that
//! reach it, whatever they are: nothing is assumed of the file system or of
//! the compiler beyond what each event itself says. A run is a list of
//! events; moment `n` of a run is the build after its first `n` events.

use vstd::prelude::*;
use crate::BuildMode;
use crate::command::link_invocation;
use crate::error::BuildErrorView;
use crate::layout::{lemma_out_dir_is_a_directory, object_name, object_path, out_dir, src_dir};
use crate::notice::compiled_project;
use crate::orchestrator::{ActionView, BuildView, EventView, PhaseView};
use crate::path::{extension_of, joined, lemma_joined_lies_in, lies_in};
use crate::scan::{collected, lemma_collected_lie_in, lemma_scanned_sources, DirEntryView};
use crate::stale::{stale, Timestamp};

verus! {

/// The build after the given events have reached it, one after the other.
pub open spec fn run(build: BuildView, events: Seq<EventView>) -> BuildView
    decreases events.len(),
{
    if events.len() == 0 {
        build
    } else {
        run(build, events.drop_last()).advance(events.last())
    }
}

/// The build after the first `n` of the given events.
pub open spec fn run_to(build: BuildView, events: Seq<EventView>, n: int) -> BuildView {
    run(build, events.take(n))
}

/// How far a build has come, as a number that grows with every event until
/// the build is over.
pub open spec fn progress(build: BuildView) -> nat {
    match build.phase {
        PhaseView::Scanning => 0,
        PhaseView::Preparing => 1,
        PhaseView::Checking { index } => 2 + 2 * index,
        PhaseView::Compiling { index } => 3 + 2 * index,
        PhaseView::Collecting => 2 + 2 * build.sources.len(),
        PhaseView::Linking => 3 + 2 * build.sources.len(),
        PhaseView::Done => 4 + 2 * build.sources.len(),
        PhaseView::Failed(_) => 4 + 2 * build.sources.len(),
    }
}

/// How many of its sources a build has come to check.
pub open spec fn reached(build: BuildView) -> nat {
    match build.phase {
        PhaseView::Scanning => 0,
        PhaseView::Preparing => 0,
        PhaseView::Checking { index } => index + 1,
        PhaseView::Compiling { index } => index + 1,
        PhaseView::Collecting => build.sources.len(),
        PhaseView::Linking => build.sources.len(),
        PhaseView::Done => build.sources.len(),
        PhaseView::Failed(_) => 0,
    }
}

/// Whether `event` tells `build`, which checks a source, that the source is
/// stale: its object file is missing or older than the source.
pub open spec fn tells_stale(build: BuildView, event: EventView) -> bool {
    &&& build.phase matches PhaseView::Checking { index }
    &&& event matches EventView::Object(object)
    &&& stale(build.sources[index as int].modified, object)
}

/// Whether `event` tells `build`, which checks a source, that the source is
/// up to date: its object file is there and no older than the source.
pub open spec fn tells_fresh(build: BuildView, event: EventView) -> bool {
    &&& build.phase matches PhaseView::Checking { index }
    &&& event matches EventView::Object(object)
    &&& !stale(build.sources[index as int].modified, object)
}

/// One event more is one step more.
pub proof fn lemma_run_step(build: BuildView, events: Seq<EventView>, n: int)
    requires
        0 <= n < events.len(),
    ensures
        run_to(build, events, n + 1) == run_to(build, events, n).advance(events[n]),
        run_to(build, events, 0) == build,
{
    assert(events.take(n + 1).drop_last() =~= events.take(n));
}

/// A well-formed build stays well formed, whatever reaches it.
pub proof fn lemma_advance_keeps_wf(build: BuildView, event: EventView)
    requires
        build.wf(),
    ensures
        build.advance(event).wf(),
{
    match build.phase {
        PhaseView::Scanning => {
            if let EventView::Listed(entries) = event {
                lemma_scanned_sources(src_dir(build.root), entries);
            }
        },
        PhaseView::Collecting => {
            if let EventView::Listed(entries) = event {
                lemma_out_dir_is_a_directory(build.root, build.mode);
                lemma_collected_lie_in(out_dir(build.root, build.mode), entries);
            }
        },
        _ => {},
    }
}

/// A well-formed build stays well formed through any run of events.
pub proof fn lemma_run_keeps_wf(build: BuildView, events: Seq<EventView>, n: int)
    requires
        build.wf(),
        0 <= n <= events.len(),
    ensures
        run_to(build, events, n).wf(),
    decreases n,
{
    if n > 0 {
        lemma_run_keeps_wf(build, events, n - 1);
        lemma_run_step(build, events, n - 1);
        lemma_advance_keeps_wf(run_to(build, events, n - 1), events[n - 1]);
    }
}

/// Every event moves a build that is not over strictly forward, and none
/// moves a build that is over. Once the scan is done the sources stay.
pub proof fn lemma_advance_makes_progress(build: BuildView, event: EventView)
    requires
        build.wf(),
    ensures
        build.phase.is_final() ==> build.advance(event) == build,
        !build.phase.is_final() ==> progress(build.advance(event)) > progress(build),
        !(build.phase is Scanning) ==> build.advance(event).sources == build.sources,
{
}

/// A build never goes back: of two moments in a run, the later one has come
/// further, unless the build was over by then.
pub proof fn lemma_run_makes_progress(build: BuildView, events: Seq<EventView>, j: int, k: int)
    requires
        build.wf(),
        0 <= j <= k <= events.len(),
        !run_to(build, events, k).phase.is_final(),
    ensures
        !run_to(build, events, j).phase.is_final(),
        progress(run_to(build, events, j)) <= progress(run_to(build, events, k)),
        j < k ==> progress(run_to(build, events, j)) < progress(run_to(build, events, k)),
    decreases k - j,
{
    if j < k {
        lemma_run_step(build, events, k - 1);
        lemma_run_keeps_wf(build, events, k - 1);
        lemma_advance_makes_progress(run_to(build, events, k - 1), events[k - 1]);
        lemma_run_makes_progress(build, events, j, k - 1);
    }
}

/// A build that is over stays as it is, whatever reaches it, and asks for
/// nothing.
pub proof fn lemma_over_is_over(build: BuildView, events: Seq<EventView>)
    requires
        build.phase.is_final(),
    ensures
        run(build, events) == build,
        run(build, events).request() == ActionView::Stop,
    decreases events.len(),
{
    if events.len() > 0 {
        lemma_over_is_over(build, events.drop_last());
    }
}

/// A build checks its sources one by one, in the order of the listing: each
/// source that it has come to was checked at some moment of the run.
pub proof fn lemma_sources_are_checked_in_order(
    build: BuildView,
    events: Seq<EventView>,
    n: int,
    index: nat,
)
    requires
        build.wf(),
        build.phase is Scanning,
        0 <= n <= events.len(),
        index < reached(run_to(build, events, n)),
    ensures
        exists|k: int|
            0 <= k <= n && (#[trigger] run_to(build, events, k)).phase == (PhaseView::Checking {
                index,
            }),
    decreases n,
{
    if n > 0 {
        lemma_run_step(build, events, n - 1);
        lemma_run_keeps_wf(build, events, n - 1);
        if index < reached(run_to(build, events, n - 1)) {
            lemma_sources_are_checked_in_order(build, events, n - 1, index);
        }
    }
}

/// The compiler is asked for when a source is stale and at no other time: an
/// event brings a build to compile exactly if the build was checking a
/// source and the event tells that this source is stale, and the build then
/// compiles this source.
pub proof fn law_compiles_exactly_the_stale(build: BuildView, event: EventView)
    requires
        build.wf(),
    ensures
        build.advance(event).phase is Compiling <==> tells_stale(build, event),
        tells_stale(build, event) ==> build.advance(event).phase == (PhaseView::Compiling {
            index: build.phase->Checking_index,
        }),
        tells_stale(build, event) ==> build.advance(event).request() == build.compile_request(
            build.phase->Checking_index,
        ),
{
}

/// A stale source is compiled exactly once: if the build is told at moment
/// `k`, while it checks the source at `index`, that this source is stale,
/// then its next request is the compiler run for this source, and moment
/// `k + 1` is the only moment of the run at which it compiles this source.
pub proof fn law_stale_source_is_compiled_once(
    build: BuildView,
    events: Seq<EventView>,
    k: int,
    m: int,
    index: nat,
)
    requires
        build.wf(),
        0 <= k < events.len(),
        0 <= m <= events.len(),
        run_to(build, events, k).phase == (PhaseView::Checking { index }),
        tells_stale(run_to(build, events, k), events[k]),
    ensures
        run_to(build, events, k + 1).request() == run_to(build, events, k).compile_request(index),
        run_to(build, events, m).phase == (PhaseView::Compiling { index }) <==> m == k + 1,
{
    lemma_run_step(build, events, k);
    lemma_run_keeps_wf(build, events, k);
    law_compiles_exactly_the_stale(run_to(build, events, k), events[k]);
    if m != k + 1 && run_to(build, events, m).phase == (PhaseView::Compiling { index }) {
        if m < k + 1 {
            lemma_run_makes_progress(build, events, m, k + 1);
        } else {
            lemma_run_makes_progress(build, events, k + 1, m);
        }
    }
}

/// No source is compiled twice: of two moments of a run, at most one finds
/// the build compiling the source at `index`.
pub proof fn law_compiles_no_source_twice(
    build: BuildView,
    events: Seq<EventView>,
    j: int,
    k: int,
    index: nat,
)
    requires
        build.wf(),
        0 <= j < k <= events.len(),
        run_to(build, events, j).phase == (PhaseView::Compiling { index }),
    ensures
        run_to(build, events, k).phase != (PhaseView::Compiling { index }),
{
    if run_to(build, events, k).phase == (PhaseView::Compiling { index }) {
        lemma_run_makes_progress(build, events, j, k);
    }
}

/// A source that is up to date is not compiled: if the build is told at
/// moment `k`, while it checks the source at `index`, that the object file
/// of this source is there and no older than the source, then at no moment
/// `m` of the run does it compile this source.
pub proof fn law_up_to_date_source_is_not_compiled(
    build: BuildView,
    events: Seq<EventView>,
    k: int,
    m: int,
    index: nat,
)
    requires
        build.wf(),
        0 <= k < events.len(),
        0 <= m <= events.len(),
        run_to(build, events, k).phase == (PhaseView::Checking { index }),
        tells_fresh(run_to(build, events, k), events[k]),
    ensures
        run_to(build, events, m).phase != (PhaseView::Compiling { index }),
{
    lemma_run_step(build, events, k);
    lemma_run_keeps_wf(build, events, k);
    lemma_run_keeps_wf(build, events, k + 1);
    if run_to(build, events, m).phase == (PhaseView::Compiling { index }) {
        if m <= k {
            lemma_run_makes_progress(build, events, m, k);
        } else {
            lemma_run_makes_progress(build, events, k + 1, m);
        }
    }
}

/// A source file without an object file is compiled exactly once: when the
/// build is told at moment `k`, while it checks the source at `index`, that
/// the object file of this source does not exist, then its next request is
/// the compiler run for this source, and moment `k + 1` is the only moment
/// of the run at which it compiles this source.
pub proof fn law_missing_object_is_compiled_once(
    build: BuildView,
    events: Seq<EventView>,
    k: int,
    m: int,
    index: nat,
)
    requires
        build.wf(),
        0 <= k < events.len(),
        0 <= m <= events.len(),
        run_to(build, events, k).phase == (PhaseView::Checking { index }),
        events[k] == EventView::Object(None),
    ensures
        run_to(build, events, k + 1).request() == run_to(build, events, k).compile_request(index),
        run_to(build, events, m).phase == (PhaseView::Compiling { index }) <==> m == k + 1,
{
    law_stale_source_is_compiled_once(build, events, k, m, index);
}

/// A source file whose object file is strictly newer than the source is not
/// compiled: when the build is told so at moment `k`, while it checks the
/// source at `index`, then at no moment `m` of the run does it compile this
/// source.
pub proof fn law_newer_object_is_not_compiled(
    build: BuildView,
    events: Seq<EventView>,
    k: int,
    m: int,
    index: nat,
    built: Timestamp,
)
    requires
        build.wf(),
        0 <= k < events.len(),
        0 <= m <= events.len(),
        run_to(build, events, k).phase == (PhaseView::Checking { index }),
        events[k] == EventView::Object(Some(built)),
        built.later_than(run_to(build, events, k).sources[index as int].modified),
    ensures
        run_to(build, events, m).phase != (PhaseView::Compiling { index }),
{
    law_up_to_date_source_is_not_compiled(build, events, k, m, index);
}

/// A source file that is strictly newer than its object file is compiled,
/// whatever the state of the other files: when the build is told so at
/// moment `k`, while it checks the source at `index`, then its next request
/// is the compiler run for this source, and moment `k + 1` is the only
/// moment of the run at which it compiles this source. Nothing is asked of
/// the other events of the run.
pub proof fn law_newer_source_is_compiled(
    build: BuildView,
    events: Seq<EventView>,
    k: int,
    m: int,
    index: nat,
    built: Timestamp,
)
    requires
        build.wf(),
        0 <= k < events.len(),
        0 <= m <= events.len(),
        run_to(build, events, k).phase == (PhaseView::Checking { index }),
        events[k] == EventView::Object(Some(built)),
        run_to(build, events, k).sources[index as int].modified.later_than(built),
    ensures
        run_to(build, events, k + 1).request() == run_to(build, events, k).compile_request(index),
        run_to(build, events, m).phase == (PhaseView::Compiling { index }) <==> m == k + 1,
{
    law_stale_source_is_compiled_once(build, events, k, m, index);
}

/// No source is passed over: in a build that has come to collect the object
/// files, every source that the scan found was checked against its object
/// file at some moment of the run.
pub proof fn law_every_source_is_checked(
    build: BuildView,
    events: Seq<EventView>,
    n: int,
    index: nat,
)
    requires
        build.wf(),
        build.phase is Scanning,
        0 <= n <= events.len(),
        run_to(build, events, n).phase is Collecting || run_to(build, events, n).phase is Linking
            || run_to(build, events, n).phase is Done,
        index < run_to(build, events, n).sources.len(),
    ensures
        exists|k: int|
            0 <= k <= n && (#[trigger] run_to(build, events, k)).phase == (PhaseView::Checking {
                index,
            }),
{
    lemma_sources_are_checked_in_order(build, events, n, index);
}

/// A build that finds every object file up to date compiles nothing: if,
/// whenever the build checks a source, it is told of an object file that is
/// no older than the source, then at no moment `m` of the run does it ask
/// for a compiler.
pub proof fn law_up_to_date_build_compiles_nothing(
    build: BuildView,
    events: Seq<EventView>,
    m: int,
)
    requires
        build.wf(),
        !(build.phase is Compiling),
        0 <= m <= events.len(),
        forall|k: int|
            0 <= k < events.len() && (#[trigger] run_to(build, events, k)).phase is Checking
                ==> tells_fresh(run_to(build, events, k), events[k]),
    ensures
        !(run_to(build, events, m).phase is Compiling),
    decreases m,
{
    if m > 0 {
        lemma_run_step(build, events, m - 1);
        lemma_run_keeps_wf(build, events, m - 1);
        law_up_to_date_build_compiles_nothing(build, events, m - 1);
        law_compiles_exactly_the_stale(run_to(build, events, m - 1), events[m - 1]);
    }
}

/// Each source is compiled as its name tells: the compiler run for a source
/// reads the source from the source directory, writes its object file, and
/// is the C compiler where the name ends in `.c` and the C++ compiler where
/// it ends in `.cc`, `.cxx`, `.cpp` or `.c++`.
pub proof fn law_compiler_follows_the_name(build: BuildView, index: nat)
    requires
        build.wf(),
        build.phase == (PhaseView::Compiling { index }),
    ensures
        build.request() matches ActionView::Compile { source, command, .. } && {
            let name = build.sources[index as int].name;
            &&& source == joined(src_dir(build.root), name)
            &&& command.args == seq![
                build.mode.flag(),
                "-g"@,
                "-c"@,
                source,
                "-o"@,
                object_path(build.root, build.mode, name),
            ]
            &&& extension_of(name) matches Some(ext) && {
                &&& ext == "c"@ ==> command.program == build.toolchain.cc
                &&& ext != "c"@ ==> command.program == build.toolchain.cxx
                &&& ext == "c"@ || ext == "cc"@ || ext == "cxx"@ || ext == "cpp"@ || ext == "c++"@
            }
        },
{
}

/// The link is never skipped: once the object files are listed, the build
/// asks for the linker, whether or not anything was compiled before, and
/// hands it every object file that the listing holds.
pub proof fn law_link_always_runs(build: BuildView, entries: Seq<DirEntryView>)
    requires
        build.wf(),
        build.phase is Collecting,
        collected(out_dir(build.root, build.mode), entries) is Ok,
    ensures
        build.advance(EventView::Listed(entries)).request() == (ActionView::Link {
            command: link_invocation(
                build.toolchain,
                build.mode,
                build.root,
                build.name,
                collected(out_dir(build.root, build.mode), entries)->Ok_0,
            ),
            notice: compiled_project(build.name),
        }),
{
}

/// A build ends well only by linking: the one event that brings a build to
/// its good end is the success of the linker.
pub proof fn law_done_means_linked(build: BuildView, event: EventView)
    requires
        build.wf(),
        !(build.phase is Done),
    ensures
        build.advance(event).phase is Done <==> build.phase is Linking && event
            == EventView::Exited(true),
{
}

/// No path lies in the output directories of both modes.
pub proof fn law_modes_do_not_share_paths(root: Seq<char>, path: Seq<char>)
    ensures
        !(lies_in(path, out_dir(root, BuildMode::Debug)) && lies_in(
            path,
            out_dir(root, BuildMode::Release),
        )),
        out_dir(root, BuildMode::Debug) != out_dir(root, BuildMode::Release),
{
    reveal_strlit("bin");
    reveal_strlit("debug");
    reveal_strlit("release");
    let bin = joined(root, "bin"@);
    let debug = out_dir(root, BuildMode::Debug);
    let release = out_dir(root, BuildMode::Release);
    lemma_joined_lies_in(bin, "debug"@);
    lemma_joined_lies_in(bin, "release"@);
    // Both directories are `bin`, a `/` and the name of the mode, and the two
    // names differ in their first character.
    let at = (bin.len() + 1) as int;
    assert(debug[at] == 'd' && release[at] == 'r');
    if lies_in(path, debug) && lies_in(path, release) {
        assert(path.subrange(0, debug.len() as int)[at] == debug[at]);
        assert(path.subrange(0, release.len() as int)[at] == release[at]);
    }
}

/// Modes are isolated: every file that a build checks, writes or links lies
/// in the output directory of the build's own mode, and no path lies in the
/// output directories of both modes. So a build in one mode neither reads nor
/// writes what a build in the other mode has left.
pub proof fn law_modes_are_isolated(build: BuildView)
    requires
        build.wf(),
    ensures
        build.request() matches ActionView::CreateDir { dir } ==> dir == out_dir(
            build.root,
            build.mode,
        ),
        build.request() matches ActionView::Stat { path } ==> lies_in(
            path,
            out_dir(build.root, build.mode),
        ),
        build.request() matches ActionView::Compile { command, .. } ==> command.args.len() == 6
            && lies_in(command.args[5], out_dir(build.root, build.mode)),
        build.request() matches ActionView::Link { command, .. } ==> {
            &&& command.args.len() == build.objects.len() + 3
            &&& forall|j: int|
                0 <= j < build.objects.len() ==> lies_in(
                    #[trigger] command.args[j],
                    out_dir(build.root, build.mode),
                )
            &&& lies_in(command.args.last(), out_dir(build.root, build.mode))
        },
        forall|path: Seq<char>|
            !(lies_in(path, out_dir(build.root, BuildMode::Debug)) && #[trigger] lies_in(
                path,
                out_dir(build.root, BuildMode::Release),
            )),
{
    let dir = out_dir(build.root, build.mode);
    lemma_out_dir_is_a_directory(build.root, build.mode);
    match build.phase {
        PhaseView::Checking { index } => {
            lemma_joined_lies_in(dir, object_name(build.sources[index as int].name));
        },
        PhaseView::Compiling { index } => {
            lemma_joined_lies_in(dir, object_name(build.sources[index as int].name));
        },
        PhaseView::Linking => {
            lemma_joined_lies_in(dir, build.name);
        },
        _ => {},
    }
    assert forall|path: Seq<char>|
        !(lies_in(path, out_dir(build.root, BuildMode::Debug)) && #[trigger] lies_in(
            path,
            out_dir(build.root, BuildMode::Release),
        )) by {
        law_modes_do_not_share_paths(build.root, path);
    }
}

/// The first failure ends the build: when the compiler fails on a source,
/// the build fails with that source's path, and whatever reaches it
/// afterwards, it asks for nothing more: no other source is compiled and
/// nothing is linked.
pub proof fn law_failed_compile_stops_build(
    build: BuildView,
    later: Seq<EventView>,
    index: nat,
)
    requires
        build.wf(),
        build.phase == (PhaseView::Compiling { index }),
    ensures
        build.advance(EventView::Exited(false)).phase == PhaseView::Failed(
            BuildErrorView::CompileFailed { path: build.sources[index as int].path },
        ),
        run(build.advance(EventView::Exited(false)), later) == build.advance(
            EventView::Exited(false),
        ),
        run(build.advance(EventView::Exited(false)), later).request() == ActionView::Stop,
{
    lemma_over_is_over(build.advance(EventView::Exited(false)), later);
}

/// A build that cannot read its source directory fails before it has asked
/// for anything else: no directory is created, nothing is compiled and
/// nothing is linked.
pub proof fn law_missing_source_directory_stops_build(build: BuildView, later: Seq<EventView>)
    requires
        build.wf(),
        build.phase is Scanning,
    ensures
        build.advance(EventView::Failed).phase == PhaseView::Failed(
            BuildErrorView::MissingSourceDirectory,
        ),
        run(build.advance(EventView::Failed), later).request() == ActionView::Stop,
{
    lemma_over_is_over(build.advance(EventView::Failed), later);
}

/// A compiler that cannot be started fails the build with the name of the
/// command, and the build asks for nothing more.
pub proof fn law_missing_compiler_stops_build(
    build: BuildView,
    later: Seq<EventView>,
    index: nat,
)
    requires
        build.wf(),
        build.phase == (PhaseView::Compiling { index }),
    ensures
        build.advance(EventView::Failed).phase == PhaseView::Failed(
            BuildErrorView::ToolchainUnavailable {
                command: build.sources[index as int].language.compiler(build.toolchain),
            },
        ),
        run(build.advance(EventView::Failed), later).request() == ActionView::Stop,
{
    lemma_over_is_over(build.advance(EventView::Failed), later);
}

/// One build, one toolchain: whatever reaches a build, it keeps the project,
/// the mode, the directory and the compilers that it was started with.
pub proof fn law_build_keeps_its_configuration(build: BuildView, events: Seq<EventView>)
    ensures
        run(build, events).name == build.name,
        run(build, events).mode == build.mode,
        run(build, events).root == build.root,
        run(build, events).toolchain == build.toolchain,
    decreases events.len(),
{
    if events.len() > 0 {
        law_build_keeps_its_configuration(build, events.drop_last());
    }
}

} // verus!
