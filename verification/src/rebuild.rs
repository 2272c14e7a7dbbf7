//! Building twice: what a build leaves on disk, and what the next build
//! makes of it.
//!
//! The laws of [`crate::laws`] hold whatever a build is told. Here a build
//! is told the truth by a file system that is modelled as a map from paths
//! to the times at which the files were written, and the law is that a build
//! which follows a successful one compiles nothing.

use vstd::prelude::*;
use crate::laws::{
    law_up_to_date_build_compiles_nothing,
    lemma_advance_makes_progress,
    lemma_run_keeps_wf,
    lemma_run_step,
    run,
    run_to,
    tells_fresh,
};
use crate::layout::object_path;
use crate::orchestrator::{ActionView, BuildView, EventView, PhaseView};
use crate::stale::{stale, Timestamp};

verus! {

/// What the file system says of the file at `path`: when it was written, if
/// it exists.
pub open spec fn found(disk: Map<Seq<char>, Timestamp>, path: Seq<char>) -> Option<Timestamp> {
    if disk.dom().contains(path) {
        Some(disk[path])
    } else {
        None
    }
}

/// Whether `event` tells `build` the truth about the disk: where the build
/// asks for a file, the event says what the file system says of it.
pub open spec fn truthful(
    build: BuildView,
    disk: Map<Seq<char>, Timestamp>,
    event: EventView,
) -> bool {
    build.request() matches ActionView::Stat { path } ==> event == EventView::Object(
        found(disk, path),
    )
}

/// The disk after the request of `build` was carried out at the time `now`
/// and went as `event` says: a compiler or a linker that succeeds writes its
/// output file, and nothing else changes.
pub open spec fn carried_out(
    build: BuildView,
    disk: Map<Seq<char>, Timestamp>,
    event: EventView,
    now: Timestamp,
) -> Map<Seq<char>, Timestamp> {
    match build.request() {
        ActionView::Compile { command, .. } => if event == EventView::Exited(true) {
            disk.insert(command.args[5], now)
        } else {
            disk
        },
        ActionView::Link { command, .. } => if event == EventView::Exited(true) {
            disk.insert(command.args.last(), now)
        } else {
            disk
        },
        _ => disk,
    }
}

/// The disk after the first `n` requests of a build were carried out, the
/// one that event `k` answers at the time `times[k]`.
pub open spec fn disk_at(
    build: BuildView,
    disk: Map<Seq<char>, Timestamp>,
    events: Seq<EventView>,
    times: Seq<Timestamp>,
    n: int,
) -> Map<Seq<char>, Timestamp>
    decreases n,
{
    if n <= 0 {
        disk
    } else {
        carried_out(
            run_to(build, events, n - 1),
            disk_at(build, disk, events, times, n - 1),
            events[n - 1],
            times[n - 1],
        )
    }
}

/// Whether every event of a run tells the build the truth about the disk as
/// it is at that moment.
pub open spec fn honest(
    build: BuildView,
    disk: Map<Seq<char>, Timestamp>,
    events: Seq<EventView>,
    times: Seq<Timestamp>,
) -> bool {
    forall|k: int|
        0 <= k < events.len() ==> truthful(
            #[trigger] run_to(build, events, k),
            disk_at(build, disk, events, times, k),
            events[k],
        )
}

/// Whether no source of `build` was modified after `time`.
pub open spec fn not_before_sources(build: BuildView, time: Timestamp) -> bool {
    forall|j: int|
        0 <= j < build.sources.len() ==> !(#[trigger] build.sources[j]).modified.later_than(time)
}

/// Whether none of the given times lies before the last change to a source
/// of `build`: no source is dated in the future.
pub open spec fn clock_is_sane(build: BuildView, times: Seq<Timestamp>) -> bool {
    forall|k: int| 0 <= k < times.len() ==> not_before_sources(build, #[trigger] times[k])
}

/// Whether the source at `j` is up to date on `disk`: its object file is
/// there and not older than the source.
pub open spec fn fresh_on(build: BuildView, disk: Map<Seq<char>, Timestamp>, j: int) -> bool {
    !stale(
        build.sources[j].modified,
        found(disk, object_path(build.root, build.mode, build.sources[j].name)),
    )
}

/// How many of its sources a build has dealt with.
pub open spec fn passed(build: BuildView) -> nat {
    match build.phase {
        PhaseView::Scanning => 0,
        PhaseView::Preparing => 0,
        PhaseView::Checking { index } => index,
        PhaseView::Compiling { index } => index,
        PhaseView::Collecting => build.sources.len(),
        PhaseView::Linking => build.sources.len(),
        PhaseView::Done => build.sources.len(),
        PhaseView::Failed(_) => 0,
    }
}

/// One step of a build that is told the truth: a source that was up to date
/// stays so, and a source that the build has just dealt with is up to date.
pub proof fn lemma_step_leaves_fresh(
    build: BuildView,
    disk: Map<Seq<char>, Timestamp>,
    event: EventView,
    now: Timestamp,
    j: int,
)
    requires
        build.wf(),
        !(build.phase is Scanning),
        truthful(build, disk, event),
        not_before_sources(build, now),
        0 <= j < build.sources.len(),
        fresh_on(build, disk, j) || passed(build) <= j < passed(build.advance(event)),
    ensures
        fresh_on(build.advance(event), carried_out(build, disk, event, now), j),
{
}

/// A build that has passed the scan keeps its sources, its mode and its
/// directory through any run.
pub proof fn lemma_run_keeps_sources(build: BuildView, events: Seq<EventView>, n: int)
    requires
        build.wf(),
        !(build.phase is Scanning),
        0 <= n <= events.len(),
    ensures
        run_to(build, events, n).sources == build.sources,
        run_to(build, events, n).root == build.root,
        run_to(build, events, n).mode == build.mode,
        !(run_to(build, events, n).phase is Scanning),
    decreases n,
{
    if n > 0 {
        lemma_run_keeps_sources(build, events, n - 1);
        lemma_run_step(build, events, n - 1);
        lemma_run_keeps_wf(build, events, n - 1);
        lemma_advance_makes_progress(run_to(build, events, n - 1), events[n - 1]);
    }
}

/// In a run that is told the truth, a source that was up to date at the
/// start, or that the build has dealt with since, is up to date.
pub proof fn lemma_run_leaves_fresh(
    build: BuildView,
    disk: Map<Seq<char>, Timestamp>,
    events: Seq<EventView>,
    times: Seq<Timestamp>,
    n: int,
    j: int,
)
    requires
        build.wf(),
        !(build.phase is Scanning),
        times.len() == events.len(),
        honest(build, disk, events, times),
        clock_is_sane(build, times),
        0 <= n <= events.len(),
        0 <= j < build.sources.len(),
        fresh_on(build, disk, j) || passed(build) <= j < passed(run_to(build, events, n)),
    ensures
        fresh_on(run_to(build, events, n), disk_at(build, disk, events, times, n), j),
    decreases n,
{
    if n > 0 {
        let before = run_to(build, events, n - 1);
        let disk_before = disk_at(build, disk, events, times, n - 1);
        lemma_run_step(build, events, n - 1);
        lemma_run_keeps_wf(build, events, n - 1);
        lemma_run_keeps_sources(build, events, n - 1);
        if fresh_on(build, disk, j) || passed(build) <= j < passed(before) {
            lemma_run_leaves_fresh(build, disk, events, times, n - 1, j);
        }
        assert(truthful(before, disk_before, events[n - 1]));
        assert(not_before_sources(build, times[n - 1]));
        lemma_step_leaves_fresh(before, disk_before, events[n - 1], times[n - 1], j);
    }
}

/// Building twice compiles once: a build that follows a successful build of
/// the same sources asks for no compiler.
///
/// `build` is the build as it stands after the scan of the source directory.
/// The first build goes through the events `first` and ends well; the second
/// starts from the same scan, since no source has changed, and goes through
/// the events `second`. Both are told the truth about the disk, on which the
/// second finds what the first has left. The law holds where no source is
/// dated in the future: an object file that is written before the time that
/// its source carries looks stale however often it is built.
pub proof fn law_second_build_compiles_nothing(
    build: BuildView,
    disk: Map<Seq<char>, Timestamp>,
    first: Seq<EventView>,
    first_times: Seq<Timestamp>,
    second: Seq<EventView>,
    second_times: Seq<Timestamp>,
    m: int,
)
    requires
        build.wf(),
        build.phase is Preparing,
        first_times.len() == first.len(),
        second_times.len() == second.len(),
        honest(build, disk, first, first_times),
        run(build, first).phase is Done,
        honest(
            build,
            disk_at(build, disk, first, first_times, first.len() as int),
            second,
            second_times,
        ),
        clock_is_sane(build, first_times),
        clock_is_sane(build, second_times),
        0 <= m <= second.len(),
    ensures
        !(run_to(build, second, m).phase is Compiling),
{
    // The first build has dealt with every source, so it leaves every source
    // up to date.
    let left = disk_at(build, disk, first, first_times, first.len() as int);
    assert(first.take(first.len() as int) =~= first);
    lemma_run_keeps_sources(build, first, first.len() as int);
    assert forall|j: int| 0 <= j < build.sources.len() implies fresh_on(build, left, j) by {
        lemma_run_leaves_fresh(build, disk, first, first_times, first.len() as int, j);
    }
    // Whenever the second build checks a source, that source is still up to
    // date on disk, and the build is told so.
    assert forall|k: int|
        0 <= k < second.len() && (#[trigger] run_to(build, second, k)).phase is Checking
        implies tells_fresh(run_to(build, second, k), second[k]) by {
        let now = run_to(build, second, k);
        lemma_run_keeps_sources(build, second, k);
        lemma_run_keeps_wf(build, second, k);
        lemma_run_leaves_fresh(
            build,
            left,
            second,
            second_times,
            k,
            now.phase->Checking_index as int,
        );
    }
    law_up_to_date_build_compiles_nothing(build, second, m);
}

} // verus!
