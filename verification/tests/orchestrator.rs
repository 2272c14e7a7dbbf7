use std::collections::{BTreeMap, BTreeSet};

use bake::command::Invocation;
use bake::error::BuildError;
use bake::orchestrator::{Action, Build, Event, Phase};
use bake::project::{ProjConfig, Toolchain};
use bake::scan::{DirEntry, EntryKind};
use bake::stale::Timestamp;
use bake::BuildMode;

/// A file system and a toolchain that exist only in memory.
struct World {
    /// The entries of `/p/src`, or nothing if the directory is missing.
    sources: Option<Vec<(String, i64)>>,
    /// Every file below `/p/bin`, with the time it was written.
    files: BTreeMap<String, i64>,
    /// Every directory that was created.
    dirs: BTreeSet<String>,
    /// Programs that cannot be started.
    missing: BTreeSet<String>,
    /// Source files that do not compile.
    broken: BTreeSet<String>,
    /// Whether the linker fails.
    link_fails: bool,
    clock: i64,
}

impl World {
    fn new(sources: &[(&str, i64)]) -> World {
        World {
            sources: Some(sources.iter().map(|(name, time)| (name.to_string(), *time)).collect()),
            files: BTreeMap::new(),
            dirs: BTreeSet::new(),
            missing: BTreeSet::new(),
            broken: BTreeSet::new(),
            link_fails: false,
            clock: 1000,
        }
    }

    fn touch(&mut self, name: &str) {
        self.clock += 1;
        let now = self.clock;
        for (source, time) in self.sources.as_mut().unwrap().iter_mut() {
            if source == name {
                *time = now;
            }
        }
    }

    fn list(&self, dir: &str) -> Event {
        if dir == "/p/src" {
            return match &self.sources {
                Some(sources) => Event::Listed(
                    sources.iter().map(|(name, time)| file(name, *time)).collect(),
                ),
                None => Event::Failed,
            };
        }
        if !self.dirs.contains(dir) {
            return Event::Failed;
        }
        let prefix = format!("{dir}/");
        Event::Listed(
            self.files
                .iter()
                .filter(|(path, _)| path.starts_with(&prefix))
                .map(|(path, time)| file(&path[prefix.len()..], *time))
                .collect(),
        )
    }

    fn run(&mut self, command: &Invocation, fails: bool) -> Event {
        if self.missing.contains(&command.program) {
            return Event::Failed;
        }
        if fails {
            return Event::Exited(false);
        }
        let at = command.args.iter().position(|arg| arg == "-o").unwrap();
        self.clock += 1;
        self.files.insert(command.args[at + 1].clone(), self.clock);
        Event::Exited(true)
    }

    fn perform(&mut self, action: &Action) -> Event {
        match action {
            Action::List { dir } => self.list(dir),
            Action::CreateDir { dir } => {
                self.dirs.insert(dir.clone());
                Event::Created
            }
            Action::Stat { path } => Event::Object(self.files.get(path).map(|time| at(*time))),
            Action::Compile { source, command, .. } => {
                let fails = self.broken.contains(source);
                self.run(command, fails)
            }
            Action::Link { command, .. } => {
                let fails = self.link_fails;
                self.run(command, fails)
            }
            Action::Stop => panic!("a build that is over asks for nothing"),
        }
    }
}

fn at(secs: i64) -> Timestamp {
    Timestamp { secs, nanos: 0 }
}

fn file(name: &str, secs: i64) -> DirEntry {
    DirEntry { name: name.to_string(), kind: EntryKind::File { modified: at(secs) } }
}

fn strings(list: &[&str]) -> Vec<String> {
    list.iter().map(|text| text.to_string()).collect()
}

fn start(mode: BuildMode) -> Build {
    let config = ProjConfig { name: "demo".to_string() };
    Build::new(&config, mode, "/p", Toolchain::resolve(None, None))
}

/// Runs a build in `world` to its end and returns what it asked for.
fn build(world: &mut World, mode: BuildMode) -> (Build, Vec<Action>) {
    let mut build = start(mode);
    let mut asked = Vec::new();
    let mut action = build.request();
    while action != Action::Stop {
        let event = world.perform(&action);
        asked.push(action);
        action = build.step(event);
        assert!(asked.len() < 1000, "the build does not end");
    }
    (build, asked)
}

fn compiled(asked: &[Action]) -> Vec<String> {
    asked
        .iter()
        .filter_map(|action| match action {
            Action::Compile { source, .. } => Some(source.clone()),
            _ => None,
        })
        .collect()
}

fn links(asked: &[Action]) -> usize {
    asked.iter().filter(|action| matches!(action, Action::Link { .. })).count()
}

fn compile(program: &str, flag: &str, source: &str, object: &str) -> Action {
    Action::Compile {
        source: source.to_string(),
        command: Invocation {
            program: program.to_string(),
            args: strings(&[flag, "-g", "-c", source, "-o", object]),
        },
        notice: format!("    \x1b[1;32mCompiled\x1b[0m {source}"),
    }
}

fn link(program: &str, args: &[&str], project: &str) -> Action {
    Action::Link {
        command: Invocation { program: program.to_string(), args: strings(args) },
        notice: format!("    \x1b[1;32mCompiled\x1b[0m '{project}'"),
    }
}

#[test]
fn fresh_project_compiles_everything_and_links() {
    let mut world = World::new(&[("a.c", 10), ("b.c", 20)]);
    let (done, asked) = build(&mut world, BuildMode::Debug);
    assert_eq!(done.phase(), &Phase::Done);
    assert_eq!(
        asked,
        vec![
            Action::List { dir: "/p/src".to_string() },
            Action::CreateDir { dir: "/p/bin/debug".to_string() },
            Action::Stat { path: "/p/bin/debug/a.c.o".to_string() },
            compile("cc", "-O0", "/p/src/a.c", "/p/bin/debug/a.c.o"),
            Action::Stat { path: "/p/bin/debug/b.c.o".to_string() },
            compile("cc", "-O0", "/p/src/b.c", "/p/bin/debug/b.c.o"),
            Action::List { dir: "/p/bin/debug".to_string() },
            link("cc", &["/p/bin/debug/a.c.o", "/p/bin/debug/b.c.o", "-O0", "-o", "/p/bin/debug/demo"], "demo"),
        ]
    );
    assert_eq!(compiled(&asked).len(), 2);
    assert_eq!(links(&asked), 1);
    assert!(world.files.contains_key("/p/bin/debug/demo"));
}

#[test]
fn touched_source_alone_is_compiled_again() {
    let mut world = World::new(&[("a.c", 10), ("b.c", 20)]);
    build(&mut world, BuildMode::Debug);
    world.touch("a.c");
    let (done, asked) = build(&mut world, BuildMode::Debug);
    assert_eq!(done.phase(), &Phase::Done);
    assert_eq!(compiled(&asked), strings(&["/p/src/a.c"]));
    assert_eq!(links(&asked), 1);
}

#[test]
fn second_build_compiles_nothing_and_links() {
    let mut world = World::new(&[("a.c", 10), ("b.cpp", 20)]);
    let (_, first) = build(&mut world, BuildMode::Debug);
    assert_eq!(compiled(&first).len(), 2);
    let (done, second) = build(&mut world, BuildMode::Debug);
    assert_eq!(done.phase(), &Phase::Done);
    assert_eq!(compiled(&second), Vec::<String>::new());
    assert_eq!(links(&second), 1);
    assert_eq!(
        second.last(),
        Some(&link("cc", &["/p/bin/debug/a.c.o", "/p/bin/debug/b.cpp.o", "-O0", "-o", "/p/bin/debug/demo"], "demo"))
    );
}

#[test]
fn missing_source_directory_fails_before_anything_is_created() {
    let mut world = World::new(&[]);
    world.sources = None;
    let (failed, asked) = build(&mut world, BuildMode::Debug);
    assert_eq!(failed.phase(), &Phase::Failed(BuildError::MissingSourceDirectory));
    assert_eq!(asked, vec![Action::List { dir: "/p/src".to_string() }]);
    assert!(world.dirs.is_empty());
    assert!(world.files.is_empty());
}

#[test]
fn missing_compiler_fails_without_an_object_file() {
    let mut world = World::new(&[("a.c", 10)]);
    world.missing.insert("cc".to_string());
    let (failed, asked) = build(&mut world, BuildMode::Debug);
    assert_eq!(
        failed.phase(),
        &Phase::Failed(BuildError::ToolchainUnavailable { command: "cc".to_string() })
    );
    assert_eq!(compiled(&asked), strings(&["/p/src/a.c"]));
    assert_eq!(links(&asked), 0);
    assert!(world.files.is_empty());
}

#[test]
fn missing_cpp_compiler_is_named() {
    let mut world = World::new(&[("a.cpp", 10)]);
    world.missing.insert("c++".to_string());
    let (failed, _) = build(&mut world, BuildMode::Debug);
    assert_eq!(
        failed.phase(),
        &Phase::Failed(BuildError::ToolchainUnavailable { command: "c++".to_string() })
    );
}

#[test]
fn failed_compile_stops_the_build() {
    let mut world = World::new(&[("a.c", 10), ("b.c", 20), ("c.c", 30)]);
    world.broken.insert("/p/src/b.c".to_string());
    let (failed, asked) = build(&mut world, BuildMode::Debug);
    assert_eq!(
        failed.phase(),
        &Phase::Failed(BuildError::CompileFailed { path: "/p/src/b.c".to_string() })
    );
    assert_eq!(compiled(&asked), strings(&["/p/src/a.c", "/p/src/b.c"]));
    assert_eq!(links(&asked), 0);
    assert!(world.files.contains_key("/p/bin/debug/a.c.o"));
    assert!(!world.files.contains_key("/p/bin/debug/c.c.o"));
    assert!(!world.files.contains_key("/p/bin/debug/demo"));
}

#[test]
fn build_after_a_failure_takes_up_where_it_failed() {
    let mut world = World::new(&[("a.c", 10), ("b.c", 20), ("c.c", 30)]);
    world.broken.insert("/p/src/b.c".to_string());
    build(&mut world, BuildMode::Debug);
    world.broken.clear();
    let (done, asked) = build(&mut world, BuildMode::Debug);
    assert_eq!(done.phase(), &Phase::Done);
    assert_eq!(compiled(&asked), strings(&["/p/src/b.c", "/p/src/c.c"]));
    assert_eq!(links(&asked), 1);
}

#[test]
fn failed_link_fails_the_build() {
    let mut world = World::new(&[("a.c", 10)]);
    world.link_fails = true;
    let (failed, asked) = build(&mut world, BuildMode::Debug);
    assert_eq!(failed.phase(), &Phase::Failed(BuildError::LinkFailed));
    assert_eq!(links(&asked), 1);
}

#[test]
fn missing_linker_fails_the_build() {
    let mut world = World::new(&[("a.cpp", 10)]);
    world.missing.insert("cc".to_string());
    let (failed, asked) = build(&mut world, BuildMode::Debug);
    assert_eq!(
        failed.phase(),
        &Phase::Failed(BuildError::ToolchainUnavailable { command: "cc".to_string() })
    );
    assert_eq!(compiled(&asked), strings(&["/p/src/a.cpp"]));
    assert_eq!(links(&asked), 1);
}

#[test]
fn modes_do_not_share_object_files() {
    let mut world = World::new(&[("a.c", 10), ("b.c", 20)]);
    let (_, debug) = build(&mut world, BuildMode::Debug);
    let (done, release) = build(&mut world, BuildMode::Release);
    assert_eq!(done.phase(), &Phase::Done);
    assert_eq!(compiled(&debug).len(), 2);
    assert_eq!(compiled(&release).len(), 2);
    assert_eq!(
        release[3],
        compile("cc", "-O3", "/p/src/a.c", "/p/bin/release/a.c.o")
    );
    assert_eq!(
        release.last(),
        Some(&link("cc", &["/p/bin/release/a.c.o", "/p/bin/release/b.c.o", "-O3", "-o", "/p/bin/release/demo"], "demo"))
    );
    assert!(world.files.contains_key("/p/bin/debug/demo"));
    assert!(world.files.contains_key("/p/bin/release/demo"));
    for path in world.files.keys() {
        assert!(path.starts_with("/p/bin/debug/") != path.starts_with("/p/bin/release/"));
    }
    let (_, debug_again) = build(&mut world, BuildMode::Debug);
    assert_eq!(compiled(&debug_again), Vec::<String>::new());
}

#[test]
fn each_language_has_its_compiler_and_c_links() {
    let config = ProjConfig { name: "mixed".to_string() };
    let toolchain = Toolchain::resolve(Some("gcc".to_string()), Some("g++".to_string()));
    let mut build = Build::new(&config, BuildMode::Release, "/w", toolchain);
    assert_eq!(build.request(), Action::List { dir: "/w/src".to_string() });
    let entries = vec![file("lib.cpp", 5), file("README.md", 5), file("main.c", 6)];
    assert_eq!(
        build.step(Event::Listed(entries)),
        Action::CreateDir { dir: "/w/bin/release".to_string() }
    );
    assert_eq!(build.sources().len(), 2);
    assert_eq!(
        build.step(Event::Created),
        Action::Stat { path: "/w/bin/release/lib.cpp.o".to_string() }
    );
    assert_eq!(
        build.step(Event::Object(None)),
        compile("g++", "-O3", "/w/src/lib.cpp", "/w/bin/release/lib.cpp.o")
    );
    assert_eq!(
        build.step(Event::Exited(true)),
        Action::Stat { path: "/w/bin/release/main.c.o".to_string() }
    );
    assert_eq!(
        build.step(Event::Object(Some(at(5)))),
        compile("gcc", "-O3", "/w/src/main.c", "/w/bin/release/main.c.o")
    );
    assert_eq!(
        build.step(Event::Exited(true)),
        Action::List { dir: "/w/bin/release".to_string() }
    );
    let produced = vec![file("main.c.o", 8), file("mixed", 4), file("lib.cpp.o", 7)];
    assert_eq!(
        build.step(Event::Listed(produced)),
        link("gcc", &["/w/bin/release/main.c.o", "/w/bin/release/lib.cpp.o", "-O3", "-o", "/w/bin/release/mixed"], "mixed")
    );
    assert_eq!(build.step(Event::Exited(true)), Action::Stop);
    assert_eq!(build.phase(), &Phase::Done);
}

#[test]
fn object_as_old_as_its_source_is_up_to_date() {
    let mut build = start(BuildMode::Debug);
    build.step(Event::Listed(vec![file("a.c", 50)]));
    build.step(Event::Created);
    assert_eq!(
        build.step(Event::Object(Some(at(50)))),
        Action::List { dir: "/p/bin/debug".to_string() }
    );
}

#[test]
fn newer_object_is_up_to_date() {
    let mut build = start(BuildMode::Debug);
    build.step(Event::Listed(vec![file("a.c", 50), file("b.c", 60)]));
    build.step(Event::Created);
    assert_eq!(
        build.step(Event::Object(Some(at(51)))),
        Action::Stat { path: "/p/bin/debug/b.c.o".to_string() }
    );
    assert_eq!(build.phase(), &Phase::Checking { index: 1 });
}

#[test]
fn older_object_is_compiled_again() {
    let mut build = start(BuildMode::Debug);
    build.step(Event::Listed(vec![file("a.c", 50)]));
    build.step(Event::Created);
    assert_eq!(
        build.step(Event::Object(Some(Timestamp { secs: 49, nanos: 999_999_999 }))),
        compile("cc", "-O0", "/p/src/a.c", "/p/bin/debug/a.c.o")
    );
    assert_eq!(build.phase(), &Phase::Compiling { index: 0 });
}

#[test]
fn project_without_sources_still_links() {
    let mut world = World::new(&[("notes.txt", 1)]);
    let (done, asked) = build(&mut world, BuildMode::Debug);
    assert_eq!(done.phase(), &Phase::Done);
    assert_eq!(
        asked,
        vec![
            Action::List { dir: "/p/src".to_string() },
            Action::CreateDir { dir: "/p/bin/debug".to_string() },
            Action::List { dir: "/p/bin/debug".to_string() },
            link("cc", &["-O0", "-o", "/p/bin/debug/demo"], "demo"),
        ]
    );
}

#[test]
fn link_takes_object_files_of_earlier_builds() {
    let mut world = World::new(&[("a.c", 10)]);
    world.files.insert("/p/bin/debug/gone.c.o".to_string(), 1);
    let (_, asked) = build(&mut world, BuildMode::Debug);
    assert_eq!(
        asked.last(),
        Some(&link("cc", &["/p/bin/debug/a.c.o", "/p/bin/debug/gone.c.o", "-O0", "-o", "/p/bin/debug/demo"], "demo"))
    );
}

#[test]
fn unreadable_source_entry_fails_the_build() {
    let mut build = start(BuildMode::Debug);
    let entries = vec![
        file("a.c", 1),
        DirEntry { name: "b.c".to_string(), kind: EntryKind::Unknown },
    ];
    assert_eq!(build.step(Event::Listed(entries)), Action::Stop);
    assert_eq!(
        build.phase(),
        &Phase::Failed(BuildError::MetadataUnavailable { path: "/p/src/b.c".to_string() })
    );
}

#[test]
fn output_directory_that_cannot_be_created_fails_the_build() {
    let mut build = start(BuildMode::Debug);
    build.step(Event::Listed(vec![file("a.c", 1)]));
    assert_eq!(build.step(Event::Failed), Action::Stop);
    assert_eq!(
        build.phase(),
        &Phase::Failed(BuildError::OutputDirectoryNotCreated { root: "/p".to_string() })
    );
}

#[test]
fn object_that_cannot_be_examined_fails_the_build() {
    let mut build = start(BuildMode::Release);
    build.step(Event::Listed(vec![file("a.c", 1)]));
    build.step(Event::Created);
    assert_eq!(build.step(Event::Failed), Action::Stop);
    assert_eq!(
        build.phase(),
        &Phase::Failed(BuildError::MetadataUnavailable {
            path: "/p/bin/release/a.c.o".to_string()
        })
    );
}

#[test]
fn output_directory_that_cannot_be_read_fails_the_build() {
    let mut build = start(BuildMode::Debug);
    build.step(Event::Listed(vec![]));
    build.step(Event::Created);
    assert_eq!(build.step(Event::Failed), Action::Stop);
    assert_eq!(
        build.phase(),
        &Phase::Failed(BuildError::OutputDirectoryUnreadable {
            path: "/p/bin/debug".to_string()
        })
    );
}

#[test]
fn unreadable_output_entry_fails_the_build() {
    let mut build = start(BuildMode::Debug);
    build.step(Event::Listed(vec![]));
    build.step(Event::Created);
    let entries = vec![DirEntry { name: "x.o".to_string(), kind: EntryKind::Unknown }];
    assert_eq!(build.step(Event::Listed(entries)), Action::Stop);
    assert_eq!(
        build.phase(),
        &Phase::Failed(BuildError::MetadataUnavailable {
            path: "/p/bin/debug/x.o".to_string()
        })
    );
}

#[test]
fn event_that_was_not_asked_for_fails_the_build() {
    let mut build = start(BuildMode::Debug);
    assert_eq!(build.step(Event::Created), Action::Stop);
    assert_eq!(build.phase(), &Phase::Failed(BuildError::UnexpectedEvent));

    let mut build = start(BuildMode::Debug);
    build.step(Event::Listed(vec![file("a.c", 1)]));
    assert_eq!(build.step(Event::Exited(true)), Action::Stop);
    assert_eq!(build.phase(), &Phase::Failed(BuildError::UnexpectedEvent));

    let mut build = start(BuildMode::Debug);
    build.step(Event::Listed(vec![file("a.c", 1)]));
    build.step(Event::Created);
    assert_eq!(build.step(Event::Listed(vec![])), Action::Stop);
    assert_eq!(build.phase(), &Phase::Failed(BuildError::UnexpectedEvent));

    let mut build = start(BuildMode::Debug);
    build.step(Event::Listed(vec![file("a.c", 1)]));
    build.step(Event::Created);
    build.step(Event::Object(None));
    assert_eq!(build.step(Event::Object(None)), Action::Stop);
    assert_eq!(build.phase(), &Phase::Failed(BuildError::UnexpectedEvent));
}

#[test]
fn build_that_is_over_stays_over() {
    let mut world = World::new(&[("a.c", 10)]);
    let (mut done, _) = build(&mut world, BuildMode::Debug);
    for event in [Event::Created, Event::Failed, Event::Exited(false), Event::Object(None)] {
        assert_eq!(done.step(event), Action::Stop);
        assert_eq!(done.phase(), &Phase::Done);
    }

    let mut failed = start(BuildMode::Debug);
    failed.step(Event::Failed);
    for event in [Event::Created, Event::Listed(vec![file("a.c", 1)]), Event::Exited(true)] {
        assert_eq!(failed.step(event), Action::Stop);
        assert_eq!(failed.phase(), &Phase::Failed(BuildError::MissingSourceDirectory));
    }
}

#[test]
fn step_and_request_agree() {
    let mut build = start(BuildMode::Debug);
    let events = vec![
        Event::Listed(vec![file("a.c", 10)]),
        Event::Created,
        Event::Object(None),
        Event::Exited(true),
        Event::Listed(vec![file("a.c.o", 11)]),
        Event::Exited(true),
    ];
    for event in events {
        let action = build.step(event);
        assert_eq!(action, build.request());
    }
    assert_eq!(build.request(), Action::Stop);
}
