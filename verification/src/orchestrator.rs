//! A build, one decision at a time.
//!
//! A [`Build`] never reads a directory or runs a program. It says what it
//! needs next as an [`Action`]; whoever drives it carries the action out and
//! reports how it went as an [`Event`]; the build then decides what comes
//! next. It passes through these phases, in this order: it scans the source
//! directory, makes sure that the output directory exists, checks each source
//! file against its object file and compiles it where the object file is
//! stale, collects the object files, and links them. The first failure ends
//! it.

use vstd::prelude::*;
use crate::BuildMode;
use crate::command::{
    compile_command,
    compile_invocation,
    link_command,
    link_invocation,
    Invocation,
    InvocationView,
};
use crate::error::{BuildError, BuildErrorView};
use crate::layout::{
    lemma_out_dir_is_a_directory,
    object_file,
    object_path,
    out_dir,
    output_directory,
    source_directory,
    src_dir,
};
use crate::notice::{compiled_project, compiled_source, project_compiled, source_compiled};
use crate::path::{joined, lies_in};
use crate::project::{Lang, ProjConfig, Toolchain, ToolchainView};
use crate::scan::{
    collect_objects,
    collected,
    lemma_collected_lie_in,
    lemma_scanned_sources,
    scan_sources,
    scanned,
    DirEntry,
    DirEntryView,
    SourceEntry,
    SourceEntryView,
};
use crate::stale::{is_stale, stale, Timestamp};
use crate::views::views;

verus! {

/// What a build asks its driver to do.
#[derive(Debug, Clone, PartialEq, Eq)]
pub enum Action {
    /// List the entries of the directory `dir`.
    List { dir: String },
    /// Create the directory `dir` and its parents, unless they exist.
    CreateDir { dir: String },
    /// Find out whether the file at `path` exists and when it was last
    /// modified.
    Stat { path: String },
    /// Run the compiler on the source file at `source`, and show `notice`
    /// if it succeeds.
    Compile { source: String, command: Invocation, notice: String },
    /// Run the linker, and show `notice` if it succeeds.
    Link { command: Invocation, notice: String },
    /// Nothing: the build is over.
    Stop,
}

/// [`Action`] as a mathematical value.
pub enum ActionView {
    List { dir: Seq<char> },
    CreateDir { dir: Seq<char> },
    Stat { path: Seq<char> },
    Compile { source: Seq<char>, command: InvocationView, notice: Seq<char> },
    Link { command: InvocationView, notice: Seq<char> },
    Stop,
}

impl View for Action {
    type V = ActionView;

    open spec fn view(&self) -> ActionView {
        match self {
            Action::List { dir } => ActionView::List { dir: dir@ },
            Action::CreateDir { dir } => ActionView::CreateDir { dir: dir@ },
            Action::Stat { path } => ActionView::Stat { path: path@ },
            Action::Compile { source, command, notice } => ActionView::Compile {
                source: source@,
                command: command@,
                notice: notice@,
            },
            Action::Link { command, notice } => ActionView::Link {
                command: command@,
                notice: notice@,
            },
            Action::Stop => ActionView::Stop,
        }
    }
}

/// How the action that a build asked for went.
#[derive(Debug, Clone, PartialEq, Eq)]
pub enum Event {
    /// The directory was read: these are its entries, in the order in which
    /// the file system gave them.
    Listed(Vec<DirEntry>),
    /// The directory exists now.
    Created,
    /// The file was looked for: it does not exist, or it was last modified at
    /// the given time.
    Object(Option<Timestamp>),
    /// The program ran and ended, successfully or not.
    Exited(bool),
    /// The action could not be carried out.
    Failed,
}

/// [`Event`] as a mathematical value.
pub enum EventView {
    Listed(Seq<DirEntryView>),
    Created,
    Object(Option<Timestamp>),
    Exited(bool),
    Failed,
}

impl View for Event {
    type V = EventView;

    open spec fn view(&self) -> EventView {
        match self {
            Event::Listed(entries) => EventView::Listed(views(entries@)),
            Event::Created => EventView::Created,
            Event::Object(modified) => EventView::Object(*modified),
            Event::Exited(success) => EventView::Exited(*success),
            Event::Failed => EventView::Failed,
        }
    }
}

/// How far a build has come.
#[derive(Debug, Clone, PartialEq, Eq)]
pub enum Phase {
    /// It waits for the listing of the source directory.
    Scanning,
    /// It waits for the output directory to exist.
    Preparing,
    /// It waits to learn of the object file of the source at `index`.
    Checking { index: usize },
    /// It waits for the compiler to end on the source at `index`.
    Compiling { index: usize },
    /// It waits for the listing of the output directory.
    Collecting,
    /// It waits for the linker to end.
    Linking,
    /// It has produced the executable.
    Done,
    /// It has failed.
    Failed(BuildError),
}

/// [`Phase`] as a mathematical value.
pub enum PhaseView {
    Scanning,
    Preparing,
    Checking { index: nat },
    Compiling { index: nat },
    Collecting,
    Linking,
    Done,
    Failed(BuildErrorView),
}

impl View for Phase {
    type V = PhaseView;

    open spec fn view(&self) -> PhaseView {
        match self {
            Phase::Scanning => PhaseView::Scanning,
            Phase::Preparing => PhaseView::Preparing,
            Phase::Checking { index } => PhaseView::Checking { index: *index as nat },
            Phase::Compiling { index } => PhaseView::Compiling { index: *index as nat },
            Phase::Collecting => PhaseView::Collecting,
            Phase::Linking => PhaseView::Linking,
            Phase::Done => PhaseView::Done,
            Phase::Failed(error) => PhaseView::Failed(error@),
        }
    }
}

impl PhaseView {
    /// Whether a build in this phase is over.
    pub open spec fn is_final(self) -> bool {
        self is Done || self is Failed
    }
}

/// One build of one project in one mode.
#[derive(Debug)]
pub struct Build {
    name: String,
    mode: BuildMode,
    root: String,
    toolchain: Toolchain,
    sources: Vec<SourceEntry>,
    objects: Vec<String>,
    phase: Phase,
}

/// A build as a mathematical value.
pub struct BuildView {
    /// The project's name, which is also the name of its executable.
    pub name: Seq<char>,
    pub mode: BuildMode,
    /// The project's directory.
    pub root: Seq<char>,
    pub toolchain: ToolchainView,
    /// The source files that the scan found, in the order of the listing.
    pub sources: Seq<SourceEntryView>,
    /// The object files that the collection found.
    pub objects: Seq<Seq<char>>,
    pub phase: PhaseView,
}

impl BuildView {
    /// A build is well formed if the source that it works on is one of its
    /// sources, each of its sources lies in the project's source directory
    /// and has the language of its extension, and each of its object files
    /// lies in the output directory of its mode.
    pub open spec fn wf(self) -> bool {
        &&& match self.phase {
            PhaseView::Checking { index } => index < self.sources.len(),
            PhaseView::Compiling { index } => index < self.sources.len(),
            _ => true,
        }
        &&& forall|i: int|
            0 <= i < self.sources.len() ==> {
                &&& (#[trigger] self.sources[i]).path == joined(
                    src_dir(self.root),
                    self.sources[i].name,
                )
                &&& Lang::of_file_name(self.sources[i].name) == Some(self.sources[i].language)
            }
        &&& forall|j: int|
            0 <= j < self.objects.len() ==> lies_in(
                #[trigger] self.objects[j],
                out_dir(self.root, self.mode),
            )
    }

    /// The build before anything has happened.
    pub open spec fn start(
        name: Seq<char>,
        mode: BuildMode,
        root: Seq<char>,
        toolchain: ToolchainView,
    ) -> BuildView {
        BuildView {
            name,
            mode,
            root,
            toolchain,
            sources: Seq::empty(),
            objects: Seq::empty(),
            phase: PhaseView::Scanning,
        }
    }

    /// This build in another phase.
    pub open spec fn at(self, phase: PhaseView) -> BuildView {
        BuildView { phase, ..self }
    }

    /// This build, failed.
    pub open spec fn failed(self, error: BuildErrorView) -> BuildView {
        self.at(PhaseView::Failed(error))
    }

    /// The phase in which the sources from `index` on are dealt with: the
    /// check of the source at `index`, or the collection of the object files
    /// once no source is left.
    pub open spec fn check_from(self, index: nat) -> PhaseView {
        if index < self.sources.len() {
            PhaseView::Checking { index }
        } else {
            PhaseView::Collecting
        }
    }

    /// The compiler run for the source at `index`.
    pub open spec fn compilation(self, index: nat) -> InvocationView {
        compile_invocation(self.toolchain, self.mode, self.root, self.sources[index as int])
    }

    /// The request to compile the source at `index`.
    pub open spec fn compile_request(self, index: nat) -> ActionView {
        ActionView::Compile {
            source: self.sources[index as int].path,
            command: self.compilation(index),
            notice: compiled_source(self.sources[index as int].path),
        }
    }

    /// The request to find out about the object file of the source at
    /// `index`.
    pub open spec fn check_request(self, index: nat) -> ActionView {
        ActionView::Stat {
            path: object_path(self.root, self.mode, self.sources[index as int].name),
        }
    }

    /// The request to link the object files.
    pub open spec fn link_request(self) -> ActionView {
        ActionView::Link {
            command: link_invocation(
                self.toolchain,
                self.mode,
                self.root,
                self.name,
                self.objects,
            ),
            notice: compiled_project(self.name),
        }
    }

    /// What the build needs next.
    pub open spec fn request(self) -> ActionView {
        match self.phase {
            PhaseView::Scanning => ActionView::List { dir: src_dir(self.root) },
            PhaseView::Preparing => ActionView::CreateDir { dir: out_dir(self.root, self.mode) },
            PhaseView::Checking { index } => self.check_request(index),
            PhaseView::Compiling { index } => self.compile_request(index),
            PhaseView::Collecting => ActionView::List { dir: out_dir(self.root, self.mode) },
            PhaseView::Linking => self.link_request(),
            PhaseView::Done => ActionView::Stop,
            PhaseView::Failed(_) => ActionView::Stop,
        }
    }

    /// The build after `event`, which tells how the action that it asked for
    /// went. An event that does not answer that action fails the build. A
    /// build that is over stays as it is.
    pub open spec fn advance(self, event: EventView) -> BuildView {
        match self.phase {
            PhaseView::Scanning => match event {
                EventView::Listed(entries) => match scanned(src_dir(self.root), entries) {
                    Ok(sources) => BuildView { sources, phase: PhaseView::Preparing, ..self },
                    Err(error) => self.failed(error),
                },
                EventView::Failed => self.failed(BuildErrorView::MissingSourceDirectory),
                _ => self.failed(BuildErrorView::UnexpectedEvent),
            },
            PhaseView::Preparing => match event {
                EventView::Created => self.at(self.check_from(0)),
                EventView::Failed => self.failed(
                    BuildErrorView::OutputDirectoryNotCreated { root: self.root },
                ),
                _ => self.failed(BuildErrorView::UnexpectedEvent),
            },
            PhaseView::Checking { index } => match event {
                EventView::Object(object) => if stale(
                    self.sources[index as int].modified,
                    object,
                ) {
                    self.at(PhaseView::Compiling { index })
                } else {
                    self.at(self.check_from(index + 1))
                },
                EventView::Failed => self.failed(
                    BuildErrorView::MetadataUnavailable {
                        path: object_path(self.root, self.mode, self.sources[index as int].name),
                    },
                ),
                _ => self.failed(BuildErrorView::UnexpectedEvent),
            },
            PhaseView::Compiling { index } => match event {
                EventView::Exited(success) => if success {
                    self.at(self.check_from(index + 1))
                } else {
                    self.failed(
                        BuildErrorView::CompileFailed { path: self.sources[index as int].path },
                    )
                },
                EventView::Failed => self.failed(
                    BuildErrorView::ToolchainUnavailable {
                        command: self.compilation(index).program,
                    },
                ),
                _ => self.failed(BuildErrorView::UnexpectedEvent),
            },
            PhaseView::Collecting => match event {
                EventView::Listed(entries) => match collected(
                    out_dir(self.root, self.mode),
                    entries,
                ) {
                    Ok(objects) => BuildView { objects, phase: PhaseView::Linking, ..self },
                    Err(error) => self.failed(error),
                },
                EventView::Failed => self.failed(
                    BuildErrorView::OutputDirectoryUnreadable {
                        path: out_dir(self.root, self.mode),
                    },
                ),
                _ => self.failed(BuildErrorView::UnexpectedEvent),
            },
            PhaseView::Linking => match event {
                EventView::Exited(success) => if success {
                    self.at(PhaseView::Done)
                } else {
                    self.failed(BuildErrorView::LinkFailed)
                },
                EventView::Failed => self.failed(
                    BuildErrorView::ToolchainUnavailable { command: self.toolchain.cc },
                ),
                _ => self.failed(BuildErrorView::UnexpectedEvent),
            },
            PhaseView::Done => self,
            PhaseView::Failed(_) => self,
        }
    }
}

impl View for Build {
    type V = BuildView;

    closed spec fn view(&self) -> BuildView {
        BuildView {
            name: self.name@,
            mode: self.mode,
            root: self.root@,
            toolchain: self.toolchain@,
            sources: views(self.sources@),
            objects: views(self.objects@),
            phase: self.phase@,
        }
    }
}

impl Build {
    #[verifier::type_invariant]
    spec fn inv(self) -> bool {
        self@.wf()
    }

    /// A build of the project described by `config`, which lies in the
    /// directory `root`, in the given mode and with the given compilers.
    pub fn new(config: &ProjConfig, mode: BuildMode, root: &str, toolchain: Toolchain) -> (build:
        Build)
        ensures
            build@ == BuildView::start(config.name@, mode, root@, toolchain@),
            build@.wf(),
    {
        let build = Build {
            name: config.name.clone(),
            mode,
            root: String::from_str(root),
            toolchain,
            sources: Vec::new(),
            objects: Vec::new(),
            phase: Phase::Scanning,
        };
        assert(views(build.sources@) =~= Seq::empty());
        assert(views(build.objects@) =~= Seq::empty());
        build
    }

    /// How far the build has come.
    pub fn phase(&self) -> (phase: &Phase)
        ensures
            phase@ == self@.phase,
    {
        &self.phase
    }

    /// The source files that the scan found.
    pub fn sources(&self) -> (sources: &Vec<SourceEntry>)
        ensures
            views(sources@) == self@.sources,
    {
        &self.sources
    }

    /// What the build needs next.
    pub fn request(&self) -> (action: Action)
        ensures
            action@ == self@.request(),
    {
        proof {
            use_type_invariant(self);
        }
        match self.phase {
            Phase::Scanning => Action::List { dir: source_directory(self.root.as_str()) },
            Phase::Preparing => Action::CreateDir {
                dir: output_directory(self.root.as_str(), self.mode),
            },
            Phase::Checking { index } => {
                let source = &self.sources[index];
                Action::Stat {
                    path: object_file(self.root.as_str(), self.mode, source.name.as_str()),
                }
            },
            Phase::Compiling { index } => {
                let source = &self.sources[index];
                Action::Compile {
                    source: source.path.clone(),
                    command: compile_command(
                        &self.toolchain,
                        self.mode,
                        self.root.as_str(),
                        source,
                    ),
                    notice: source_compiled(source.path.as_str()),
                }
            },
            Phase::Collecting => Action::List {
                dir: output_directory(self.root.as_str(), self.mode),
            },
            Phase::Linking => Action::Link {
                command: link_command(
                    &self.toolchain,
                    self.mode,
                    self.root.as_str(),
                    self.name.as_str(),
                    &self.objects,
                ),
                notice: project_compiled(self.name.as_str()),
            },
            Phase::Done => Action::Stop,
            Phase::Failed(_) => Action::Stop,
        }
    }

    /// The phase in which the sources from `index` on are dealt with.
    fn check_from(&self, index: usize) -> (phase: Phase)
        ensures
            phase@ == self@.check_from(index as nat),
    {
        if index < self.sources.len() {
            Phase::Checking { index }
        } else {
            Phase::Collecting
        }
    }

    /// Takes in how the action that the build asked for went, and says what
    /// the build needs next.
    pub fn step(&mut self, event: Event) -> (action: Action)
        ensures
            final(self)@ == old(self)@.advance(event@),
            action@ == final(self)@.request(),
            final(self)@.wf(),
    {
        proof {
            use_type_invariant(&*self);
            assert(views(self.sources@).len() == self.sources.len());
        }
        match self.phase {
            Phase::Scanning => match event {
                Event::Listed(entries) => {
                    let dir = source_directory(self.root.as_str());
                    match scan_sources(dir.as_str(), &entries) {
                        Ok(sources) => {
                            proof {
                                lemma_scanned_sources(dir@, views(entries@));
                            }
                            self.sources = sources;
                            self.phase = Phase::Preparing;
                        },
                        Err(error) => {
                            self.phase = Phase::Failed(error);
                        },
                    }
                },
                Event::Failed => {
                    self.phase = Phase::Failed(BuildError::MissingSourceDirectory);
                },
                _ => {
                    self.phase = Phase::Failed(BuildError::UnexpectedEvent);
                },
            },
            Phase::Preparing => match event {
                Event::Created => {
                    self.phase = self.check_from(0);
                },
                Event::Failed => {
                    self.phase = Phase::Failed(
                        BuildError::OutputDirectoryNotCreated { root: self.root.clone() },
                    );
                },
                _ => {
                    self.phase = Phase::Failed(BuildError::UnexpectedEvent);
                },
            },
            Phase::Checking { index } => match event {
                Event::Object(object) => {
                    if is_stale(self.sources[index].modified, object) {
                        self.phase = Phase::Compiling { index };
                    } else {
                        self.phase = self.check_from(index + 1);
                    }
                },
                Event::Failed => {
                    let path = object_file(
                        self.root.as_str(),
                        self.mode,
                        self.sources[index].name.as_str(),
                    );
                    self.phase = Phase::Failed(BuildError::MetadataUnavailable { path });
                },
                _ => {
                    self.phase = Phase::Failed(BuildError::UnexpectedEvent);
                },
            },
            Phase::Compiling { index } => match event {
                Event::Exited(success) => {
                    if success {
                        self.phase = self.check_from(index + 1);
                    } else {
                        let path = self.sources[index].path.clone();
                        self.phase = Phase::Failed(BuildError::CompileFailed { path });
                    }
                },
                Event::Failed => {
                    let command = String::from_str(
                        self.sources[index].language.get_compiler(&self.toolchain),
                    );
                    self.phase = Phase::Failed(BuildError::ToolchainUnavailable { command });
                },
                _ => {
                    self.phase = Phase::Failed(BuildError::UnexpectedEvent);
                },
            },
            Phase::Collecting => match event {
                Event::Listed(entries) => {
                    let dir = output_directory(self.root.as_str(), self.mode);
                    match collect_objects(dir.as_str(), &entries) {
                        Ok(objects) => {
                            proof {
                                lemma_out_dir_is_a_directory(self.root@, self.mode);
                                lemma_collected_lie_in(dir@, views(entries@));
                            }
                            self.objects = objects;
                            self.phase = Phase::Linking;
                        },
                        Err(error) => {
                            self.phase = Phase::Failed(error);
                        },
                    }
                },
                Event::Failed => {
                    let path = output_directory(self.root.as_str(), self.mode);
                    self.phase = Phase::Failed(BuildError::OutputDirectoryUnreadable { path });
                },
                _ => {
                    self.phase = Phase::Failed(BuildError::UnexpectedEvent);
                },
            },
            Phase::Linking => match event {
                Event::Exited(success) => {
                    if success {
                        self.phase = Phase::Done;
                    } else {
                        self.phase = Phase::Failed(BuildError::LinkFailed);
                    }
                },
                Event::Failed => {
                    let command = self.toolchain.cc.clone();
                    self.phase = Phase::Failed(BuildError::ToolchainUnavailable { command });
                },
                _ => {
                    self.phase = Phase::Failed(BuildError::UnexpectedEvent);
                },
            },
            Phase::Done => {},
            Phase::Failed(_) => {},
        }
        proof {
            use_type_invariant(&*self);
        }
        self.request()
    }
}

} // verus!
