//! A small build tool for C and C++ projects that live in one directory.
//!
//! A project has a `src/` directory of source files and a descriptor that
//! names it. A build compiles every source file whose object file is missing
//! or older than the source, then links all object files of the chosen mode
//! into one executable under `bin/<mode>/`.
//!
//! This crate holds the decisions of such a build and proves what they
//! guarantee. It never touches the file system and never starts a process:
//! the caller performs each [`orchestrator::Action`] and hands the outcome
//! back as an [`orchestrator::Event`].

use vstd::prelude::*;

pub mod command;
pub mod config;
pub mod error;
pub mod laws;
pub mod layout;
pub mod notice;
pub mod orchestrator;
pub mod path;
pub mod pattern;
pub mod project;
pub mod rebuild;
pub mod scaffold;
pub mod scan;
pub mod stale;
pub mod text;
pub mod views;

verus! {

/// The command line as a whole.
#[derive(Debug, Clone, PartialEq, Eq)]
pub struct Config {
    pub command: Command,
}

/// What the user asked for.
#[derive(Debug, Clone, PartialEq, Eq)]
pub enum Command {
    /// Create a new project.
    New { name: String },
    /// Build the project in the working directory.
    Build { mode: BuildMode },
    /// Build the project in the working directory, then run it.
    Run { mode: BuildMode },
}

/// The optimisation level to be used for compilation.
#[derive(Debug, Clone, Copy, PartialEq, Eq, Structural)]
pub enum BuildMode {
    Debug,
    Release,
}

impl BuildMode {
    /// The optimisation flag handed to the compiler and the linker.
    pub open spec fn flag(self) -> Seq<char> {
        match self {
            BuildMode::Debug => "-O0"@,
            BuildMode::Release => "-O3"@,
        }
    }

    /// The name of the directory under `bin/` that holds what this mode
    /// produces.
    pub open spec fn dir_name(self) -> Seq<char> {
        match self {
            BuildMode::Debug => "debug"@,
            BuildMode::Release => "release"@,
        }
    }

    /// The optimisation flag handed to the compiler and the linker.
    pub fn to_flag(self) -> (flag: &'static str)
        ensures
            flag@ == self.flag(),
    {
        match self {
            BuildMode::Debug => "-O0",
            BuildMode::Release => "-O3",
        }
    }

    /// The mode's name in lower case, as it appears in paths.
    pub fn to_string(&self) -> (name: String)
        ensures
            name@ == self.dir_name(),
    {
        match self {
            BuildMode::Debug => String::from_str("debug"),
            BuildMode::Release => String::from_str("release"),
        }
    }
}

impl Default for BuildMode {
    fn default() -> (mode: Self)
        ensures
            mode == BuildMode::Debug,
    {
        BuildMode::Debug
    }
}

} // verus!
