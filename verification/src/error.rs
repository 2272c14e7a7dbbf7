//! The ways in which a build fails. Each is fatal: a build that has failed
//! does nothing more.

use vstd::prelude::*;

verus! {

/// Why a build failed.
#[derive(Debug, Clone, PartialEq, Eq)]
pub enum BuildError {
    /// The directory of the source files could not be read.
    MissingSourceDirectory,
    /// Nothing could be learned about the file at `path`.
    MetadataUnavailable { path: String },
    /// The output directory could not be created in the project at `root`.
    OutputDirectoryNotCreated { root: String },
    /// The output directory at `path` could not be read.
    OutputDirectoryUnreadable { path: String },
    /// The program `command` could not be started.
    ToolchainUnavailable { command: String },
    /// The compiler rejected the source file at `path`.
    CompileFailed { path: String },
    /// The linker did not produce the executable.
    LinkFailed,
    /// The build was told of something that it had not asked for.
    UnexpectedEvent,
}

/// [`BuildError`] as a mathematical value.
pub enum BuildErrorView {
    MissingSourceDirectory,
    MetadataUnavailable { path: Seq<char> },
    OutputDirectoryNotCreated { root: Seq<char> },
    OutputDirectoryUnreadable { path: Seq<char> },
    ToolchainUnavailable { command: Seq<char> },
    CompileFailed { path: Seq<char> },
    LinkFailed,
    UnexpectedEvent,
}

impl View for BuildError {
    type V = BuildErrorView;

    open spec fn view(&self) -> BuildErrorView {
        match self {
            BuildError::MissingSourceDirectory => BuildErrorView::MissingSourceDirectory,
            BuildError::MetadataUnavailable { path } => BuildErrorView::MetadataUnavailable {
                path: path@,
            },
            BuildError::OutputDirectoryNotCreated { root } => {
                BuildErrorView::OutputDirectoryNotCreated { root: root@ }
            },
            BuildError::OutputDirectoryUnreadable { path } => {
                BuildErrorView::OutputDirectoryUnreadable { path: path@ }
            },
            BuildError::ToolchainUnavailable { command } => BuildErrorView::ToolchainUnavailable {
                command: command@,
            },
            BuildError::CompileFailed { path } => BuildErrorView::CompileFailed { path: path@ },
            BuildError::LinkFailed => BuildErrorView::LinkFailed,
            BuildError::UnexpectedEvent => BuildErrorView::UnexpectedEvent,
        }
    }
}

impl BuildErrorView {
    /// `subject` between single quotes, after `before`.
    pub open spec fn quoted(before: Seq<char>, subject: Seq<char>) -> Seq<char> {
        before + "'"@ + subject + "'"@
    }

    /// The message shown to the user.
    pub open spec fn message(self) -> Seq<char> {
        match self {
            BuildErrorView::MissingSourceDirectory => "Failed to read 'src/'"@,
            BuildErrorView::MetadataUnavailable { path } => Self::quoted(
                "Failed to read metadata of "@,
                path,
            ),
            BuildErrorView::OutputDirectoryNotCreated { root } => Self::quoted(
                "Failed to create 'bin/' in "@,
                root,
            ),
            BuildErrorView::OutputDirectoryUnreadable { path } => Self::quoted(
                "Failed to read "@,
                path,
            ),
            BuildErrorView::ToolchainUnavailable { command } => Self::quoted(
                "Failed to run "@,
                command,
            ),
            BuildErrorView::CompileFailed { path } => Self::quoted(
                "Failed to compile file "@,
                path,
            ),
            BuildErrorView::LinkFailed => "Failed to link executable"@,
            BuildErrorView::UnexpectedEvent => "Unexpected event"@,
        }
    }
}

/// `subject` between single quotes, after `before`.
fn quote(before: &str, subject: &str) -> (text: String)
    ensures
        text@ == BuildErrorView::quoted(before@, subject@),
{
    let mut text = String::from_str(before);
    text.append("'");
    text.append(subject);
    text.append("'");
    text
}

impl BuildError {
    /// The message shown to the user.
    pub fn to_string(&self) -> (text: String)
        ensures
            text@ == self@.message(),
    {
        match self {
            BuildError::MissingSourceDirectory => String::from_str("Failed to read 'src/'"),
            BuildError::MetadataUnavailable { path } => quote(
                "Failed to read metadata of ",
                path.as_str(),
            ),
            BuildError::OutputDirectoryNotCreated { root } => quote(
                "Failed to create 'bin/' in ",
                root.as_str(),
            ),
            BuildError::OutputDirectoryUnreadable { path } => quote(
                "Failed to read ",
                path.as_str(),
            ),
            BuildError::ToolchainUnavailable { command } => quote(
                "Failed to run ",
                command.as_str(),
            ),
            BuildError::CompileFailed { path } => quote("Failed to compile file ", path.as_str()),
            BuildError::LinkFailed => String::from_str("Failed to link executable"),
            BuildError::UnexpectedEvent => String::from_str("Unexpected event"),
        }
    }
}

} // verus!
