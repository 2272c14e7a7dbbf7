//! What a project is made of: its descriptor, the languages of its source
//! files and the compilers that build them.

use vstd::prelude::*;
use crate::path::{extension, extension_of};
use crate::text::same_text;

verus! {

/// The project descriptor.
#[derive(Debug, Clone, PartialEq, Eq)]
pub struct ProjConfig {
    pub name: String,
}

/// The compiler commands of one build, fixed before the build starts.
#[derive(Debug, Clone, PartialEq, Eq)]
pub struct Toolchain {
    /// The C compiler, which also links.
    pub cc: String,
    /// The C++ compiler.
    pub cxx: String,
}

/// [`Toolchain`] as a mathematical value.
pub struct ToolchainView {
    pub cc: Seq<char>,
    pub cxx: Seq<char>,
}

impl View for Toolchain {
    type V = ToolchainView;

    open spec fn view(&self) -> ToolchainView {
        ToolchainView { cc: self.cc@, cxx: self.cxx@ }
    }
}

impl Toolchain {
    /// The toolchain that two optional overrides select: a compiler that is
    /// not overridden is `cc` for C and `c++` for C++.
    pub fn resolve(cc: Option<String>, cxx: Option<String>) -> (toolchain: Toolchain)
        ensures
            toolchain@.cc == (match cc {
                Some(command) => command@,
                None => "cc"@,
            }),
            toolchain@.cxx == (match cxx {
                Some(command) => command@,
                None => "c++"@,
            }),
    {
        let cc = match cc {
            Some(command) => command,
            None => String::from_str("cc"),
        };
        let cxx = match cxx {
            Some(command) => command,
            None => String::from_str("c++"),
        };
        Toolchain { cc, cxx }
    }
}

/// The language of a source file.
#[derive(Debug, Clone, Copy, PartialEq, Eq, Structural)]
pub enum Lang {
    C,
    Cpp,
}

impl Lang {
    /// The language that a file extension stands for, if any.
    pub open spec fn of_extension(ext: Seq<char>) -> Option<Lang> {
        if ext == "c"@ {
            Some(Lang::C)
        } else if ext == "cc"@ || ext == "cxx"@ || ext == "cpp"@ || ext == "c++"@ {
            Some(Lang::Cpp)
        } else {
            None
        }
    }

    /// The language of the file with the given name: that of its extension.
    pub open spec fn of_file_name(name: Seq<char>) -> Option<Lang> {
        match extension_of(name) {
            Some(ext) => Lang::of_extension(ext),
            None => None,
        }
    }

    /// The command that compiles this language.
    pub open spec fn compiler(self, toolchain: ToolchainView) -> Seq<char> {
        match self {
            Lang::C => toolchain.cc,
            Lang::Cpp => toolchain.cxx,
        }
    }

    /// The command that compiles this language.
    pub fn get_compiler<'a>(&self, toolchain: &'a Toolchain) -> (command: &'a str)
        ensures
            command@ == self.compiler(toolchain@),
    {
        match self {
            Lang::C => toolchain.cc.as_str(),
            Lang::Cpp => toolchain.cxx.as_str(),
        }
    }

    /// Reads a file extension, without its dot.
    pub fn from_str(s: &str) -> (lang: Result<Lang, ()>)
        ensures
            lang == (match Lang::of_extension(s@) {
                Some(l) => Ok::<Lang, ()>(l),
                None => Err::<Lang, ()>(()),
            }),
    {
        if same_text(s, "c") {
            Ok(Lang::C)
        } else if same_text(s, "cc") || same_text(s, "cxx") || same_text(s, "cpp") || same_text(
            s,
            "c++",
        ) {
            Ok(Lang::Cpp)
        } else {
            Err(())
        }
    }

    /// The language of the file with the given name.
    pub fn of_name(name: &str) -> (lang: Option<Lang>)
        ensures
            lang == Lang::of_file_name(name@),
    {
        match extension(name) {
            Some(ext) => match Lang::from_str(ext) {
                Ok(lang) => Some(lang),
                Err(_) => None,
            },
            None => None,
        }
    }
}

} // verus!
