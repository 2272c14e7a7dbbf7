//! The command line, read word by word.

use vstd::prelude::*;
use crate::text::same_text;
use crate::views::views;

verus! {

/// The command line in a more structured form.
#[derive(Debug, Clone, PartialEq, Eq)]
pub enum Config {
    /// Print the help message.
    Help,
    /// Create a new project.
    New { name: String },
    /// Build the project in the working directory, in the given mode.
    Build { mode: BuildMode },
    /// Build the project in the working directory in the given mode, then
    /// run it.
    Run { mode: BuildMode },
}

/// [`Config`] as a mathematical value.
pub enum ConfigView {
    Help,
    New { name: Seq<char> },
    Build { mode: BuildMode },
    Run { mode: BuildMode },
}

impl View for Config {
    type V = ConfigView;

    open spec fn view(&self) -> ConfigView {
        match self {
            Config::Help => ConfigView::Help,
            Config::New { name } => ConfigView::New { name: name@ },
            Config::Build { mode } => ConfigView::Build { mode: *mode },
            Config::Run { mode } => ConfigView::Run { mode: *mode },
        }
    }
}

/// The optimisation level to be used for compilation.
#[derive(Debug, Clone, Copy, PartialEq, Eq, Structural)]
pub enum BuildMode {
    Debug,
    Release,
}

/// Why a command line was not understood.
#[derive(Debug, Clone, PartialEq, Eq)]
pub enum ArgsError {
    InvalidSubcommand(String),
    InvalidFlag(String),
    MissingArg { arg: String, subcommand: String },
}

/// [`ArgsError`] as a mathematical value.
pub enum ArgsErrorView {
    InvalidSubcommand(Seq<char>),
    InvalidFlag(Seq<char>),
    MissingArg { arg: Seq<char>, subcommand: Seq<char> },
}

impl View for ArgsError {
    type V = ArgsErrorView;

    open spec fn view(&self) -> ArgsErrorView {
        match self {
            ArgsError::InvalidSubcommand(word) => ArgsErrorView::InvalidSubcommand(word@),
            ArgsError::InvalidFlag(word) => ArgsErrorView::InvalidFlag(word@),
            ArgsError::MissingArg { arg, subcommand } => ArgsErrorView::MissingArg {
                arg: arg@,
                subcommand: subcommand@,
            },
        }
    }
}

impl ArgsErrorView {
    /// The message shown to the user.
    pub open spec fn message(self) -> Seq<char> {
        match self {
            ArgsErrorView::InvalidSubcommand(word) => "'"@ + word + "' is not a valid subcommand"@,
            ArgsErrorView::InvalidFlag(word) => "'"@ + word + "' is not a valid flag"@,
            ArgsErrorView::MissingArg { arg, subcommand } => "Missing arg '"@ + arg
                + "' for 'bake "@ + subcommand + "'"@,
        }
    }
}

impl ArgsError {
    /// The message shown to the user.
    pub fn to_string(&self) -> (text: String)
        ensures
            text@ == self@.message(),
    {
        match self {
            ArgsError::InvalidSubcommand(word) => {
                let mut text = String::from_str("'");
                text.append(word.as_str());
                text.append("' is not a valid subcommand");
                text
            },
            ArgsError::InvalidFlag(word) => {
                let mut text = String::from_str("'");
                text.append(word.as_str());
                text.append("' is not a valid flag");
                text
            },
            ArgsError::MissingArg { arg, subcommand } => {
                let mut text = String::from_str("Missing arg '");
                text.append(arg.as_str());
                text.append("' for 'bake ");
                text.append(subcommand.as_str());
                text.append("'");
                text
            },
        }
    }
}

/// The mode that a flag selects, if it is a mode flag.
pub open spec fn mode_of_flag(flag: Seq<char>) -> Option<BuildMode> {
    if flag == "--debug"@ {
        Some(BuildMode::Debug)
    } else if flag == "--release"@ {
        Some(BuildMode::Release)
    } else {
        None
    }
}

/// Whether a word looks like a flag: it starts with `-`.
pub open spec fn is_flag(word: Seq<char>) -> bool {
    word.len() > 0 && word[0] == '-'
}

/// What the words `args` ask for, where the words before them asked for
/// `config`.
///
/// `help` and `--help` change nothing. `new` and `init` take the next word as
/// the project's name. `build` and `run` take the next word as the mode,
/// which it must be; without a next word the mode is debug. Any other word is
/// an error. Where several subcommands are given, the last one counts.
pub open spec fn parsed_after(args: Seq<Seq<char>>, config: ConfigView) -> Result<
    ConfigView,
    ArgsErrorView,
>
    decreases args.len(),
{
    if args.len() == 0 {
        Ok(config)
    } else {
        let word = args[0];
        if word == "help"@ || word == "--help"@ {
            parsed_after(args.skip(1), config)
        } else if word == "new"@ || word == "init"@ {
            if args.len() == 1 {
                Err(ArgsErrorView::MissingArg { arg: "project_name"@, subcommand: word })
            } else {
                parsed_after(args.skip(2), ConfigView::New { name: args[1] })
            }
        } else if word == "build"@ || word == "run"@ {
            if args.len() == 1 {
                Ok(with_mode(word, BuildMode::Debug))
            } else {
                match mode_of_flag(args[1]) {
                    Some(mode) => parsed_after(args.skip(2), with_mode(word, mode)),
                    None => Err(ArgsErrorView::InvalidFlag(args[1])),
                }
            }
        } else if is_flag(word) {
            Err(ArgsErrorView::InvalidFlag(word))
        } else {
            Err(ArgsErrorView::InvalidSubcommand(word))
        }
    }
}

/// The request that the subcommand `word`, which is `build` or `run`, makes
/// with the given mode.
pub open spec fn with_mode(word: Seq<char>, mode: BuildMode) -> ConfigView {
    if word == "build"@ {
        ConfigView::Build { mode }
    } else {
        ConfigView::Run { mode }
    }
}

/// What a command line asks for. Without any word it asks for help.
pub open spec fn parsed(args: Seq<Seq<char>>) -> Result<ConfigView, ArgsErrorView> {
    parsed_after(args, ConfigView::Help)
}

/// Reads a mode flag.
fn read_mode(flag: &str) -> (mode: Option<BuildMode>)
    ensures
        mode == mode_of_flag(flag@),
{
    if same_text(flag, "--debug") {
        Some(BuildMode::Debug)
    } else if same_text(flag, "--release") {
        Some(BuildMode::Release)
    } else {
        None
    }
}

/// Whether a word starts with `-`.
fn looks_like_flag(word: &str) -> (flag: bool)
    ensures
        flag == is_flag(word@),
{
    !word.is_empty() && word.get_char(0) == '-'
}

impl Config {
    /// Reads the command line. `args` are its words without the program's
    /// name.
    pub fn new(args: Vec<String>) -> (config: Result<Config, ArgsError>)
        ensures
            match config {
                Ok(config) => parsed(views(args@)) == Ok::<ConfigView, ArgsErrorView>(config@),
                Err(error) => parsed(views(args@)) == Err::<ConfigView, ArgsErrorView>(error@),
            },
    {
        let ghost words = views(args@);
        let mut config = Config::Help;
        let mut i: usize = 0;
        assert(words.skip(0) =~= words);
        while i < args.len()
            invariant
                i <= args.len(),
                words == views(args@),
                parsed_after(words.skip(i as int), config@) == parsed(words),
            decreases args.len() - i,
        {
            let word = args[i].as_str();
            proof {
                assert(words.skip(i as int).skip(1) =~= words.skip(i + 1));
                if i + 1 < args.len() {
                    assert(words.skip(i as int).skip(2) =~= words.skip(i + 2));
                }
            }
            if same_text(word, "help") || same_text(word, "--help") {
                i += 1;
            } else if same_text(word, "new") || same_text(word, "init") {
                if i + 1 < args.len() {
                    config = Config::New { name: args[i + 1].clone() };
                    i += 2;
                } else {
                    return Err(
                        ArgsError::MissingArg {
                            arg: String::from_str("project_name"),
                            subcommand: args[i].clone(),
                        },
                    );
                }
            } else if same_text(word, "build") || same_text(word, "run") {
                let build = same_text(word, "build");
                let mode = if i + 1 < args.len() {
                    match read_mode(args[i + 1].as_str()) {
                        Some(mode) => mode,
                        None => {
                            return Err(ArgsError::InvalidFlag(args[i + 1].clone()));
                        },
                    }
                } else {
                    BuildMode::Debug
                };
                config = if build {
                    Config::Build { mode }
                } else {
                    Config::Run { mode }
                };
                if i + 1 < args.len() {
                    i += 2;
                } else {
                    i += 1;
                }
            } else if looks_like_flag(word) {
                return Err(ArgsError::InvalidFlag(args[i].clone()));
            } else {
                return Err(ArgsError::InvalidSubcommand(args[i].clone()));
            }
        }
        Ok(config)
    }
}

} // verus!
