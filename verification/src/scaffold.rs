//! A new project: the rule that its name obeys, and the directories and
//! files that it starts with.

use vstd::prelude::*;
use crate::path::{join, joined};
use crate::pattern::{find_match, regex_compiles, regex_finds};
use crate::views::views;

verus! {

/// The regular expression that a project name has to match.
pub const PROJECT_NAME_PATTERN: &'static str = "^[A-Za-z_][A-Za-z0-9-_]*$";

/// The program that a new project starts with.
pub const DEFAULT_MAIN_C: &'static str =
    "#include <stdio.h>\n\nint main(int argc, char *argv[]) {\n    puts(\"Hello World\");\n    return 0;\n}\n";

/// One step in the making of a new project. Each step comes with the message
/// to show if it cannot be carried out.
#[derive(Debug, Clone, PartialEq, Eq)]
pub enum ScaffoldStep {
    /// Create the directory at `path`, which must not exist yet.
    CreateDir { path: String, failure: String },
    /// Write `contents` to the file at `path`.
    WriteFile { path: String, contents: String, failure: String },
}

/// [`ScaffoldStep`] as a mathematical value.
pub enum ScaffoldStepView {
    CreateDir { path: Seq<char>, failure: Seq<char> },
    WriteFile { path: Seq<char>, contents: Seq<char>, failure: Seq<char> },
}

impl View for ScaffoldStep {
    type V = ScaffoldStepView;

    open spec fn view(&self) -> ScaffoldStepView {
        match self {
            ScaffoldStep::CreateDir { path, failure } => ScaffoldStepView::CreateDir {
                path: path@,
                failure: failure@,
            },
            ScaffoldStep::WriteFile { path, contents, failure } => ScaffoldStepView::WriteFile {
                path: path@,
                contents: contents@,
                failure: failure@,
            },
        }
    }
}

/// A name that no project can have.
#[derive(Debug, Clone, PartialEq, Eq)]
pub struct InvalidProject {
    pub name: String,
}

impl InvalidProject {
    /// The message shown to the user.
    pub open spec fn message(name: Seq<char>) -> Seq<char> {
        name + " is not a valid project name"@
    }

    /// The message shown to the user.
    pub fn to_string(&self) -> (text: String)
        ensures
            text@ == Self::message(self.name@),
    {
        let mut text = self.name.clone();
        text.append(" is not a valid project name");
        text
    }
}

/// Whether `name` can be the name of a project: the pattern for project
/// names is a regular expression in which `name` has a match.
pub open spec fn name_accepted(name: Seq<char>) -> bool {
    regex_compiles(PROJECT_NAME_PATTERN@) && regex_finds(PROJECT_NAME_PATTERN@, name)
}

/// The descriptor of the project called `name`, as the text of its file.
pub open spec fn descriptor_text(name: Seq<char>) -> Seq<char> {
    "name=\""@ + name + "\"\n"@
}

/// The steps that make the project called `name` in the directory `parent`:
/// the project's directory, its descriptor, its source directory with a first
/// program, and a list of what version control is to ignore.
pub open spec fn scaffold_steps(parent: Seq<char>, name: Seq<char>) -> Seq<ScaffoldStepView> {
    let dir = joined(parent, name);
    seq![
        ScaffoldStepView::CreateDir {
            path: dir,
            failure: "Failed to create project directory at '"@ + dir + "'"@,
        },
        ScaffoldStepView::WriteFile {
            path: joined(dir, "bake.toml"@),
            contents: descriptor_text(name),
            failure: "Failed to create 'bake.toml'"@,
        },
        ScaffoldStepView::CreateDir {
            path: joined(dir, "src"@),
            failure: "Failed to create 'src/'"@,
        },
        ScaffoldStepView::WriteFile {
            path: joined(joined(dir, "src"@), "main.c"@),
            contents: DEFAULT_MAIN_C@,
            failure: "Failed to create 'main.c'"@,
        },
        ScaffoldStepView::WriteFile {
            path: joined(dir, ".gitignore"@),
            contents: "bin/\n"@,
            failure: "Failed to create '.gitignore'"@,
        },
    ]
}

/// What making the project called `name` in the directory `parent` comes to,
/// given whether the name is valid: the steps to take, or the name as an
/// error.
pub open spec fn scaffold_plan(valid: bool, parent: Seq<char>, name: Seq<char>) -> Result<
    Seq<ScaffoldStepView>,
    Seq<char>,
> {
    if valid {
        Ok(scaffold_steps(parent, name))
    } else {
        Err(name)
    }
}

/// Whether `name` can be the name of a project.
pub fn is_valid_project_name(name: &str) -> (valid: bool)
    ensures
        valid == name_accepted(name@),
{
    match find_match(PROJECT_NAME_PATTERN, name) {
        Ok(found) => found,
        Err(_) => false,
    }
}

/// Plans the project called `name` in the directory `parent`, given whether
/// the name is valid.
pub fn plan_project(valid: bool, parent: &str, name: &str) -> (plan: Result<
    Vec<ScaffoldStep>,
    InvalidProject,
>)
    ensures
        match plan {
            Ok(steps) => scaffold_plan(valid, parent@, name@) == Ok::<
                Seq<ScaffoldStepView>,
                Seq<char>,
            >(views(steps@)),
            Err(error) => scaffold_plan(valid, parent@, name@) == Err::<
                Seq<ScaffoldStepView>,
                Seq<char>,
            >(error.name@),
        },
{
    if !valid {
        return Err(InvalidProject { name: String::from_str(name) });
    }
    let dir = join(parent, name);
    let src = join(dir.as_str(), "src");
    let mut failure = String::from_str("Failed to create project directory at '");
    failure.append(dir.as_str());
    failure.append("'");
    let mut descriptor = String::from_str("name=\"");
    descriptor.append(name);
    descriptor.append("\"\n");
    let mut steps: Vec<ScaffoldStep> = Vec::new();
    steps.push(ScaffoldStep::CreateDir { path: dir.clone(), failure });
    steps.push(
        ScaffoldStep::WriteFile {
            path: join(dir.as_str(), "bake.toml"),
            contents: descriptor,
            failure: String::from_str("Failed to create 'bake.toml'"),
        },
    );
    steps.push(
        ScaffoldStep::CreateDir {
            path: src.clone(),
            failure: String::from_str("Failed to create 'src/'"),
        },
    );
    steps.push(
        ScaffoldStep::WriteFile {
            path: join(src.as_str(), "main.c"),
            contents: String::from_str(DEFAULT_MAIN_C),
            failure: String::from_str("Failed to create 'main.c'"),
        },
    );
    steps.push(
        ScaffoldStep::WriteFile {
            path: join(dir.as_str(), ".gitignore"),
            contents: String::from_str("bin/\n"),
            failure: String::from_str("Failed to create '.gitignore'"),
        },
    );
    assert(views(steps@) =~= scaffold_steps(parent@, name@));
    Ok(steps)
}

/// Plans the project called `name` in the directory `parent`: the steps that
/// make it, or the name as an error where no project can have it.
pub fn new_project(parent: &str, name: &str) -> (plan: Result<Vec<ScaffoldStep>, InvalidProject>)
    ensures
        match plan {
            Ok(steps) => scaffold_plan(name_accepted(name@), parent@, name@) == Ok::<
                Seq<ScaffoldStepView>,
                Seq<char>,
            >(views(steps@)),
            Err(error) => scaffold_plan(name_accepted(name@), parent@, name@) == Err::<
                Seq<ScaffoldStepView>,
                Seq<char>,
            >(error.name@),
        },
{
    plan_project(is_valid_project_name(name), parent, name)
}

} // verus!
