use bake::scaffold::{
    is_valid_project_name, new_project, plan_project, InvalidProject, ScaffoldStep,
    DEFAULT_MAIN_C, PROJECT_NAME_PATTERN,
};

fn steps(parent_and_name: &str, name: &str) -> Vec<ScaffoldStep> {
    let dir = parent_and_name.to_string();
    vec![
        ScaffoldStep::CreateDir {
            path: dir.clone(),
            failure: format!("Failed to create project directory at '{dir}'"),
        },
        ScaffoldStep::WriteFile {
            path: format!("{dir}/bake.toml"),
            contents: format!("name=\"{name}\"\n"),
            failure: "Failed to create 'bake.toml'".to_string(),
        },
        ScaffoldStep::CreateDir {
            path: format!("{dir}/src"),
            failure: "Failed to create 'src/'".to_string(),
        },
        ScaffoldStep::WriteFile {
            path: format!("{dir}/src/main.c"),
            contents: "#include <stdio.h>\n\nint main(int argc, char *argv[]) {\n    puts(\"Hello World\");\n    return 0;\n}\n"
                .to_string(),
            failure: "Failed to create 'main.c'".to_string(),
        },
        ScaffoldStep::WriteFile {
            path: format!("{dir}/.gitignore"),
            contents: "bin/\n".to_string(),
            failure: "Failed to create '.gitignore'".to_string(),
        },
    ]
}

#[test]
fn name_pattern() {
    assert_eq!(PROJECT_NAME_PATTERN, "^[A-Za-z_][A-Za-z0-9-_]*$");
}

#[test]
fn first_program_prints_a_greeting() {
    assert!(DEFAULT_MAIN_C.starts_with("#include <stdio.h>\n"));
    assert!(DEFAULT_MAIN_C.contains("puts(\"Hello World\");"));
    assert!(DEFAULT_MAIN_C.ends_with("}\n"));
}

#[test]
fn plain_names_are_valid() {
    for name in ["demo", "Demo", "_", "_private", "a", "a1", "my-project", "my_project", "x-_9Z"] {
        assert!(is_valid_project_name(name), "{name}");
    }
}

#[test]
fn names_must_start_with_a_letter_or_underscore() {
    for name in ["", "1abc", "-abc", "9", ".hidden"] {
        assert!(!is_valid_project_name(name), "{name}");
    }
}

#[test]
fn names_hold_letters_digits_hyphens_and_underscores_only() {
    for name in ["has space", "a/b", "a.b", "a+b", "naïve", "a\nb", "demo\n", "demo ", "a:b"] {
        assert!(!is_valid_project_name(name), "{name:?}");
    }
}

#[test]
fn a_name_is_not_the_pattern() {
    assert!(!is_valid_project_name(PROJECT_NAME_PATTERN));
}

#[test]
fn new_project_plans_five_steps() {
    assert_eq!(new_project("/home/me", "demo"), Ok(steps("/home/me/demo", "demo")));
}

#[test]
fn new_project_in_the_root_directory() {
    assert_eq!(new_project("/", "demo"), Ok(steps("/demo", "demo")));
}

#[test]
fn new_project_rejects_an_invalid_name() {
    assert_eq!(
        new_project("/home/me", "9lives"),
        Err(InvalidProject { name: "9lives".to_string() })
    );
    assert_eq!(new_project("/home/me", ""), Err(InvalidProject { name: String::new() }));
}

#[test]
fn plan_follows_the_verdict_on_the_name() {
    assert_eq!(plan_project(true, "/w", "demo"), Ok(steps("/w/demo", "demo")));
    assert_eq!(
        plan_project(false, "/w", "demo"),
        Err(InvalidProject { name: "demo".to_string() })
    );
    assert_eq!(plan_project(true, "/w", "9lives"), Ok(steps("/w/9lives", "9lives")));
}

#[test]
fn invalid_project_message() {
    assert_eq!(
        InvalidProject { name: "9lives".to_string() }.to_string(),
        "9lives is not a valid project name"
    );
}
