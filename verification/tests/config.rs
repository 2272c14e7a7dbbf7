use bake::config::{ArgsError, BuildMode, Config};

fn words(list: &[&str]) -> Vec<String> {
    list.iter().map(|word| word.to_string()).collect()
}

#[test]
fn empty_command_line_asks_for_help() {
    assert_eq!(Config::new(words(&[])), Ok(Config::Help));
}

#[test]
fn help_words_change_nothing() {
    assert_eq!(Config::new(words(&["help"])), Ok(Config::Help));
    assert_eq!(Config::new(words(&["--help"])), Ok(Config::Help));
    assert_eq!(
        Config::new(words(&["build", "--release", "help"])),
        Ok(Config::Build { mode: BuildMode::Release })
    );
}

#[test]
fn new_takes_the_project_name() {
    assert_eq!(
        Config::new(words(&["new", "demo"])),
        Ok(Config::New { name: "demo".to_string() })
    );
    assert_eq!(
        Config::new(words(&["init", "demo"])),
        Ok(Config::New { name: "demo".to_string() })
    );
}

#[test]
fn new_takes_any_next_word_as_the_name() {
    assert_eq!(
        Config::new(words(&["new", "build"])),
        Ok(Config::New { name: "build".to_string() })
    );
}

#[test]
fn new_without_a_name_is_an_error() {
    assert_eq!(
        Config::new(words(&["new"])),
        Err(ArgsError::MissingArg {
            arg: "project_name".to_string(),
            subcommand: "new".to_string()
        })
    );
    assert_eq!(
        Config::new(words(&["init"])),
        Err(ArgsError::MissingArg {
            arg: "project_name".to_string(),
            subcommand: "init".to_string()
        })
    );
}

#[test]
fn build_defaults_to_debug() {
    assert_eq!(
        Config::new(words(&["build"])),
        Ok(Config::Build { mode: BuildMode::Debug })
    );
}

#[test]
fn build_reads_its_mode() {
    assert_eq!(
        Config::new(words(&["build", "--debug"])),
        Ok(Config::Build { mode: BuildMode::Debug })
    );
    assert_eq!(
        Config::new(words(&["build", "--release"])),
        Ok(Config::Build { mode: BuildMode::Release })
    );
}

#[test]
fn run_reads_its_mode() {
    assert_eq!(
        Config::new(words(&["run"])),
        Ok(Config::Run { mode: BuildMode::Debug })
    );
    assert_eq!(
        Config::new(words(&["run", "--debug"])),
        Ok(Config::Run { mode: BuildMode::Debug })
    );
    assert_eq!(
        Config::new(words(&["run", "--release"])),
        Ok(Config::Run { mode: BuildMode::Release })
    );
}

#[test]
fn build_rejects_a_word_that_is_no_mode() {
    assert_eq!(
        Config::new(words(&["build", "--fast"])),
        Err(ArgsError::InvalidFlag("--fast".to_string()))
    );
    assert_eq!(
        Config::new(words(&["run", "help"])),
        Err(ArgsError::InvalidFlag("help".to_string()))
    );
}

#[test]
fn last_subcommand_counts() {
    assert_eq!(
        Config::new(words(&["build", "--release", "run", "--debug"])),
        Ok(Config::Run { mode: BuildMode::Debug })
    );
    assert_eq!(
        Config::new(words(&["new", "demo", "build"])),
        Ok(Config::Build { mode: BuildMode::Debug })
    );
}

#[test]
fn unknown_flag_is_an_invalid_flag() {
    assert_eq!(
        Config::new(words(&["--verbose"])),
        Err(ArgsError::InvalidFlag("--verbose".to_string()))
    );
    assert_eq!(
        Config::new(words(&["-v"])),
        Err(ArgsError::InvalidFlag("-v".to_string()))
    );
}

#[test]
fn unknown_word_is_an_invalid_subcommand() {
    assert_eq!(
        Config::new(words(&["deploy"])),
        Err(ArgsError::InvalidSubcommand("deploy".to_string()))
    );
    assert_eq!(
        Config::new(words(&[""])),
        Err(ArgsError::InvalidSubcommand(String::new()))
    );
}

#[test]
fn first_error_wins() {
    assert_eq!(
        Config::new(words(&["build", "--release", "deploy", "--verbose"])),
        Err(ArgsError::InvalidSubcommand("deploy".to_string()))
    );
}

#[test]
fn args_errors_read_well() {
    assert_eq!(
        ArgsError::InvalidSubcommand("deploy".to_string()).to_string(),
        "'deploy' is not a valid subcommand"
    );
    assert_eq!(
        ArgsError::InvalidFlag("--fast".to_string()).to_string(),
        "'--fast' is not a valid flag"
    );
    assert_eq!(
        ArgsError::MissingArg {
            arg: "project_name".to_string(),
            subcommand: "new".to_string()
        }
        .to_string(),
        "Missing arg 'project_name' for 'bake new'"
    );
}
