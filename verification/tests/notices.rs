use bake::notice::{now_running, project_compiled, project_created, source_compiled};

#[test]
fn notice_of_a_compiled_source() {
    assert_eq!(source_compiled("/p/src/a.c"), "    \x1b[1;32mCompiled\x1b[0m /p/src/a.c");
}

#[test]
fn notice_of_a_linked_project() {
    assert_eq!(project_compiled("demo"), "    \x1b[1;32mCompiled\x1b[0m 'demo'");
}

#[test]
fn notice_of_a_run() {
    assert_eq!(now_running("/p/bin/debug/demo"), "    \x1b[1;32mRunning\x1b[0m /p/bin/debug/demo");
}

#[test]
fn notice_of_a_new_project() {
    assert_eq!(
        project_created("/home/me/demo"),
        "\x1b[1;32mSuccess:\x1b[0m Created project '/home/me/demo'"
    );
}
