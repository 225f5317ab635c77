//! Programs run end to end through the library, with their full
//! standard output and exit code checked.

use lox_interpreter::runner::run_source;

fn expect_run(source: &str, expected_stdout: &str, expected_code: i32) {
    let outcome = run_source(source);
    assert_eq!(outcome.stdout, expected_stdout);
    assert_eq!(outcome.exit_code, expected_code);
    if expected_code == 0 {
        assert!(outcome.error.is_none());
    } else {
        assert!(outcome.error.is_some());
    }
}

#[test]
fn class_hierarchy_1() {
    expect_run("class A { greet() { print \"hi\"; } } class B < A { } B().greet();", "hi\n", 0);
}

#[test]
fn class_hierarchy_2() {
    expect_run("class A { } class B < A { } print B();", "B instance\n", 0);
}

#[test]
fn class_hierarchy_3() {
    expect_run("class A < A { }", "", 65);
}

#[test]
fn class_hierarchy_4() {
    expect_run("var NotClass = 1; class B < NotClass { }", "", 70);
}

#[test]
fn inheriting_methods_1() {
    expect_run("class A { m() { print \"A\"; } } class B < A { m() { super.m(); print \"B\"; } } B().m();", "A\nB\n", 0);
}

#[test]
fn inheriting_methods_2() {
    expect_run("class A { m() { print \"A\"; } } class B < A { m() { print \"B\"; } } B().m();", "B\n", 0);
}

#[test]
fn inheriting_methods_3() {
    expect_run("class A { m() { print \"A\"; } } class B < A { } class C < B { } C().m();", "A\n", 0);
}

#[test]
fn inheriting_methods_4() {
    expect_run("class A { m() { super.m(); } }", "", 65);
}
