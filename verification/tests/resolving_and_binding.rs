//! Programs run end to end through the library, with their full
//! standard output and exit code checked.

use lox_interpreter::runner::run_source;

fn expect_run(source: &str, expected_stdout: &str, expected_code: i32) {
    let outcome = run_source(source);
    assert_eq!(outcome.stdout, expected_stdout);
    assert_eq!(outcome.exit_code, expected_code);
    if expected_code == 0 {
        assert!(outcome.error.is_none());
    } else {
        assert!(outcome.error.is_some());
    }
}

#[test]
fn identifier_resolution_1() {
    expect_run("var a = \"global\"; fun f() { print a; } f();", "global\n", 0);
}

#[test]
fn identifier_resolution_2() {
    expect_run("var a = \"out\"; { var a = \"in\"; print a; } print a;", "in\nout\n", 0);
}

#[test]
fn identifier_resolution_3() {
    expect_run("var a = \"first\"; fun show() { print a; } a = \"second\"; show();", "second\n", 0);
}

#[test]
fn identifier_resolution_4() {
    expect_run("fun f() { print x; } var x = \"later\"; f();", "later\n", 0);
}

#[test]
fn self_initialization_1() {
    expect_run("var a = \"outer\"; { var a = a; }", "", 65);
}

#[test]
fn self_initialization_2() {
    expect_run("{ var x = x; }", "", 65);
}

#[test]
fn self_initialization_3() {
    expect_run("var a = a;", "", 70);
}

#[test]
fn self_initialization_4() {
    expect_run("var a = 1; { var b = a; print b; }", "1\n", 0);
}

#[test]
fn variable_redeclaration_1() {
    expect_run("{ var a = 1; var a = 2; }", "", 65);
}

#[test]
fn variable_redeclaration_2() {
    expect_run("fun f(a, a) { }", "", 65);
}

#[test]
fn variable_redeclaration_3() {
    expect_run("var a = 1; var a = 2; print a;", "2\n", 0);
}

#[test]
fn variable_redeclaration_4() {
    expect_run("fun f() { var x = 1; var x = 2; }", "", 65);
}

#[test]
fn invalid_return_1() {
    expect_run("return;", "", 65);
}

#[test]
fn invalid_return_2() {
    expect_run("return 5;", "", 65);
}

#[test]
fn invalid_return_3() {
    expect_run("{ return; }", "", 65);
}

#[test]
fn invalid_return_4() {
    expect_run("fun f() { return 1; } print f();", "1\n", 0);
}
