//! Programs run end to end through the library, with their full
//! standard output and exit code checked.

use lox_interpreter::runner::run_source;

fn expect_run(source: &str, expected_stdout: &str, expected_code: i32) {
    let outcome = run_source(source);
    assert_eq!(outcome.stdout, expected_stdout);
    assert_eq!(outcome.exit_code, expected_code);
    if expected_code == 0 {
        assert!(outcome.error.is_none());
    } else {
        assert!(outcome.error.is_some());
    }
}

#[test]
fn generate_output_1() {
    expect_run("print 42;", "42\n", 0);
}

#[test]
fn generate_output_2() {
    expect_run("print \"hello\";", "hello\n", 0);
}

#[test]
fn generate_output_3() {
    expect_run("print true;", "true\n", 0);
}

#[test]
fn generate_output_4() {
    expect_run("print nil;", "nil\n", 0);
}

#[test]
fn multiple_statements_1() {
    expect_run("print 1; print 2;", "1\n2\n", 0);
}

#[test]
fn multiple_statements_2() {
    expect_run("print \"a\"; print \"b\"; print \"c\";", "a\nb\nc\n", 0);
}

#[test]
fn multiple_statements_3() {
    expect_run("print 1 + 2; print 3 * 4;", "3\n12\n", 0);
}

#[test]
fn multiple_statements_4() {
    expect_run("print \"x\"; print 7 - 2;", "x\n5\n", 0);
}

#[test]
fn expression_statements_1() {
    expect_run("1 + 2; print \"done\";", "done\n", 0);
}

#[test]
fn expression_statements_2() {
    expect_run("\"side\"; print 3;", "3\n", 0);
}

#[test]
fn expression_statements_3() {
    expect_run("true; nil; print \"ok\";", "ok\n", 0);
}

#[test]
fn expression_statements_4() {
    expect_run("var a = 1; a = a + 1; print a;", "2\n", 0);
}

#[test]
fn declare_variables_1() {
    expect_run("var a; print a;", "nil\n", 0);
}

#[test]
fn declare_variables_2() {
    expect_run("var a = 5; print a;", "5\n", 0);
}

#[test]
fn declare_variables_3() {
    expect_run("var a = 1; var b = 2; print a + b;", "3\n", 0);
}

#[test]
fn declare_variables_4() {
    expect_run("var s = \"hi\"; print s;", "hi\n", 0);
}

#[test]
fn variable_runtime_errors_1() {
    expect_run("print foo;", "", 70);
}

#[test]
fn variable_runtime_errors_2() {
    expect_run("print \"ok\"; print missing;", "ok\n", 70);
}

#[test]
fn variable_runtime_errors_3() {
    expect_run("print \"foo\" + 1;", "", 70);
}

#[test]
fn variable_runtime_errors_4() {
    expect_run("print -\"a\";", "", 70);
}

#[test]
fn initialize_variables_1() {
    expect_run("var a = 1 + 2; print a;", "3\n", 0);
}

#[test]
fn initialize_variables_2() {
    expect_run("var a = \"he\" + \"llo\"; print a;", "hello\n", 0);
}

#[test]
fn initialize_variables_3() {
    expect_run("var a = nil; print a;", "nil\n", 0);
}

#[test]
fn initialize_variables_4() {
    expect_run("var a = 2 * 3 + 1; print a;", "7\n", 0);
}

#[test]
fn redeclare_variables_1() {
    expect_run("var a = 1; var a = 2; print a;", "2\n", 0);
}

#[test]
fn redeclare_variables_2() {
    expect_run("var a; var a = \"after\"; print a;", "after\n", 0);
}

#[test]
fn redeclare_variables_3() {
    expect_run("{ var a = 1; var a = 2; }", "", 65);
}

#[test]
fn redeclare_variables_4() {
    expect_run("var a = 1; { var b = 2; var b = 3; } print a;", "", 65);
}

#[test]
fn assignment_operation_1() {
    expect_run("var a = 1; a = 2; print a;", "2\n", 0);
}

#[test]
fn assignment_operation_2() {
    expect_run("var a = 1; print a = 5;", "5\n", 0);
}

#[test]
fn assignment_operation_3() {
    expect_run("var a; var b; a = b = 9; print a; print b;", "9\n9\n", 0);
}

#[test]
fn assignment_operation_4() {
    expect_run("var a = 1; a = a + 10; print a;", "11\n", 0);
}

#[test]
fn block_syntax_1() {
    expect_run("{ print \"in\"; } print \"out\";", "in\nout\n", 0);
}

#[test]
fn block_syntax_2() {
    expect_run("{ var a = 1; print a; }", "1\n", 0);
}

#[test]
fn block_syntax_3() {
    expect_run("{ } print \"after\";", "after\n", 0);
}

#[test]
fn block_syntax_4() {
    expect_run("{ print 1;", "", 65);
}

#[test]
fn scopes_1() {
    expect_run("var a = 1; { var a = 2; print a; } print a;", "2\n1\n", 0);
}

#[test]
fn scopes_2() {
    expect_run("var g = \"global\"; { print g; }", "global\n", 0);
}

#[test]
fn scopes_3() {
    expect_run("{ var x = \"inner\"; } print x;", "", 70);
}

#[test]
fn scopes_4() {
    expect_run("var a = \"outer\"; { var a = \"inner\"; { print a; } }", "inner\n", 0);
}
