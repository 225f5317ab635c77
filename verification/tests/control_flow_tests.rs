//! Programs run end to end through the library, with their full
//! standard output and exit code checked.

use lox_interpreter::runner::run_source;

fn expect_run(source: &str, expected_stdout: &str, expected_code: i32) {
    let outcome = run_source(source);
    assert_eq!(outcome.stdout, expected_stdout);
    assert_eq!(outcome.exit_code, expected_code);
    if expected_code == 0 {
        assert!(outcome.error.is_none());
    } else {
        assert!(outcome.error.is_some());
    }
}

#[test]
fn if_statements_1() {
    expect_run("if (true) print \"yes\";", "yes\n", 0);
}

#[test]
fn if_statements_2() {
    expect_run("if (false) print \"no\"; print \"after\";", "after\n", 0);
}

#[test]
fn if_statements_3() {
    expect_run("if (0) print \"y\"; else print \"n\";", "y\n", 0);
}

#[test]
fn if_statements_4() {
    expect_run("if (1 < 2) print \"less\";", "less\n", 0);
}

#[test]
fn else_statements_1() {
    expect_run("if (false) print \"a\"; else print \"b\";", "b\n", 0);
}

#[test]
fn else_statements_2() {
    expect_run("if (nil) print \"a\"; else print \"b\";", "b\n", 0);
}

#[test]
fn else_statements_3() {
    expect_run("if (true) print \"a\"; else print \"b\";", "a\n", 0);
}

#[test]
fn else_statements_4() {
    expect_run("if (2 > 3) print \"a\"; else print \"b\";", "b\n", 0);
}

#[test]
fn else_if_statements_1() {
    expect_run("if (false) print \"first\"; else if (true) print \"second\";", "second\n", 0);
}

#[test]
fn else_if_statements_2() {
    expect_run("if (false) print \"a\"; else if (false) print \"b\"; else print \"c\";", "c\n", 0);
}

#[test]
fn else_if_statements_3() {
    expect_run("if (true) print \"a\"; else if (true) print \"b\";", "a\n", 0);
}

#[test]
fn else_if_statements_4() {
    expect_run("var x = 5; if (x < 3) print \"small\"; else if (x < 10) print \"mid\"; else print \"big\";", "mid\n", 0);
}

#[test]
fn nested_if_statements_1() {
    expect_run("if (true) if (true) print \"both\";", "both\n", 0);
}

#[test]
fn nested_if_statements_2() {
    expect_run("if (true) { if (false) print \"no\"; else print \"inner\"; }", "inner\n", 0);
}

#[test]
fn nested_if_statements_3() {
    expect_run("if (false) { if (true) print \"no\"; } print \"end\";", "end\n", 0);
}

#[test]
fn nested_if_statements_4() {
    expect_run("if (true) { if (true) { print \"deep\"; } }", "deep\n", 0);
}

#[test]
fn logical_or_operator_1() {
    expect_run("print nil or \"x\";", "x\n", 0);
}

#[test]
fn logical_or_operator_2() {
    expect_run("print false or 0;", "0\n", 0);
}

#[test]
fn logical_or_operator_3() {
    expect_run("print \"a\" or \"b\";", "a\n", 0);
}

#[test]
fn logical_or_operator_4() {
    expect_run("var a = false; if (a or true) print \"taken\";", "taken\n", 0);
}

#[test]
fn logical_and_operator_1() {
    expect_run("print \"a\" and \"b\";", "b\n", 0);
}

#[test]
fn logical_and_operator_2() {
    expect_run("print nil and \"b\";", "nil\n", 0);
}

#[test]
fn logical_and_operator_3() {
    expect_run("print false and \"x\";", "false\n", 0);
}

#[test]
fn logical_and_operator_4() {
    expect_run("if (1 and \"s\") print \"truthy\";", "truthy\n", 0);
}

#[test]
fn while_statements_1() {
    expect_run("var i = 0; while (i < 3) { print i; i = i + 1; }", "0\n1\n2\n", 0);
}

#[test]
fn while_statements_2() {
    expect_run("while (false) print \"never\"; print \"done\";", "done\n", 0);
}

#[test]
fn while_statements_3() {
    expect_run("var n = 3; var sum = 0; while (n > 0) { sum = sum + n; n = n - 1; } print sum;", "6\n", 0);
}

#[test]
fn while_statements_4() {
    expect_run("var i = 0; while (i < 2) i = i + 1; print i;", "2\n", 0);
}

#[test]
fn for_statements_1() {
    expect_run("for (var i = 0; i < 3; i = i + 1) print i;", "0\n1\n2\n", 0);
}

#[test]
fn for_statements_2() {
    expect_run("for (var i = 2; i > 0; i = i - 1) print i;", "2\n1\n", 0);
}

#[test]
fn for_statements_3() {
    expect_run("var i = 0; for (; i < 2; i = i + 1) print \"x\";", "x\nx\n", 0);
}

#[test]
fn for_statements_4() {
    expect_run("for (var i = 0; i < 4; i = i + 2) { print i; }", "0\n2\n", 0);
}

#[test]
fn syntactic_errors_1() {
    expect_run("print ;", "", 65);
}

#[test]
fn syntactic_errors_2() {
    expect_run("if true print 1;", "", 65);
}

#[test]
fn syntactic_errors_3() {
    expect_run("var 1 = 2;", "", 65);
}

#[test]
fn syntactic_errors_4() {
    expect_run("while (true print 1;", "", 65);
}
