//! Programs run end to end through the library, with their full
//! standard output and exit code checked.

use lox_interpreter::runner::run_source;

fn expect_run(source: &str, expected_stdout: &str, expected_code: i32) {
    let outcome = run_source(source);
    assert_eq!(outcome.stdout, expected_stdout);
    assert_eq!(outcome.exit_code, expected_code);
    if expected_code == 0 {
        assert!(outcome.error.is_none());
    } else {
        assert!(outcome.error.is_some());
    }
}

#[test]
fn functions_without_arguments_1() {
    expect_run("fun f() { print \"called\"; } f();", "called\n", 0);
}

#[test]
fn functions_without_arguments_2() {
    expect_run("fun greet() { print \"hi\"; } greet(); greet();", "hi\nhi\n", 0);
}

#[test]
fn functions_without_arguments_3() {
    expect_run("fun f() { print 1; } print f;", "<fn f>\n", 0);
}

#[test]
fn functions_without_arguments_4() {
    expect_run("fun noop() { } print noop();", "nil\n", 0);
}

#[test]
fn functions_with_arguments_1() {
    expect_run("fun add(a, b) { print a + b; } add(1, 2);", "3\n", 0);
}

#[test]
fn functions_with_arguments_2() {
    expect_run("fun echo(s) { print s; } echo(\"m\");", "m\n", 0);
}

#[test]
fn functions_with_arguments_3() {
    expect_run("fun mul(a, b, c) { print a * b * c; } mul(2, 3, 4);", "24\n", 0);
}

#[test]
fn functions_with_arguments_4() {
    expect_run("fun pick(a, b) { print b; } pick(1, 2);", "2\n", 0);
}

#[test]
fn syntax_errors_1() {
    expect_run("fun () { }", "", 65);
}

#[test]
fn syntax_errors_2() {
    expect_run("fun f( { }", "", 65);
}

#[test]
fn syntax_errors_3() {
    expect_run("fun f(a, ) { }", "", 65);
}

#[test]
fn syntax_errors_4() {
    expect_run("fun f(a b) { }", "", 65);
}

#[test]
fn return_statements_1() {
    expect_run("fun f() { return 7; } print f();", "7\n", 0);
}

#[test]
fn return_statements_2() {
    expect_run("fun f() { return; } print f();", "nil\n", 0);
}

#[test]
fn return_statements_3() {
    expect_run("fun f() { return 1; print \"no\"; } print f();", "1\n", 0);
}

#[test]
fn return_statements_4() {
    expect_run("fun abs(x) { if (x < 0) return 0 - x; return x; } print abs(0 - 5);", "5\n", 0);
}

#[test]
fn higher_order_functions_1() {
    expect_run("fun twice(f, x) { return f(f(x)); } fun inc(n) { return n + 1; } print twice(inc, 3);", "5\n", 0);
}

#[test]
fn higher_order_functions_2() {
    expect_run("fun make() { fun inner() { return \"in\"; } return inner; } print make()();", "in\n", 0);
}

#[test]
fn higher_order_functions_3() {
    expect_run("fun apply(f) { return f(); } fun g() { return 9; } print apply(g);", "9\n", 0);
}

#[test]
fn higher_order_functions_4() {
    expect_run("fun pair(f, g) { f(); g(); } fun a() { print \"a\"; } fun b() { print \"b\"; } pair(a, b);", "a\nb\n", 0);
}

#[test]
fn runtime_errors_1() {
    expect_run("fun f(a) { } f();", "", 70);
}

#[test]
fn runtime_errors_2() {
    expect_run("fun f() { } f(1);", "", 70);
}

#[test]
fn runtime_errors_3() {
    expect_run("\"str\"();", "", 70);
}

#[test]
fn runtime_errors_4() {
    expect_run("var x = 5; x(1);", "", 70);
}

#[test]
fn function_scope_1() {
    expect_run("var g = \"glob\"; fun f() { print g; } f();", "glob\n", 0);
}

#[test]
fn function_scope_2() {
    expect_run("fun f() { var local = 1; print local; } f();", "1\n", 0);
}

#[test]
fn function_scope_3() {
    expect_run("fun f() { var a = \"in\"; } f(); print a;", "", 70);
}

#[test]
fn function_scope_4() {
    expect_run("var a = \"outer\"; fun f(a) { print a; } f(\"param\");", "param\n", 0);
}

#[test]
fn closures_1() {
    expect_run("fun makeCounter() { var c = 0; fun f() { c = c + 1; print c; } return f; } var g = makeCounter(); g(); g();", "1\n2\n", 0);
}

#[test]
fn closures_2() {
    expect_run("fun make(x) { fun get() { return x; } return get; } var g = make(42); print g();", "42\n", 0);
}

#[test]
fn closures_3() {
    expect_run("fun makeCounter() { var c = 0; fun f() { c = c + 1; print c; } return f; } var g1 = makeCounter(); var g2 = makeCounter(); g1(); g2();", "1\n1\n", 0);
}

#[test]
fn closures_4() {
    expect_run("fun adder(n) { fun add(x) { return x + n; } return add; } var a5 = adder(5); print a5(3);", "8\n", 0);
}
