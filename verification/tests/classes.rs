//! Programs run end to end through the library, with their full
//! standard output and exit code checked.

use lox_interpreter::runner::run_source;

fn expect_run(source: &str, expected_stdout: &str, expected_code: i32) {
    let outcome = run_source(source);
    assert_eq!(outcome.stdout, expected_stdout);
    assert_eq!(outcome.exit_code, expected_code);
    if expected_code == 0 {
        assert!(outcome.error.is_none());
    } else {
        assert!(outcome.error.is_some());
    }
}

#[test]
fn class_declarations_1() {
    expect_run("class Foo { } print Foo;", "Foo\n", 0);
}

#[test]
fn class_declarations_2() {
    expect_run("class A { m() { print \"m\"; } } print A;", "A\n", 0);
}

#[test]
fn class_declarations_3() {
    expect_run("class Foo { } print \"after\";", "after\n", 0);
}

#[test]
fn class_declarations_4() {
    expect_run("class A { } class B { } print B;", "B\n", 0);
}

#[test]
fn class_instances_1() {
    expect_run("class Foo { } var f = Foo(); print f;", "Foo instance\n", 0);
}

#[test]
fn class_instances_2() {
    expect_run("class Bar { } print Bar();", "Bar instance\n", 0);
}

#[test]
fn class_instances_3() {
    expect_run("class A { } var x = A(); var y = A(); print x == y;", "false\n", 0);
}

#[test]
fn class_instances_4() {
    expect_run("class A { } var x = A(); var y = x; print x == y;", "true\n", 0);
}

#[test]
fn getters_and_setters_1() {
    expect_run("class A { } var a = A(); a.field = 5; print a.field;", "5\n", 0);
}

#[test]
fn getters_and_setters_2() {
    expect_run("class A { } var a = A(); a.name = \"n\"; print a.name;", "n\n", 0);
}

#[test]
fn getters_and_setters_3() {
    expect_run("class A { } var a = A(); a.x = 1; a.x = 2; print a.x;", "2\n", 0);
}

#[test]
fn getters_and_setters_4() {
    expect_run("class A { } var a = A(); print a.missing;", "", 70);
}

#[test]
fn instance_methods_1() {
    expect_run("class A { m() { print \"method\"; } } A().m();", "method\n", 0);
}

#[test]
fn instance_methods_2() {
    expect_run("class A { one() { print 1; } two() { print 2; } } var a = A(); a.one(); a.two();", "1\n2\n", 0);
}

#[test]
fn instance_methods_3() {
    expect_run("class A { show(x) { print x; } } A().show(\"arg\");", "arg\n", 0);
}

#[test]
fn instance_methods_4() {
    expect_run("class A { m() { } } var a = A(); print a.m;", "<method m>\n", 0);
}

#[test]
fn the_this_keyword_1() {
    expect_run("class C { m() { return this; } } var c = C(); print c.m() == c;", "true\n", 0);
}

#[test]
fn the_this_keyword_2() {
    expect_run("class P { init(n) { this.name = n; } say() { print this.name; } } P(\"x\").say();", "x\n", 0);
}

#[test]
fn the_this_keyword_3() {
    expect_run("class Counter { init() { this.c = 0; } bump() { this.c = this.c + 1; print this.c; } } var k = Counter(); k.bump(); k.bump();", "1\n2\n", 0);
}

#[test]
fn the_this_keyword_4() {
    expect_run("class A { get() { return this; } } var a = A(); var b = a.get(); b.x = 9; print a.x;", "9\n", 0);
}

#[test]
fn invalid_usages_of_this_1() {
    expect_run("print this;", "", 65);
}

#[test]
fn invalid_usages_of_this_2() {
    expect_run("this;", "", 65);
}

#[test]
fn invalid_usages_of_this_3() {
    expect_run("fun f() { print this; }", "", 65);
}

#[test]
fn invalid_usages_of_this_4() {
    expect_run("{ print this; }", "", 65);
}

#[test]
fn constructor_calls_1() {
    expect_run("class A { init() { print \"init\"; } } A();", "init\n", 0);
}

#[test]
fn constructor_calls_2() {
    expect_run("class P { init(n) { this.n = n; } } var p = P(5); print p.n;", "5\n", 0);
}

#[test]
fn constructor_calls_3() {
    expect_run("class A { init() { print \"go\"; } } var a = A(); print a;", "go\nA instance\n", 0);
}

#[test]
fn constructor_calls_4() {
    expect_run("class A { init(x) { } } A();", "", 70);
}

#[test]
fn return_within_constructors_1() {
    expect_run("class C { init() { return; } } print C();", "C instance\n", 0);
}

#[test]
fn return_within_constructors_2() {
    expect_run("class C { init() { if (true) return; this.x = 1; } } var c = C(); print c;", "C instance\n", 0);
}

#[test]
fn return_within_constructors_3() {
    expect_run("class C { init() { return 5; } } C();", "", 65);
}

#[test]
fn return_within_constructors_4() {
    expect_run("class C { init() { return; print \"no\"; } } C(); print \"done\";", "done\n", 0);
}
