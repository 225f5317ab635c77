//! Edge cases of scanning, arithmetic, printing and the error
//! reports, run end to end.

use lox_interpreter::runner::{evaluate_source, run_source};

fn expect_run(source: &str, expected_stdout: &str, expected_code: i32) {
    let outcome = run_source(source);
    assert_eq!(outcome.stdout, expected_stdout);
    assert_eq!(outcome.exit_code, expected_code);
    if expected_code == 0 {
        assert!(outcome.error.is_none());
    } else {
        assert!(outcome.error.is_some());
    }
}

fn expect_error_message(source: &str, expected_code: i32, expected_message: &str) {
    let outcome = run_source(source);
    assert_eq!(outcome.exit_code, expected_code);
    assert_eq!(outcome.error.unwrap(), expected_message);
}

#[test]
fn prints_integer_sum() {
    expect_run("print 1 + 2;", "3\n", 0);
}

#[test]
fn prints_difference() {
    expect_run("print 5 - 2;", "3\n", 0);
}

#[test]
fn prints_negative_difference() {
    expect_run("print 2 - 5;", "-3\n", 0);
}

#[test]
fn prints_product() {
    expect_run("print 6 * 7;", "42\n", 0);
}

#[test]
fn prints_fractional_quotient() {
    expect_run("print 7 / 2;", "3.5\n", 0);
}

#[test]
fn prints_short_fraction() {
    expect_run("print 0.1;", "0.1\n", 0);
}

#[test]
fn prints_half() {
    expect_run("print 0.5;", "0.5\n", 0);
}

#[test]
fn prints_fraction_sum() {
    expect_run("print 2.5 + 0.25;", "2.75\n", 0);
}

#[test]
fn prints_plain_decimal() {
    expect_run("print 3.3;", "3.3\n", 0);
}

#[test]
fn prints_large_integer() {
    expect_run("print 1000000;", "1000000\n", 0);
}

#[test]
fn prints_unary_minus() {
    expect_run("print -5;", "-5\n", 0);
}

#[test]
fn prints_negative_zero() {
    expect_run("print -0;", "-0\n", 0);
}

#[test]
fn division_by_zero_is_infinite() {
    expect_run("print 1 / 0;", "inf\n", 0);
}

#[test]
fn division_zero_by_zero_is_nan() {
    expect_run("print 0 / 0;", "NaN\n", 0);
}

#[test]
fn negative_division_by_zero() {
    expect_run("print -1 / 0;", "-inf\n", 0);
}

#[test]
fn grouping_changes_precedence() {
    expect_run("print (1 + 2) * 3;", "9\n", 0);
}

#[test]
fn repeated_division_rounds() {
    expect_run("print 10 / 3;", "3.3333333333333335\n", 0);
}

#[test]
fn numbers_compare_equal() {
    expect_run("print 1 == 1;", "true\n", 0);
}

#[test]
fn strings_compare_equal() {
    expect_run("print \"a\" == \"a\";", "true\n", 0);
}

#[test]
fn cross_kind_comparison_is_false() {
    expect_run("print \"1\" == 1;", "false\n", 0);
}

#[test]
fn nil_equals_nil() {
    expect_run("print nil == nil;", "true\n", 0);
}

#[test]
fn bang_equal_on_numbers() {
    expect_run("print 1 != 2;", "true\n", 0);
}

#[test]
fn relational_operators() {
    expect_run("print 1 < 2; print 2 <= 2; print 3 > 1; print 1 >= 2;", "true\ntrue\ntrue\nfalse\n", 0);
}

#[test]
fn bang_inverts_truthiness() {
    expect_run("print !true; print !nil; print !0;", "false\ntrue\nfalse\n", 0);
}

#[test]
fn concatenation_builds_new_text() {
    expect_run("print \"foo\" + \"bar\";", "foobar\n", 0);
}

#[test]
fn empty_string_is_truthy() {
    expect_run("if (\"\") print \"y\"; else print \"n\";", "y\n", 0);
}

#[test]
fn comments_are_skipped() {
    expect_run("print 1;\nprint 2;", "1\n2\n", 0);
}

#[test]
fn empty_program_succeeds() {
    expect_run("", "", 0);
}

#[test]
fn string_spans_lines() {
    expect_run("print \"one\ntwo\";", "one\ntwo\n", 0);
}

#[test]
fn clock_reads_seconds() {
    expect_run("print clock() >= 1;", "true\n", 0);
}

#[test]
fn property_on_number_fails() {
    expect_run("var v = 4 .x;", "", 70);
}

#[test]
fn missing_superclass_fails() {
    expect_run("class B < Missing { }", "", 70);
}

#[test]
fn binary_operand_in_initializer_escapes_resolver() {
    expect_run("{ var a = a + 1; }", "", 70);
}

#[test]
fn comment_runs_to_end_of_line() {
    expect_run("// nothing here\nprint 7;", "7\n", 0);
}

#[test]
fn unexpected_character_is_reported() {
    expect_error_message("@", 65, "[line 1] Error: Unexpected character: @");
}

#[test]
fn unterminated_string_is_reported() {
    expect_error_message("\"abc", 65, "[line 1] Error: Unterminated string.");
}

#[test]
fn redeclaration_outranks_bad_return() {
    expect_error_message(
        "{ var a; var a; } return;",
        65,
        "Already have <var name> variable with this name in this scope",
    );
}

#[test]
fn own_initializer_read_is_reported() {
    expect_error_message(
        "var a = \"outer\"; { var a = a; }",
        65,
        "Can't read local variable in its own initializer.",
    );
}

#[test]
fn evaluate_prints_expression_value() {
    let outcome = evaluate_source("1 + 2");
    assert_eq!(outcome.stdout, "3");
    assert_eq!(outcome.exit_code, 0);
}

#[test]
fn evaluate_grouping() {
    let outcome = evaluate_source("(2 + 3) * 2");
    assert_eq!(outcome.stdout, "10");
    assert_eq!(outcome.exit_code, 0);
}

#[test]
fn evaluate_reports_parse_error() {
    let outcome = evaluate_source(")");
    assert_eq!(outcome.exit_code, 65);
}

#[test]
fn evaluate_runtime_error() {
    let outcome = evaluate_source("-\"a\"");
    assert_eq!(outcome.exit_code, 70);
}

#[test]
fn enclosing_function_reachable_as_method() {
    // Method lookup reads the class environment with ordinary scope
    // rules, so a function bound in an enclosing scope is found and
    // bound to the instance.
    expect_run(
        "fun helper() { print \"free\"; } class A { } var a = A(); a.helper();",
        "free\n",
        0,
    );
}

#[test]
fn field_masks_method() {
    expect_run(
        "class A { m() { print \"method\"; } } var a = A(); a.m = 5; print a.m;",
        "5\n",
        0,
    );
}

#[test]
fn methods_share_class_state_through_super() {
    expect_run(
        "class A { hello() { print \"A\"; } } class B < A { hi() { this.hello(); } } B().hi();",
        "A\n",
        0,
    );
}

#[test]
fn undefined_identifier_message_is_exact() {
    expect_error_message("print foo;", 70, "Error: Not initialized IDENTIFIER: foo");
}

#[test]
fn undefined_property_message_is_exact() {
    expect_error_message(
        "class A { } var a = A(); print a.missing;",
        70,
        "Error: Undefined property: missing",
    );
}

#[test]
fn arity_message_is_exact() {
    expect_error_message(
        "fun f(a) { } f();",
        70,
        "Error: Expected a different number of arguments",
    );
}
