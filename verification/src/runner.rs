//! The whole pipeline: source text to tokens, tokens to a program,
//! the resolver's verdict, and then evaluation.
//!
//! A scan or parse error, and any error the resolver reports, stops the
//! run before a single statement is evaluated: the exit code is 65 and
//! nothing has been printed.  A runtime error stops the run where it
//! happened: what was printed before it stands, and the exit code
//! is 70.  A clean run exits 0.
use crate::grammar::Node;
use crate::interpreter::{Interpreter, RUN_FUEL};
use crate::interruption::{GErr, Interruption, RuntimeError, RuntimeErrorKind};
use crate::parser::Parser;
use crate::scanner::{Scanner, MAX_SOURCE_LEN};
use crate::semantics::{spec_eval, spec_run_stmts, st_wf, with_clock, GInterp, GOut};
use crate::traverser::{resolve_verdict, spec_resolve_bits, ResolveError, Traverser};
use vstd::prelude::*;

verus! {

/// What a run produces: the text printed, the error report if any, and
/// the process exit code the command line maps these to.
pub struct RunOutcome {
    pub stdout: String,
    pub error: Option<String>,
    pub exit_code: i32,
}

/// The report line of each resolver error, as the runner prints it.
pub open spec fn resolve_error_message_of(e: ResolveError) -> Seq<char> {
    match e {
        ResolveError::OwnVarInitialization => "Can't read local variable in its own initializer."@,
        ResolveError::ScopeVarRedeclaretion
            => "Already have <var name> variable with this name in this scope"@,
        ResolveError::InvalidReturn => "Error at 'return': Can't return from top-level code."@,
        ResolveError::ThisOutsideOfClass
            => "Error at 'this': Can't use 'this' outside of a class."@,
        ResolveError::ReturnValueFromInitializer
            => "Error at 'return': Can't return a value from an initializer."@,
        ResolveError::ItselfInheritence => "A class can't inherit from itself."@,
        ResolveError::UseSuperOutsideOfClass => "Can't use 'super' outside of a class."@,
        ResolveError::UseSuperInClassWithNoSuperclass
            => "Can't use 'super' in a class with no superclass."@,
    }
}

/// The report line of each resolver error.
pub fn resolve_error_message(e: &ResolveError) -> (r: String)
    ensures
        r@ == resolve_error_message_of(*e),
{
    match e {
        ResolveError::OwnVarInitialization => String::from_str(
            "Can't read local variable in its own initializer.",
        ),
        ResolveError::ScopeVarRedeclaretion => String::from_str(
            "Already have <var name> variable with this name in this scope",
        ),
        ResolveError::InvalidReturn => String::from_str(
            "Error at 'return': Can't return from top-level code.",
        ),
        ResolveError::ThisOutsideOfClass => String::from_str(
            "Error at 'this': Can't use 'this' outside of a class.",
        ),
        ResolveError::ReturnValueFromInitializer => String::from_str(
            "Error at 'return': Can't return a value from an initializer.",
        ),
        ResolveError::ItselfInheritence => String::from_str(
            "A class can't inherit from itself.",
        ),
        ResolveError::UseSuperOutsideOfClass => String::from_str(
            "Can't use 'super' outside of a class.",
        ),
        ResolveError::UseSuperInClassWithNoSuperclass => String::from_str(
            "Can't use 'super' in a class with no superclass.",
        ),
    }
}

/// The fixed text of each runtime error kind.
pub open spec fn runtime_error_text_of(kind: RuntimeErrorKind) -> Seq<char> {
    match kind {
        RuntimeErrorKind::UndefinedIdentifier => "Not initialized IDENTIFIER: "@,
        RuntimeErrorKind::UnsupportedLiteral => "Unsupported literal evaluation for token: "@,
        RuntimeErrorKind::UnsupportedUnary => "Unsupported unary operator for evaluation: "@,
        RuntimeErrorKind::UnsupportedBinary => "Unsupported binary operator for evaluation: "@,
        RuntimeErrorKind::UnsupportedOperator => "Unsupported operator: "@,
        RuntimeErrorKind::NotCallable => "The value is not callable"@,
        RuntimeErrorKind::ArityMismatch => "Expected a different number of arguments"@,
        RuntimeErrorKind::OnlyInstancesHaveProperties => "Only instances have properties. "@,
        RuntimeErrorKind::UndefinedProperty => "Undefined property: "@,
        RuntimeErrorKind::SuperClassNotDefined => "Not defined a super class "@,
        RuntimeErrorKind::SuperClassNotClass => "Not a class as a super class: "@,
        RuntimeErrorKind::NoSuperClass => "The class doesn't have a super class: "@,
        RuntimeErrorKind::InvalidClassMember
            => "Only class method declarations are valid for class methods"@,
        RuntimeErrorKind::MissingClassBinding => "A class method outside of a class: "@,
        RuntimeErrorKind::ConstructorReturn => "Returning a value from a constructor: "@,
        RuntimeErrorKind::ThisOutsideClass
            => "Error at 'this': Can't use 'this' outside of a class."@,
        RuntimeErrorKind::SuperOutsideClass
            => "Error at 'super': Can't use 'super' outside of a class: "@,
        RuntimeErrorKind::InvalidAssignmentTarget => "Invalid assignment target"@,
        RuntimeErrorKind::ClockFailed => "Could not get clock"@,
        RuntimeErrorKind::StepLimit => "The evaluation step budget is exhausted"@,
    }
}

/// How a runtime error prints on the error stream: the fixed text of
/// its kind, then the name or operator it quotes.
pub open spec fn runtime_error_message_of(e: GErr) -> Seq<char> {
    "Error: "@ + runtime_error_text_of(e.kind) + e.detail
}

/// How an interruption that reached the top level prints.
pub open spec fn interruption_message_of(i: crate::interruption::GInterruption) -> Seq<char> {
    match i {
        crate::interruption::GInterruption::Error(e) => runtime_error_message_of(e),
        crate::interruption::GInterruption::Return(_) => "Return"@,
    }
}

fn runtime_error_text(kind: RuntimeErrorKind) -> (r: &'static str)
    ensures
        r@ == runtime_error_text_of(kind),
{
    match kind {
        RuntimeErrorKind::UndefinedIdentifier => "Not initialized IDENTIFIER: ",
        RuntimeErrorKind::UnsupportedLiteral => "Unsupported literal evaluation for token: ",
        RuntimeErrorKind::UnsupportedUnary => "Unsupported unary operator for evaluation: ",
        RuntimeErrorKind::UnsupportedBinary => "Unsupported binary operator for evaluation: ",
        RuntimeErrorKind::UnsupportedOperator => "Unsupported operator: ",
        RuntimeErrorKind::NotCallable => "The value is not callable",
        RuntimeErrorKind::ArityMismatch => "Expected a different number of arguments",
        RuntimeErrorKind::OnlyInstancesHaveProperties => "Only instances have properties. ",
        RuntimeErrorKind::UndefinedProperty => "Undefined property: ",
        RuntimeErrorKind::SuperClassNotDefined => "Not defined a super class ",
        RuntimeErrorKind::SuperClassNotClass => "Not a class as a super class: ",
        RuntimeErrorKind::NoSuperClass => "The class doesn't have a super class: ",
        RuntimeErrorKind::InvalidClassMember
            => "Only class method declarations are valid for class methods",
        RuntimeErrorKind::MissingClassBinding => "A class method outside of a class: ",
        RuntimeErrorKind::ConstructorReturn => "Returning a value from a constructor: ",
        RuntimeErrorKind::ThisOutsideClass
            => "Error at 'this': Can't use 'this' outside of a class.",
        RuntimeErrorKind::SuperOutsideClass
            => "Error at 'super': Can't use 'super' outside of a class: ",
        RuntimeErrorKind::InvalidAssignmentTarget => "Invalid assignment target",
        RuntimeErrorKind::ClockFailed => "Could not get clock",
        RuntimeErrorKind::StepLimit => "The evaluation step budget is exhausted",
    }
}

/// The report line of a runtime error.
pub fn runtime_error_message(e: &RuntimeError) -> (r: String)
    ensures
        r@ == runtime_error_message_of(e@),
{
    let mut out = String::from_str("Error: ");
    out.append(runtime_error_text(e.kind));
    out.append(e.detail.as_str());
    out
}

/// The report line of an interruption that reached the top level.
pub fn interruption_message(i: &Interruption) -> (r: String)
    ensures
        r@ == interruption_message_of(i@),
{
    match i {
        Interruption::Error(e) => runtime_error_message(e),
        Interruption::Return(_) => String::from_str("Return"),
    }
}

/// The interpreter state a run starts from, given the stream of
/// readings the native clock will serve, one per call.
pub open spec fn g_initial(clock: Seq<Option<u64>>) -> GInterp {
    GInterp {
        envs: seq![
            crate::environment::GEnv {
                values: Map::empty(),
                functions: crate::environment::native_bindings(),
                enclosing: Option::None,
                is_global: true,
            },
        ],
        classes: Seq::empty(),
        instances: Seq::empty(),
        output: Seq::empty(),
        clock,
    }
}

/// Run a resolved-or-rejected program.
///
/// Any program holding a structural error exits 65 with nothing on the
/// standard output and the error's report; otherwise the program runs
/// from a fresh state, prints what `spec_run_stmts` says it prints, and
/// exits 0, or 70 with the interruption's report.
pub fn run_statements(statements: Vec<Node>) -> (r: RunOutcome)
    ensures
        (match resolve_verdict(spec_resolve_bits(statements)) {
            Option::Some(e) => {
                &&& r.exit_code == 65
                &&& r.stdout@ == Seq::<char>::empty()
                &&& r.error matches Option::Some(m) && m@ == resolve_error_message_of(e)
            },
            Option::None => exists|ticks: Seq<Option<u64>>|
                {
                    let g = spec_run_stmts(
                        #[trigger] g_initial(ticks),
                        statements@,
                        0,
                        RUN_FUEL as nat,
                    );
                    &&& r.stdout@ == g.st.output
                    &&& match g.out {
                        GOut::Val(_) => r.exit_code == 0 && r.error is None,
                        GOut::Itr(itr) => r.exit_code == 70 && (r.error matches Option::Some(m)
                            && m@ == interruption_message_of(itr)),
                        GOut::Stop => r.exit_code == 70 && r.error is Some,
                    }
                },
        }),
{
    let traverser = Traverser::new();
    match traverser.run(&statements) {
        Result::Err(e) => {
            let message = resolve_error_message(&e);
            RunOutcome {
                stdout: String::new(),
                error: Option::Some(message),
                exit_code: 65,
            }
        },
        Result::Ok(()) => {
            let ghost stmts0 = statements@;
            let mut interpreter = Interpreter::new(statements);
            let ghost st_new = interpreter@;
            let (outcome, Ghost(ticks)) = interpreter.run();
            proof {
                assert(with_clock(st_new, ticks) =~~= g_initial(ticks));
            }
            match outcome {
                Result::Ok(()) => RunOutcome {
                    stdout: interpreter.output().clone(),
                    error: Option::None,
                    exit_code: 0,
                },
                Result::Err(itr) => {
                    let message = interruption_message(&itr);
                    RunOutcome {
                        stdout: interpreter.output().clone(),
                        error: Option::Some(message),
                        exit_code: 70,
                    }
                },
            }
        },
    }
}

/// The whole pipeline on source text.  A scan or parse error exits 65
/// with nothing printed; otherwise the parsed program runs as
/// `run_statements` says.
pub fn run_source(source: &str) -> (r: RunOutcome)
    requires
        source@.len() <= MAX_SOURCE_LEN,
    ensures
        r.exit_code == 0 || r.exit_code == 65 || r.exit_code == 70,
        r.exit_code == 65 ==> r.stdout@ == Seq::<char>::empty(),
        (r.exit_code != 0) == (r.error is Some),
{
    let scanner = Scanner::new(source);
    let parser = Parser::new(source, scanner);
    match parser.parse_statements() {
        Result::Err(e) => RunOutcome {
            stdout: String::new(),
            error: Option::Some(e.message),
            exit_code: 65,
        },
        Result::Ok(statements) => run_statements(statements),
    }
}

/// The `evaluate` entry: one expression, evaluated in a fresh, empty,
/// non-global scope, with its display form as the output.  A parse
/// error exits 65, a runtime error 70.
pub fn evaluate_source(source: &str) -> (r: RunOutcome)
    requires
        source@.len() <= MAX_SOURCE_LEN,
    ensures
        r.exit_code == 0 || r.exit_code == 65 || r.exit_code == 70,
        r.exit_code == 65 ==> r.stdout@ == Seq::<char>::empty(),
        (r.exit_code != 0) == (r.error is Some),
{
    let scanner = Scanner::new(source);
    let mut parser = Parser::new(source, scanner);
    match parser.parse_expression() {
        Result::Err(e) => RunOutcome {
            stdout: String::new(),
            error: Option::Some(e.message),
            exit_code: 65,
        },
        Result::Ok(expression) => {
            let mut interpreter = Interpreter::new_with_default_scope();
            let (result, Ghost(_ticks)) = interpreter.eval(&expression, 0, RUN_FUEL);
            match result {
                Result::Ok(value) => {
                    let shown = interpreter.display_evaluation(&value);
                    RunOutcome { stdout: shown, error: Option::None, exit_code: 0 }
                },
                Result::Err(itr) => {
                    let message = interruption_message(&itr);
                    RunOutcome {
                        stdout: String::new(),
                        error: Option::Some(message),
                        exit_code: 70,
                    }
                },
            }
        },
    }
}

} // verus!
