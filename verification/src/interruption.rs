//! The evaluator's non-local outcomes: a runtime error, which unwinds to
//! the top-level runner, or a `return`, which unwinds to the innermost
//! call boundary.
use crate::evaluation::{Evaluation, GVal};
use vstd::prelude::*;

verus! {

/// What went wrong at runtime.  `detail` carries the name or operator
/// the message quotes.
#[derive(Clone, Copy, PartialEq, Eq, Structural)]
pub enum RuntimeErrorKind {
    UndefinedIdentifier,
    UnsupportedLiteral,
    UnsupportedUnary,
    UnsupportedBinary,
    UnsupportedOperator,
    NotCallable,
    ArityMismatch,
    OnlyInstancesHaveProperties,
    UndefinedProperty,
    SuperClassNotDefined,
    SuperClassNotClass,
    NoSuperClass,
    InvalidClassMember,
    MissingClassBinding,
    ConstructorReturn,
    ThisOutsideClass,
    SuperOutsideClass,
    InvalidAssignmentTarget,
    ClockFailed,
    StepLimit,
}

pub struct RuntimeError {
    pub kind: RuntimeErrorKind,
    pub detail: String,
}

/// The mathematical shape of a runtime error.
#[verifier::ext_equal]
pub struct GErr {
    pub kind: RuntimeErrorKind,
    pub detail: Seq<char>,
}

impl View for RuntimeError {
    type V = GErr;

    open spec fn view(&self) -> GErr {
        GErr { kind: self.kind, detail: self.detail@ }
    }
}

impl Clone for RuntimeError {
    fn clone(&self) -> (r: RuntimeError)
        ensures
            r@ == self@,
    {
        RuntimeError { kind: self.kind, detail: self.detail.clone() }
    }
}

pub enum Interruption {
    Error(RuntimeError),
    Return(Evaluation),
}

/// The mathematical shape of an interruption.
pub enum GInterruption {
    Error(GErr),
    Return(GVal),
}

impl View for Interruption {
    type V = GInterruption;

    open spec fn view(&self) -> GInterruption {
        match self {
            Interruption::Error(e) => GInterruption::Error(e@),
            Interruption::Return(v) => GInterruption::Return(v@),
        }
    }
}

} // verus!
