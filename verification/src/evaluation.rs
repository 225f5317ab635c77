//! Runtime values and their mathematical model.
//!
//! `Evaluation` is the tagged value the evaluator produces.  Classes and
//! instances are handles into the interpreter's arenas, so a value is
//! plain data; `GVal` is its shape in specifications.
use crate::function::{rc_clone_function, Function, GFunction};
use std::rc::Rc;
use vstd::prelude::*;

verus! {

/// A method bound to a receiver: the function, the receiving instance
/// and the class environment the method was found in.
pub struct ClassMethod {
    pub func: Rc<Function>,
    pub class_instance: usize,
    pub method_environment: usize,
}

/// The mathematical shape of a bound method.
#[verifier::ext_equal]
pub struct GMethod {
    pub func: GFunction,
    pub class_instance: int,
    pub method_environment: int,
}

impl View for ClassMethod {
    type V = GMethod;

    open spec fn view(&self) -> GMethod {
        GMethod {
            func: self.func@,
            class_instance: self.class_instance as int,
            method_environment: self.method_environment as int,
        }
    }
}

pub enum Evaluation {
    Number(u64),
    Boolean(bool),
    Str(String),
    Nil,
    Func(Rc<Function>),
    Class(usize),
    ClassMethod(ClassMethod),
    ClassInstance(usize),
    Empty,
}

/// The mathematical shape of a runtime value.
#[verifier::ext_equal]
pub enum GVal {
    Num(u64),
    Bool(bool),
    Str(Seq<char>),
    Nil,
    Func(GFunction),
    Class(int),
    Method(GMethod),
    Instance(int),
    Empty,
}

impl View for Evaluation {
    type V = GVal;

    open spec fn view(&self) -> GVal {
        match self {
            Evaluation::Number(b) => GVal::Num(*b),
            Evaluation::Boolean(b) => GVal::Bool(*b),
            Evaluation::Str(s) => GVal::Str(s@),
            Evaluation::Nil => GVal::Nil,
            Evaluation::Func(f) => GVal::Func(f@),
            Evaluation::Class(c) => GVal::Class(*c as int),
            Evaluation::ClassMethod(m) => GVal::Method(m@),
            Evaluation::ClassInstance(i) => GVal::Instance(*i as int),
            Evaluation::Empty => GVal::Empty,
        }
    }
}

impl Clone for Evaluation {
    fn clone(&self) -> (r: Evaluation)
        ensures
            r@ == self@,
    {
        match self {
            Evaluation::Number(b) => Evaluation::Number(*b),
            Evaluation::Boolean(b) => Evaluation::Boolean(*b),
            Evaluation::Str(s) => Evaluation::Str(s.clone()),
            Evaluation::Nil => Evaluation::Nil,
            Evaluation::Func(f) => Evaluation::Func(rc_clone_function(f)),
            Evaluation::Class(c) => Evaluation::Class(*c),
            Evaluation::ClassMethod(m) => Evaluation::ClassMethod(
                ClassMethod {
                    func: rc_clone_function(&m.func),
                    class_instance: m.class_instance,
                    method_environment: m.method_environment,
                },
            ),
            Evaluation::ClassInstance(i) => Evaluation::ClassInstance(*i),
            Evaluation::Empty => Evaluation::Empty,
        }
    }
}

/// Truthiness: `false` and `nil` are falsey, every other value is
/// truthy; `0` and the empty string included.
pub open spec fn g_truthy(v: GVal) -> bool {
    match v {
        GVal::Bool(false) => false,
        GVal::Nil => false,
        _ => true,
    }
}

} // verus!
