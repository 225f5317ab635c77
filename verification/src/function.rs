//! Function values: user-defined closures and the single native `clock`.
use crate::grammar::Node;
use crate::scanner::{GToken, Token};
use std::rc::Rc;
use vstd::prelude::*;

verus! {

/// A user-defined function: its declaration, shared by reference, and
/// the environment captured where it was declared.
pub struct CustomFunction {
    pub name: String,
    pub arity: usize,
    pub parameters: Vec<Token>,
    pub captured_environment: usize,
    pub body: Rc<Node>,
}

/// The native `clock` entry: no captured environment, no body.
pub struct NativeFunction {
    pub name: String,
    pub arity: usize,
}

pub enum Function {
    CustomFunction(CustomFunction),
    NativeFunction(NativeFunction),
}

/// The mathematical shape of a user-defined function.
#[verifier::ext_equal]
pub struct GCustomFunction {
    pub name: Seq<char>,
    pub arity: int,
    pub parameters: Seq<GToken>,
    pub captured_environment: int,
    pub body: Node,
}

#[verifier::ext_equal]
pub enum GFunction {
    Custom(GCustomFunction),
    Native { name: Seq<char>, arity: int },
}

impl View for CustomFunction {
    type V = GCustomFunction;

    open spec fn view(&self) -> GCustomFunction {
        GCustomFunction {
            name: self.name@,
            arity: self.arity as int,
            parameters: self.parameters@.map_values(|t: Token| t@),
            captured_environment: self.captured_environment as int,
            body: *self.body,
        }
    }
}

impl View for Function {
    type V = GFunction;

    open spec fn view(&self) -> GFunction {
        match self {
            Function::CustomFunction(c) => GFunction::Custom(c@),
            Function::NativeFunction(n) => GFunction::Native {
                name: n.name@,
                arity: n.arity as int,
            },
        }
    }
}

pub open spec fn gfunction_name(f: GFunction) -> Seq<char> {
    match f {
        GFunction::Custom(c) => c.name,
        GFunction::Native { name, .. } => name,
    }
}

pub open spec fn gfunction_arity(f: GFunction) -> int {
    match f {
        GFunction::Custom(c) => c.arity,
        GFunction::Native { arity, .. } => arity,
    }
}

impl Function {
    pub fn name(&self) -> (r: &String)
        ensures
            r@ == gfunction_name(self@),
    {
        match self {
            Function::CustomFunction(c) => &c.name,
            Function::NativeFunction(n) => &n.name,
        }
    }

    pub fn arity(&self) -> (r: usize)
        ensures
            r == gfunction_arity(self@),
    {
        match self {
            Function::CustomFunction(c) => c.arity,
            Function::NativeFunction(n) => n.arity,
        }
    }
}

/// Relies on `Rc::clone`: the clone is a handle to the same shared
/// value, per its documentation.
#[verifier::external_body]
pub fn rc_clone_function(r: &Rc<Function>) -> (res: Rc<Function>)
    ensures
        res == *r,
{
    r.clone()
}

/// The native bindings of a fresh global scope: the single `clock`
/// function, arity zero.
pub fn native_functions() -> (r: crate::environment::StringMap)
    ensures
        r@ == crate::environment::native_bindings(),
{
    let mut m = crate::environment::StringMap::new();
    let name = String::from_str("clock");
    let f = Rc::new(
        Function::NativeFunction(NativeFunction { name: String::from_str("clock"), arity: 0 }),
    );
    m.insert(name, crate::evaluation::Evaluation::Func(f));
    m
}

} // verus!
