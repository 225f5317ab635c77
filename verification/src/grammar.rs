//! The abstract syntax tree.
//!
//! Nodes are immutable after parsing.  Function and method bodies are
//! shared by reference, so the same declaration backs every closure made
//! from it.
use crate::scanner::Token;
use std::rc::Rc;
use vstd::prelude::*;

verus! {

pub struct VarDecl {
    pub name: Token,
    pub initializer: Option<Box<Node>>,
}

pub struct FunctionDecl {
    pub name: Token,
    pub parameters: Vec<Token>,
    pub body: Rc<Node>,
}

pub struct ClassMethodDecl {
    pub name: Token,
    pub parameters: Vec<Token>,
    pub body: Rc<Node>,
}

pub struct ClassDecl {
    pub name: Token,
    pub super_class: Option<SuperClassDecl>,
    pub methods: Vec<Node>,
}

pub struct SuperClassDecl {
    pub name: Token,
}

pub struct NilExp {}

pub struct LiteralExp {
    pub name: Token,
}

pub struct GroupingExp {
    pub inner: Box<Node>,
}

pub struct UnaryExp {
    pub operator: Token,
    pub right: Box<Node>,
}

pub struct BinaryExp {
    pub left: Box<Node>,
    pub operator: Token,
    pub right: Box<Node>,
}

pub struct LogicalExp {
    pub left: Box<Node>,
    pub operator: Token,
    pub right: Box<Node>,
}

pub struct AssignmentExp {
    pub name: Token,
    pub value: Box<Node>,
}

pub struct CallExp {
    pub callee: Box<Node>,
    pub args: Vec<Node>,
}

pub struct GetExp {
    pub callee: Box<Node>,
    pub name: Token,
}

pub struct SetExp {
    pub get_exp: Box<Node>,
    pub value: Box<Node>,
}

pub struct ThisExp {
    pub token: Token,
}

pub struct SuperExp {
    pub token: Token,
    pub method: Token,
}

pub struct EmptyStm {}

pub struct PrintStm {
    pub expression: Box<Node>,
}

pub struct BlockStm {
    pub statements: Vec<Node>,
}

pub struct FuncBodyStm {
    pub statements: Vec<Node>,
}

pub struct IfElseStm {
    pub condition: Box<Node>,
    pub then_branch: Box<Node>,
    pub else_branch: Option<Box<Node>>,
}

pub struct WhileStm {
    pub condition: Box<Node>,
    pub body: Box<Node>,
}

pub struct ExpressionStm {
    pub expression: Box<Node>,
}

pub struct ReturnStm {
    pub expression: Box<Node>,
}

pub enum Node {
    VarDecl(VarDecl),
    FunctionDecl(FunctionDecl),
    ClassMethodDecl(ClassMethodDecl),
    ClassDecl(ClassDecl),
    SuperClassDecl(SuperClassDecl),
    NilExp(NilExp),
    LiteralExp(LiteralExp),
    GroupingExp(GroupingExp),
    UnaryExp(UnaryExp),
    BinaryExp(BinaryExp),
    LogicalExp(LogicalExp),
    AssignmentExp(AssignmentExp),
    CallExp(CallExp),
    GetExp(GetExp),
    SetExp(SetExp),
    ThisExp(ThisExp),
    SuperExp(SuperExp),
    EmptyStm(EmptyStm),
    PrintStm(PrintStm),
    BlockStm(BlockStm),
    FuncBodyStm(FuncBodyStm),
    IfElseStm(IfElseStm),
    WhileStm(WhileStm),
    ExpressionStm(ExpressionStm),
    ReturnStm(ReturnStm),
}

/// Relies on `Rc::clone`: the clone is a handle to the same shared
/// value, per its documentation.
#[verifier::external_body]
pub fn rc_clone_node(r: &Rc<Node>) -> (res: Rc<Node>)
    ensures
        res == *r,
{
    r.clone()
}

} // verus!
