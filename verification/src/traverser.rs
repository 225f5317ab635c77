//! The resolver: a single static pre-pass over the syntax tree.
//!
//! It keeps a stack of scopes (sets of declared names, the bottom one
//! global), a stack of enclosing function names and a stack of
//! enclosing classes, and it accumulates the structural errors it finds
//! as a bitmask.  `spec_traverse` is the specification of the walk;
//! the runner reports the first error of the mask by a fixed priority,
//! and any error stops the program before evaluation, with exit 65.
use crate::grammar::Node;
use crate::scanner::TokenType;
use vstd::prelude::*;

verus! {

pub const RESULT_OK: u8 = 0;

pub const OWN_VAR_INITIALIZATION: u8 = 1;

pub const SCOPE_VAR_REDECLARETION: u8 = 2;

pub const INVALID_RETURN: u8 = 4;

pub const THIS_OUTSIDE_OF_CLASS: u8 = 8;

pub const RETURN_VALUE_FROM_INITIALIZER: u8 = 16;

pub const ITSELF_INHERITENCE: u8 = 32;

pub const USE_SUPER_OUTSIDE_OF_CLASS: u8 = 64;

pub const USE_SUPER_IN_CLASS_WITH_NO_SUPERCLASS: u8 = 128;

/// The set of names declared in one scope.
pub struct ScopeSet {
    names: Vec<String>,
}

pub open spec fn sset_of(s: Seq<String>) -> Set<Seq<char>>
    decreases s.len(),
{
    if s.len() == 0 {
        Set::empty()
    } else {
        sset_of(s.drop_last()).insert(s.last()@)
    }
}

pub open spec fn sset_prefix(s: Seq<String>, j: int) -> Set<Seq<char>> {
    sset_of(s.subrange(0, j))
}

impl View for ScopeSet {
    type V = Set<Seq<char>>;

    closed spec fn view(&self) -> Set<Seq<char>> {
        sset_of(self.names@)
    }
}

impl ScopeSet {
    pub fn new() -> (r: ScopeSet)
        ensures
            r@ == Set::<Seq<char>>::empty(),
    {
        ScopeSet { names: Vec::new() }
    }

    fn contains_in_prefix(&self, j: usize, name: &String) -> (r: bool)
        requires
            j <= self.names@.len(),
        ensures
            r == sset_prefix(self.names@, j as int).contains(name@),
        decreases j,
    {
        if j == 0 {
            proof {
                assert(self.names@.subrange(0, 0) =~= Seq::<String>::empty());
            }
            false
        } else {
            proof {
                assert(self.names@.subrange(0, j as int).drop_last() =~= self.names@.subrange(
                    0,
                    j as int - 1,
                ));
                assert(self.names@.subrange(0, j as int).last() == self.names@[j as int - 1]);
            }
            if self.names[j - 1] == *name {
                true
            } else {
                self.contains_in_prefix(j - 1, name)
            }
        }
    }

    pub fn contains(&self, name: &String) -> (r: bool)
        ensures
            r == self@.contains(name@),
    {
        let n = self.names.len();
        proof {
            assert(self.names@.subrange(0, n as int) =~= self.names@);
        }
        self.contains_in_prefix(n, name)
    }

    pub fn insert(&mut self, name: String)
        ensures
            final(self)@ == old(self)@.insert(name@),
    {
        let ghost s0 = self.names@;
        self.names.push(name);
        proof {
            assert(self.names@.drop_last() =~= s0);
        }
    }
}

/// An enclosing class, with whether it has a superclass.
pub struct ClassContext {
    pub name: String,
    pub has_super_class: bool,
}

#[verifier::ext_equal]
pub struct GClassCtx {
    pub name: Seq<char>,
    pub has_super_class: bool,
}

impl View for ClassContext {
    type V = GClassCtx;

    open spec fn view(&self) -> GClassCtx {
        GClassCtx { name: self.name@, has_super_class: self.has_super_class }
    }
}

/// The model of the resolver's state.
#[verifier::ext_equal]
pub struct GTrav {
    pub var_initialization: Option<Seq<char>>,
    pub scopes: Seq<Set<Seq<char>>>,
    pub funcs: Seq<Seq<char>>,
    pub classes: Seq<GClassCtx>,
}

/// State and error bits after one traversal step.
#[verifier::ext_equal]
pub struct GTravRes {
    pub tr: GTrav,
    pub bits: u8,
}

pub struct Traverser {
    var_initialization: Option<String>,
    scopes_stack: Vec<ScopeSet>,
    funcs_stack: Vec<String>,
    classes_stack: Vec<ClassContext>,
}

impl View for Traverser {
    type V = GTrav;

    closed spec fn view(&self) -> GTrav {
        GTrav {
            var_initialization: match self.var_initialization {
                Option::Some(ref s) => Option::Some(s@),
                Option::None => Option::None,
            },
            scopes: self.scopes_stack@.map_values(|s: ScopeSet| s@),
            funcs: self.funcs_stack@.map_values(|s: String| s@),
            classes: self.classes_stack@.map_values(|c: ClassContext| c@),
        }
    }
}

pub open spec fn g_is_global_scope(tr: GTrav) -> bool {
    tr.scopes.len() == 1
}

/// One resolver step over a node.  Children are visited exactly as the
/// evaluator's grammar demands: blocks push a scope, function bodies do
/// not (their declaration already did), operands of unary, binary and
/// logical operators and loop and branch conditions are not descended
/// into.
pub open spec fn spec_traverse(tr: GTrav, node: Node) -> GTravRes
    decreases node, 0int, 0int,
{
    match node {
        Node::VarDecl(d) => {
            let name = d.name@.lexeme;
            if tr.scopes.len() > 0 && tr.scopes.last().contains(name) && !g_is_global_scope(tr) {
                GTravRes { tr, bits: SCOPE_VAR_REDECLARETION }
            } else {
                let tr1 = GTrav {
                    var_initialization: Option::Some(name),
                    scopes: if tr.scopes.len() > 0 {
                        tr.scopes.update(
                            tr.scopes.len() - 1,
                            tr.scopes.last().insert(name),
                        )
                    } else {
                        tr.scopes
                    },
                    ..tr
                };
                let inner = match d.initializer {
                    Option::Some(init) => spec_traverse(tr1, *init),
                    Option::None => GTravRes { tr: tr1, bits: RESULT_OK },
                };
                GTravRes {
                    tr: GTrav { var_initialization: Option::None, ..inner.tr },
                    bits: inner.bits,
                }
            }
        },
        Node::FunctionDecl(d) => spec_traverse_function(
            tr,
            d.name@.lexeme,
            d.parameters@.map_values(|t: crate::scanner::Token| t@.lexeme),
            *d.body,
        ),
        Node::ClassMethodDecl(d) => spec_traverse_function(
            tr,
            d.name@.lexeme,
            d.parameters@.map_values(|t: crate::scanner::Token| t@.lexeme),
            *d.body,
        ),
        Node::ClassDecl(d) => {
            let has_super = d.super_class is Some;
            if (match d.super_class {
                Option::Some(sc) => sc.name@.lexeme == d.name@.lexeme,
                Option::None => false,
            }) {
                GTravRes { tr, bits: ITSELF_INHERITENCE }
            } else {
                let tr1 = GTrav {
                    classes: tr.classes.push(
                        GClassCtx { name: d.name@.lexeme, has_super_class: has_super },
                    ),
                    ..tr
                };
                let inner = spec_traverse_list(tr1, d.methods, 0);
                GTravRes {
                    tr: GTrav { classes: inner.tr.classes.drop_last(), ..inner.tr },
                    bits: inner.bits,
                }
            }
        },
        Node::SuperClassDecl(_) => GTravRes { tr, bits: RESULT_OK },
        Node::NilExp(_) => GTravRes { tr, bits: RESULT_OK },
        Node::LiteralExp(e) => {
            let bits: u8 = if e.name@.kind is IDENTIFIER && (match tr.var_initialization {
                Option::Some(v) => v == e.name@.lexeme,
                Option::None => false,
            }) && !g_is_global_scope(tr) {
                OWN_VAR_INITIALIZATION
            } else {
                RESULT_OK
            };
            GTravRes { tr, bits }
        },
        Node::GroupingExp(e) => spec_traverse(tr, *e.inner),
        Node::UnaryExp(_) => GTravRes { tr, bits: RESULT_OK },
        Node::BinaryExp(_) => GTravRes { tr, bits: RESULT_OK },
        Node::LogicalExp(_) => GTravRes { tr, bits: RESULT_OK },
        Node::AssignmentExp(e) => spec_traverse(tr, *e.value),
        Node::CallExp(e) => {
            let c = spec_traverse(tr, *e.callee);
            let a = spec_traverse_list(c.tr, e.args, 0);
            GTravRes { tr: a.tr, bits: c.bits | a.bits }
        },
        Node::GetExp(e) => spec_traverse(tr, *e.callee),
        Node::SetExp(e) => {
            let g = spec_traverse(tr, *e.get_exp);
            let v = spec_traverse(g.tr, *e.value);
            GTravRes { tr: v.tr, bits: g.bits | v.bits }
        },
        Node::ThisExp(_) => {
            if tr.classes.len() == 0 {
                GTravRes { tr, bits: THIS_OUTSIDE_OF_CLASS }
            } else {
                GTravRes { tr, bits: RESULT_OK }
            }
        },
        Node::SuperExp(_) => {
            if tr.classes.len() == 0 {
                GTravRes { tr, bits: USE_SUPER_OUTSIDE_OF_CLASS }
            } else if !tr.classes.last().has_super_class {
                GTravRes { tr, bits: USE_SUPER_IN_CLASS_WITH_NO_SUPERCLASS }
            } else {
                GTravRes { tr, bits: RESULT_OK }
            }
        },
        Node::EmptyStm(_) => GTravRes { tr, bits: RESULT_OK },
        Node::PrintStm(s) => spec_traverse(tr, *s.expression),
        Node::BlockStm(b) => {
            let tr1 = GTrav { scopes: tr.scopes.push(Set::empty()), ..tr };
            let inner = spec_traverse_list(tr1, b.statements, 0);
            GTravRes {
                tr: GTrav { scopes: inner.tr.scopes.drop_last(), ..inner.tr },
                bits: inner.bits,
            }
        },
        Node::FuncBodyStm(b) => spec_traverse_list(tr, b.statements, 0),
        Node::IfElseStm(s) => {
            let t = spec_traverse(tr, *s.then_branch);
            match s.else_branch {
                Option::Some(e) => {
                    let el = spec_traverse(t.tr, *e);
                    GTravRes { tr: el.tr, bits: t.bits | el.bits }
                },
                Option::None => t,
            }
        },
        Node::WhileStm(s) => spec_traverse(tr, *s.body),
        Node::ExpressionStm(s) => spec_traverse(tr, *s.expression),
        Node::ReturnStm(s) => {
            if tr.funcs.len() == 0 {
                GTravRes { tr, bits: INVALID_RETURN }
            } else {
                let is_ctor = tr.funcs.last() == "init"@;
                let inner = spec_traverse(tr, *s.expression);
                if (*s.expression) is NilExp {
                    inner
                } else if is_ctor {
                    GTravRes { tr: inner.tr, bits: RETURN_VALUE_FROM_INITIALIZER | inner.bits }
                } else {
                    inner
                }
            }
        },
    }
}

/// A function or method declaration: push a scope, declare the
/// parameters into it (a duplicate parameter stops at once, leaving the
/// scope pushed), push the function name, walk the body, pop both.
pub open spec fn spec_traverse_function(
    tr: GTrav,
    name: Seq<char>,
    params: Seq<Seq<char>>,
    body: Node,
) -> GTravRes
    decreases body, 1int, 0int,
{
    let tr1 = GTrav { scopes: tr.scopes.push(Set::empty()), ..tr };
    match spec_declare_params(tr1, params, 0) {
        Option::Some(tr2) => {
            let tr3 = GTrav { funcs: tr2.funcs.push(name), ..tr2 };
            let inner = spec_traverse(tr3, body);
            GTravRes {
                tr: GTrav {
                    scopes: inner.tr.scopes.drop_last(),
                    funcs: inner.tr.funcs.drop_last(),
                    ..inner.tr
                },
                bits: inner.bits,
            }
        },
        Option::None => GTravRes {
            tr: spec_stuck_params(tr1, params, 0),
            bits: SCOPE_VAR_REDECLARETION,
        },
    }
}

/// Parameters declared into the newest scope; `None` on a duplicate,
/// with the names seen so far already inserted.
pub open spec fn spec_declare_params(tr: GTrav, params: Seq<Seq<char>>, k: int) -> Option<GTrav>
    decreases params.len() - k,
    when 0 <= k <= params.len()
{
    if k >= params.len() {
        Option::Some(tr)
    } else if tr.scopes.len() > 0 && tr.scopes.last().contains(params[k]) {
        Option::None
    } else {
        let tr2 = GTrav {
            scopes: if tr.scopes.len() > 0 {
                tr.scopes.update(tr.scopes.len() - 1, tr.scopes.last().insert(params[k]))
            } else {
                tr.scopes
            },
            ..tr
        };
        spec_declare_params(tr2, params, k + 1)
    }
}

/// A node list traversed in order, the error bits joined.
pub open spec fn spec_traverse_list(tr: GTrav, nodes: Vec<Node>, i: int) -> GTravRes
    decreases nodes, 1int, nodes@.len() - i,
    when 0 <= i <= nodes@.len()
{
    if i >= nodes@.len() {
        GTravRes { tr, bits: RESULT_OK }
    } else {
        let first = spec_traverse(tr, nodes@[i]);
        let rest = spec_traverse_list(first.tr, nodes, i + 1);
        GTravRes { tr: rest.tr, bits: first.bits | rest.bits }
    }
}

/// The resolver's fresh state: one global scope, nothing else.
pub open spec fn g_fresh_traverser() -> GTrav {
    GTrav {
        var_initialization: Option::None,
        scopes: seq![Set::<Seq<char>>::empty()],
        funcs: Seq::empty(),
        classes: Seq::empty(),
    }
}

/// The error bits a whole program accumulates.
pub open spec fn spec_resolve_bits(stmts: Vec<Node>) -> u8 {
    spec_traverse_list(g_fresh_traverser(), stmts, 0).bits
}

/// The structural errors the resolver can report.
#[derive(Clone, Copy, PartialEq, Eq, Structural)]
pub enum ResolveError {
    OwnVarInitialization,
    ScopeVarRedeclaretion,
    InvalidReturn,
    ThisOutsideOfClass,
    ReturnValueFromInitializer,
    ItselfInheritence,
    UseSuperOutsideOfClass,
    UseSuperInClassWithNoSuperclass,
}

/// The first error of the accumulated mask, by the reporting priority.
pub open spec fn resolve_verdict(bits: u8) -> Option<ResolveError> {
    if bits & OWN_VAR_INITIALIZATION != 0 {
        Option::Some(ResolveError::OwnVarInitialization)
    } else if bits & SCOPE_VAR_REDECLARETION != 0 {
        Option::Some(ResolveError::ScopeVarRedeclaretion)
    } else if bits & INVALID_RETURN != 0 {
        Option::Some(ResolveError::InvalidReturn)
    } else if bits & THIS_OUTSIDE_OF_CLASS != 0 {
        Option::Some(ResolveError::ThisOutsideOfClass)
    } else if bits & RETURN_VALUE_FROM_INITIALIZER != 0 {
        Option::Some(ResolveError::ReturnValueFromInitializer)
    } else if bits & ITSELF_INHERITENCE != 0 {
        Option::Some(ResolveError::ItselfInheritence)
    } else if bits & USE_SUPER_OUTSIDE_OF_CLASS != 0 {
        Option::Some(ResolveError::UseSuperOutsideOfClass)
    } else if bits & USE_SUPER_IN_CLASS_WITH_NO_SUPERCLASS != 0 {
        Option::Some(ResolveError::UseSuperInClassWithNoSuperclass)
    } else {
        Option::None
    }
}

/// The outcome of one traversal step, as a bitmask of the errors found.
pub struct TraverseResult {
    pub state: u8,
}

impl TraverseResult {
    pub fn ok() -> (r: TraverseResult)
        ensures
            r.state == RESULT_OK,
    {
        TraverseResult { state: RESULT_OK }
    }

    pub fn own_var_initialization() -> (r: TraverseResult)
        ensures
            r.state == OWN_VAR_INITIALIZATION,
    {
        TraverseResult { state: OWN_VAR_INITIALIZATION }
    }

    pub fn scope_var_redeclaretion() -> (r: TraverseResult)
        ensures
            r.state == SCOPE_VAR_REDECLARETION,
    {
        TraverseResult { state: SCOPE_VAR_REDECLARETION }
    }

    pub fn invalid_return() -> (r: TraverseResult)
        ensures
            r.state == INVALID_RETURN,
    {
        TraverseResult { state: INVALID_RETURN }
    }

    pub fn this_outside_of_class() -> (r: TraverseResult)
        ensures
            r.state == THIS_OUTSIDE_OF_CLASS,
    {
        TraverseResult { state: THIS_OUTSIDE_OF_CLASS }
    }

    pub fn return_value_from_initializer() -> (r: TraverseResult)
        ensures
            r.state == RETURN_VALUE_FROM_INITIALIZER,
    {
        TraverseResult { state: RETURN_VALUE_FROM_INITIALIZER }
    }

    pub fn itself_inheritence() -> (r: TraverseResult)
        ensures
            r.state == ITSELF_INHERITENCE,
    {
        TraverseResult { state: ITSELF_INHERITENCE }
    }

    pub fn use_super_outside_of_class() -> (r: TraverseResult)
        ensures
            r.state == USE_SUPER_OUTSIDE_OF_CLASS,
    {
        TraverseResult { state: USE_SUPER_OUTSIDE_OF_CLASS }
    }

    pub fn use_super_in_class_with_no_superclass() -> (r: TraverseResult)
        ensures
            r.state == USE_SUPER_IN_CLASS_WITH_NO_SUPERCLASS,
    {
        TraverseResult { state: USE_SUPER_IN_CLASS_WITH_NO_SUPERCLASS }
    }

    /// The join of two results: every error either one found.
    pub fn or(self, rhs: TraverseResult) -> (r: TraverseResult)
        ensures
            r.state == self.state | rhs.state,
    {
        TraverseResult { state: self.state | rhs.state }
    }

    pub fn is_own_var_initialization(&self) -> (r: bool)
        ensures
            r == (self.state & OWN_VAR_INITIALIZATION != 0),
    {
        self.state & OWN_VAR_INITIALIZATION > 0
    }

    pub fn is_scope_var_redeclaretion(&self) -> (r: bool)
        ensures
            r == (self.state & SCOPE_VAR_REDECLARETION != 0),
    {
        self.state & SCOPE_VAR_REDECLARETION > 0
    }

    pub fn is_invalid_return(&self) -> (r: bool)
        ensures
            r == (self.state & INVALID_RETURN != 0),
    {
        self.state & INVALID_RETURN > 0
    }

    pub fn is_this_outside_of_class(&self) -> (r: bool)
        ensures
            r == (self.state & THIS_OUTSIDE_OF_CLASS != 0),
    {
        self.state & THIS_OUTSIDE_OF_CLASS > 0
    }

    pub fn is_return_value_from_initializer(&self) -> (r: bool)
        ensures
            r == (self.state & RETURN_VALUE_FROM_INITIALIZER != 0),
    {
        self.state & RETURN_VALUE_FROM_INITIALIZER > 0
    }

    pub fn is_itself_inheritence(&self) -> (r: bool)
        ensures
            r == (self.state & ITSELF_INHERITENCE != 0),
    {
        self.state & ITSELF_INHERITENCE > 0
    }

    pub fn is_use_super_outside_of_class(&self) -> (r: bool)
        ensures
            r == (self.state & USE_SUPER_OUTSIDE_OF_CLASS != 0),
    {
        self.state & USE_SUPER_OUTSIDE_OF_CLASS > 0
    }

    pub fn is_use_super_in_class_with_no_superclass(&self) -> (r: bool)
        ensures
            r == (self.state & USE_SUPER_IN_CLASS_WITH_NO_SUPERCLASS != 0),
    {
        self.state & USE_SUPER_IN_CLASS_WITH_NO_SUPERCLASS > 0
    }
}

impl Traverser {
    pub fn new() -> (r: Traverser)
        ensures
            r@ == g_fresh_traverser(),
    {
        let mut scopes: Vec<ScopeSet> = Vec::new();
        scopes.push(ScopeSet::new());
        let r = Traverser {
            var_initialization: Option::None,
            scopes_stack: scopes,
            funcs_stack: Vec::new(),
            classes_stack: Vec::new(),
        };
        proof {
            assert(r@ =~~= g_fresh_traverser());
        }
        r
    }

    pub fn is_global_scope(&self) -> (r: bool)
        ensures
            r == g_is_global_scope(self@),
    {
        self.scopes_stack.len() == 1
    }

    /// One resolver step, as `spec_traverse` describes it.
    #[verifier::rlimit(100)]
    #[verifier::spinoff_prover]
    pub fn traverse(&mut self, node: &Node) -> (r: TraverseResult)
        ensures
            final(self)@ == spec_traverse(old(self)@, *node).tr,
            r.state == spec_traverse(old(self)@, *node).bits,
        decreases *node, 0int, 0int,
    {
        match node {
            Node::VarDecl(d) => {
                let n = self.scopes_stack.len();
                let contains = if n > 0 {
                    self.scopes_stack[n - 1].contains(&d.name.lexeme)
                } else {
                    false
                };
                if contains && !(n == 1) {
                    return TraverseResult::scope_var_redeclaretion();
                }
                self.var_initialization = Option::Some(d.name.lexeme.clone());
                if n > 0 {
                    let top = &mut self.scopes_stack[n - 1];
                    top.insert(d.name.lexeme.clone());
                }
                proof {
                    assert(self@ =~~= (GTrav {
                        var_initialization: Option::Some(d.name@.lexeme),
                        scopes: if old(self)@.scopes.len() > 0 {
                            old(self)@.scopes.update(
                                old(self)@.scopes.len() - 1,
                                old(self)@.scopes.last().insert(d.name@.lexeme),
                            )
                        } else {
                            old(self)@.scopes
                        },
                        ..old(self)@
                    }));
                }
                let inner = match &d.initializer {
                    Option::Some(init) => self.traverse(init),
                    Option::None => TraverseResult::ok(),
                };
                self.var_initialization = Option::None;
                proof {
                    assert(self@ =~~= spec_traverse(old(self)@, *node).tr);
                }
                inner
            },
            Node::FunctionDecl(d) => self.traverse_function(
                &d.name.lexeme,
                &d.parameters,
                &d.body,
            ),
            Node::ClassMethodDecl(d) => self.traverse_function(
                &d.name.lexeme,
                &d.parameters,
                &d.body,
            ),
            Node::ClassDecl(d) => {
                let is_self = match &d.super_class {
                    Option::Some(sc) => sc.name.lexeme == d.name.lexeme,
                    Option::None => false,
                };
                if is_self {
                    return TraverseResult::itself_inheritence();
                }
                let has_super = match &d.super_class {
                    Option::Some(_) => true,
                    Option::None => false,
                };
                self.classes_stack.push(
                    ClassContext { name: d.name.lexeme.clone(), has_super_class: has_super },
                );
                proof {
                    assert(self@.classes =~= old(self)@.classes.push(
                        GClassCtx { name: d.name@.lexeme, has_super_class: has_super },
                    ));
                    assert(self@ =~~= (GTrav {
                        classes: old(self)@.classes.push(
                            GClassCtx { name: d.name@.lexeme, has_super_class: has_super },
                        ),
                        ..old(self)@
                    }));
                }
                let ghost tr1x = self@;
                let inner = self.traverse_list(&d.methods, 0);
                proof {
                    lemma_trav_growth_list(tr1x, &d.methods, 0);
                }
                let _popped = self.classes_stack.pop();
                proof {
                    assert(self@ =~~= spec_traverse(old(self)@, *node).tr);
                }
                inner
            },
            Node::SuperClassDecl(_) => TraverseResult::ok(),
            Node::NilExp(_) => TraverseResult::ok(),
            Node::LiteralExp(e) => {
                let is_ident = match &e.name.token_type {
                    TokenType::IDENTIFIER => true,
                    _ => false,
                };
                let matches_init = match &self.var_initialization {
                    Option::Some(v) => *v == e.name.lexeme,
                    Option::None => false,
                };
                if is_ident && matches_init && !(self.scopes_stack.len() == 1) {
                    TraverseResult::own_var_initialization()
                } else {
                    TraverseResult::ok()
                }
            },
            Node::GroupingExp(e) => self.traverse(&e.inner),
            Node::UnaryExp(_) => TraverseResult::ok(),
            Node::BinaryExp(_) => TraverseResult::ok(),
            Node::LogicalExp(_) => TraverseResult::ok(),
            Node::AssignmentExp(e) => self.traverse(&e.value),
            Node::CallExp(e) => {
                let c = self.traverse(&e.callee);
                let a = self.traverse_list(&e.args, 0);
                c.or(a)
            },
            Node::GetExp(e) => self.traverse(&e.callee),
            Node::SetExp(e) => {
                let g = self.traverse(&e.get_exp);
                let v = self.traverse(&e.value);
                g.or(v)
            },
            Node::ThisExp(_) => {
                if self.classes_stack.len() == 0 {
                    TraverseResult::this_outside_of_class()
                } else {
                    TraverseResult::ok()
                }
            },
            Node::SuperExp(_) => {
                let n = self.classes_stack.len();
                if n == 0 {
                    TraverseResult::use_super_outside_of_class()
                } else if !self.classes_stack[n - 1].has_super_class {
                    TraverseResult::use_super_in_class_with_no_superclass()
                } else {
                    TraverseResult::ok()
                }
            },
            Node::EmptyStm(_) => TraverseResult::ok(),
            Node::PrintStm(s) => self.traverse(&s.expression),
            Node::BlockStm(b) => {
                self.scopes_stack.push(ScopeSet::new());
                proof {
                    assert(self@ =~~= (GTrav {
                        scopes: old(self)@.scopes.push(Set::empty()),
                        ..old(self)@
                    }));
                }
                let ghost tr1x = self@;
                let inner = self.traverse_list(&b.statements, 0);
                proof {
                    lemma_trav_growth_list(tr1x, &b.statements, 0);
                }
                let _popped = self.scopes_stack.pop();
                proof {
                    assert(self@ =~~= spec_traverse(old(self)@, *node).tr);
                }
                inner
            },
            Node::FuncBodyStm(b) => self.traverse_list(&b.statements, 0),
            Node::IfElseStm(s) => {
                let t = self.traverse(&s.then_branch);
                match &s.else_branch {
                    Option::Some(e) => {
                        let el = self.traverse(e);
                        t.or(el)
                    },
                    Option::None => t,
                }
            },
            Node::WhileStm(s) => self.traverse(&s.body),
            Node::ExpressionStm(s) => self.traverse(&s.expression),
            Node::ReturnStm(s) => {
                let n = self.funcs_stack.len();
                if n == 0 {
                    return TraverseResult::invalid_return();
                }
                let is_ctor = self.funcs_stack[n - 1] == String::from_str("init");
                let is_nil = match &*s.expression {
                    Node::NilExp(_) => true,
                    _ => false,
                };
                let inner = self.traverse(&s.expression);
                if is_nil {
                    inner
                } else if is_ctor {
                    TraverseResult::return_value_from_initializer().or(inner)
                } else {
                    inner
                }
            },
        }
    }

    fn traverse_function(&mut self, name: &String, parameters: &Vec<crate::scanner::Token>, body: &std::rc::Rc<Node>) -> (r: TraverseResult)
        ensures
            final(self)@ == spec_traverse_function(
                old(self)@,
                name@,
                parameters@.map_values(|t: crate::scanner::Token| t@.lexeme),
                **body,
            ).tr,
            r.state == spec_traverse_function(
                old(self)@,
                name@,
                parameters@.map_values(|t: crate::scanner::Token| t@.lexeme),
                **body,
            ).bits,
        decreases **body, 1int, 0int,
    {
        let ghost ps = parameters@.map_values(|t: crate::scanner::Token| t@.lexeme);
        self.scopes_stack.push(ScopeSet::new());
        proof {
            assert(self@ =~~= (GTrav {
                scopes: old(self)@.scopes.push(Set::empty()),
                ..old(self)@
            }));
        }
        let ghost tr1x = self@;
        let ok = self.declare_params(parameters, 0);
        proof {
            lemma_params_growth(tr1x, ps, 0);
        }
        if !ok {
            return TraverseResult::scope_var_redeclaretion();
        }
        self.funcs_stack.push(name.clone());
        proof {
            assert(spec_declare_params(tr1x, ps, 0) matches Option::Some(tr2) && self@ =~~= (GTrav {
                funcs: tr2.funcs.push(name@),
                ..tr2
            }));
        }
        let ghost tr3x = self@;
        let inner = self.traverse(&**body);
        proof {
            lemma_trav_growth(tr3x, &**body);
        }
        let _s = self.scopes_stack.pop();
        let _f = self.funcs_stack.pop();
        proof {
            assert(self@ =~~= spec_traverse_function(
                old(self)@,
                name@,
                parameters@.map_values(|t: crate::scanner::Token| t@.lexeme),
                **body,
            ).tr);
        }
        inner
    }

    fn declare_params(&mut self, parameters: &Vec<crate::scanner::Token>, k: usize) -> (ok: bool)
        requires
            k <= parameters@.len(),
        ensures
            ({
                let g = spec_declare_params(
                    old(self)@,
                    parameters@.map_values(|t: crate::scanner::Token| t@.lexeme),
                    k as int,
                );
                match g {
                    Option::Some(tr2) => ok && final(self)@ == tr2,
                    Option::None => !ok,
                }
            }),
            !ok ==> final(self)@ == spec_stuck_params(
                old(self)@,
                parameters@.map_values(|t: crate::scanner::Token| t@.lexeme),
                k as int,
            ),
        decreases parameters@.len() - k,
    {
        if k >= parameters.len() {
            return true;
        }
        let n = self.scopes_stack.len();
        let contains = if n > 0 {
            self.scopes_stack[n - 1].contains(&parameters[k].lexeme)
        } else {
            false
        };
        if contains {
            return false;
        }
        if n > 0 {
            let top = &mut self.scopes_stack[n - 1];
            top.insert(parameters[k].lexeme.clone());
        }
        proof {
            let ps = parameters@.map_values(|t: crate::scanner::Token| t@.lexeme);
            assert(self@.scopes =~= (if old(self)@.scopes.len() > 0 {
                old(self)@.scopes.update(
                    old(self)@.scopes.len() - 1,
                    old(self)@.scopes.last().insert(ps[k as int]),
                )
            } else {
                old(self)@.scopes
            }));
        }
        self.declare_params(parameters, k + 1)
    }

    /// A node list, as `spec_traverse_list` describes it.
    pub fn traverse_list(&mut self, nodes: &Vec<Node>, i: usize) -> (r: TraverseResult)
        requires
            i <= nodes@.len(),
        ensures
            final(self)@ == spec_traverse_list(old(self)@, *nodes, i as int).tr,
            r.state == spec_traverse_list(old(self)@, *nodes, i as int).bits,
        decreases *nodes, 1int, nodes@.len() - i,
    {
        if i >= nodes.len() {
            return TraverseResult::ok();
        }
        let first = self.traverse(&nodes[i]);
        let rest = self.traverse_list(nodes, i + 1);
        first.or(rest)
    }

    /// The whole pre-pass: every top-level statement is walked, the
    /// error bits are joined, and the first error by priority is
    /// reported; a clean mask resolves to `Ok`.
    pub fn run(self, statements: &Vec<Node>) -> (r: Result<(), ResolveError>)
        requires
            self@ == g_fresh_traverser(),
        ensures
            r == (match resolve_verdict(spec_resolve_bits(*statements)) {
                Option::Some(e) => Result::<(), ResolveError>::Err(e),
                Option::None => Result::<(), ResolveError>::Ok(()),
            }),
    {
        let mut traverser = self;
        let result = traverser.traverse_list(statements, 0);
        if result.is_own_var_initialization() {
            Result::Err(ResolveError::OwnVarInitialization)
        } else if result.is_scope_var_redeclaretion() {
            Result::Err(ResolveError::ScopeVarRedeclaretion)
        } else if result.is_invalid_return() {
            Result::Err(ResolveError::InvalidReturn)
        } else if result.is_this_outside_of_class() {
            Result::Err(ResolveError::ThisOutsideOfClass)
        } else if result.is_return_value_from_initializer() {
            Result::Err(ResolveError::ReturnValueFromInitializer)
        } else if result.is_itself_inheritence() {
            Result::Err(ResolveError::ItselfInheritence)
        } else if result.is_use_super_outside_of_class() {
            Result::Err(ResolveError::UseSuperOutsideOfClass)
        } else if result.is_use_super_in_class_with_no_superclass() {
            Result::Err(ResolveError::UseSuperInClassWithNoSuperclass)
        } else {
            Result::Ok(())
        }
    }
}


/// The walk never leaves a stack shorter than it found it (an early
/// stop on a duplicate parameter can leave one longer).
pub proof fn lemma_trav_growth(tr: GTrav, node: &Node)
    ensures
        spec_traverse(tr, *node).tr.scopes.len() >= tr.scopes.len(),
        spec_traverse(tr, *node).tr.funcs.len() >= tr.funcs.len(),
        spec_traverse(tr, *node).tr.classes.len() >= tr.classes.len(),
    decreases *node, 0int, 0int,
{
    match node {
        Node::VarDecl(d) => {
            match &d.initializer {
                Option::Some(init) => {
                    let name = d.name@.lexeme;
                    if !(tr.scopes.len() > 0 && tr.scopes.last().contains(name)
                        && !g_is_global_scope(tr)) {
                        let tr1 = GTrav {
                            var_initialization: Option::Some(name),
                            scopes: if tr.scopes.len() > 0 {
                                tr.scopes.update(
                                    tr.scopes.len() - 1,
                                    tr.scopes.last().insert(name),
                                )
                            } else {
                                tr.scopes
                            },
                            ..tr
                        };
                        lemma_trav_growth(tr1, init);
                    }
                },
                Option::None => {},
            }
        },
        Node::FunctionDecl(d) => {
            lemma_trav_growth_function(
                tr,
                d.name@.lexeme,
                d.parameters@.map_values(|t: crate::scanner::Token| t@.lexeme),
                &d.body,
            );
        },
        Node::ClassMethodDecl(d) => {
            lemma_trav_growth_function(
                tr,
                d.name@.lexeme,
                d.parameters@.map_values(|t: crate::scanner::Token| t@.lexeme),
                &d.body,
            );
        },
        Node::ClassDecl(d) => {
            if !(match d.super_class {
                Option::Some(sc) => sc.name@.lexeme == d.name@.lexeme,
                Option::None => false,
            }) {
                let has_super = d.super_class is Some;
                let tr1 = GTrav {
                    classes: tr.classes.push(
                        GClassCtx { name: d.name@.lexeme, has_super_class: has_super },
                    ),
                    ..tr
                };
                lemma_trav_growth_list(tr1, &d.methods, 0);
            }
        },
        Node::GroupingExp(e) => {
            lemma_trav_growth(tr, &e.inner);
        },
        Node::AssignmentExp(e) => {
            lemma_trav_growth(tr, &e.value);
        },
        Node::CallExp(e) => {
            lemma_trav_growth(tr, &e.callee);
            lemma_trav_growth_list(spec_traverse(tr, *e.callee).tr, &e.args, 0);
        },
        Node::GetExp(e) => {
            lemma_trav_growth(tr, &e.callee);
        },
        Node::SetExp(e) => {
            lemma_trav_growth(tr, &e.get_exp);
            lemma_trav_growth(spec_traverse(tr, *e.get_exp).tr, &e.value);
        },
        Node::PrintStm(st) => {
            lemma_trav_growth(tr, &st.expression);
        },
        Node::BlockStm(b) => {
            let tr1 = GTrav { scopes: tr.scopes.push(Set::empty()), ..tr };
            lemma_trav_growth_list(tr1, &b.statements, 0);
        },
        Node::FuncBodyStm(b) => {
            lemma_trav_growth_list(tr, &b.statements, 0);
        },
        Node::IfElseStm(st) => {
            lemma_trav_growth(tr, &st.then_branch);
            match &st.else_branch {
                Option::Some(e) => {
                    lemma_trav_growth(spec_traverse(tr, *st.then_branch).tr, e);
                },
                Option::None => {},
            }
        },
        Node::WhileStm(st) => {
            lemma_trav_growth(tr, &st.body);
        },
        Node::ExpressionStm(st) => {
            lemma_trav_growth(tr, &st.expression);
        },
        Node::ReturnStm(st) => {
            if tr.funcs.len() > 0 {
                lemma_trav_growth(tr, &st.expression);
            }
        },
        _ => {},
    }
}

pub proof fn lemma_trav_growth_function(tr: GTrav, name: Seq<char>, params: Seq<Seq<char>>, body: &Node)
    ensures
        spec_traverse_function(tr, name, params, *body).tr.scopes.len() >= tr.scopes.len(),
        spec_traverse_function(tr, name, params, *body).tr.funcs.len() >= tr.funcs.len(),
        spec_traverse_function(tr, name, params, *body).tr.classes.len() >= tr.classes.len(),
    decreases *body, 1int, 0int,
{
    let tr1 = GTrav { scopes: tr.scopes.push(Set::empty()), ..tr };
    lemma_params_growth(tr1, params, 0);
    match spec_declare_params(tr1, params, 0) {
        Option::Some(tr2) => {
            let tr3 = GTrav { funcs: tr2.funcs.push(name), ..tr2 };
            lemma_trav_growth(tr3, body);
        },
        Option::None => {},
    }
}

pub proof fn lemma_params_growth(tr: GTrav, params: Seq<Seq<char>>, k: int)
    requires
        0 <= k <= params.len(),
    ensures
        (match spec_declare_params(tr, params, k) {
            Option::Some(tr2) => tr2.scopes.len() == tr.scopes.len() && tr2.funcs == tr.funcs
                && tr2.classes == tr.classes && tr2.var_initialization
                == tr.var_initialization,
            Option::None => true,
        }),
        spec_stuck_params(tr, params, k).scopes.len() == tr.scopes.len(),
        spec_stuck_params(tr, params, k).funcs == tr.funcs,
        spec_stuck_params(tr, params, k).classes == tr.classes,
        spec_stuck_params(tr, params, k).var_initialization == tr.var_initialization,
    decreases params.len() - k,
{
    if k < params.len() {
        if !(tr.scopes.len() > 0 && tr.scopes.last().contains(params[k])) {
            let tr2 = GTrav {
                scopes: if tr.scopes.len() > 0 {
                    tr.scopes.update(tr.scopes.len() - 1, tr.scopes.last().insert(params[k]))
                } else {
                    tr.scopes
                },
                ..tr
            };
            lemma_params_growth(tr2, params, k + 1);
        }
    }
}

pub proof fn lemma_trav_growth_list(tr: GTrav, nodes: &Vec<Node>, i: int)
    requires
        0 <= i <= nodes@.len(),
    ensures
        spec_traverse_list(tr, *nodes, i).tr.scopes.len() >= tr.scopes.len(),
        spec_traverse_list(tr, *nodes, i).tr.funcs.len() >= tr.funcs.len(),
        spec_traverse_list(tr, *nodes, i).tr.classes.len() >= tr.classes.len(),
    decreases *nodes, 1int, nodes@.len() - i,
{
    if i < nodes@.len() {
        let ghost elem = nodes@[i];
        lemma_trav_growth(tr, &elem);
        lemma_trav_growth_list(spec_traverse(tr, nodes@[i]).tr, nodes, i + 1);
    }
}

/// Where a duplicate parameter stopped the declaration walk.
pub open spec fn spec_stuck_params(tr: GTrav, params: Seq<Seq<char>>, k: int) -> GTrav
    decreases params.len() - k,
    when 0 <= k <= params.len()
{
    if k >= params.len() {
        tr
    } else if tr.scopes.len() > 0 && tr.scopes.last().contains(params[k]) {
        tr
    } else {
        let tr2 = GTrav {
            scopes: if tr.scopes.len() > 0 {
                tr.scopes.update(tr.scopes.len() - 1, tr.scopes.last().insert(params[k]))
            } else {
                tr.scopes
            },
            ..tr
        };
        spec_stuck_params(tr2, params, k + 1)
    }
}

} // verus!
