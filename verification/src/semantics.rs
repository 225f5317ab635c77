//! The semantics of evaluation, as one specification.
//!
//! `GInterp` is the model of an interpreter: its scopes, classes and
//! instances, the text printed so far, and the stream of readings the
//! native clock will serve, one consumed per call.  `spec_eval` is a
//! big-step evaluator over
//! this model; the executable evaluator is proved to compute exactly
//! what it says.  A step budget (`fuel`) makes the definition total: a
//! run that would not finish within the budget yields `Stop`, an
//! outcome the executable interpreter maps to an error that a real
//! budget never reaches.
use crate::class::{classes_wf, spec_get_field_for_class, GClass};
use crate::environment::{envs_wf, genv_define, genv_lookup, GEnv};
use crate::evaluation::{g_truthy, GMethod, GVal};
use crate::function::{gfunction_arity, GCustomFunction, GFunction};
use crate::grammar::Node;
use crate::interruption::{GErr, GInterruption, RuntimeErrorKind};
use crate::numerics::{add_of, div_of, mul_of, num_eq, num_ge, num_gt, num_le, num_lt, sub_of, MINUS_ONE_BITS};
use crate::render::render_of;
use crate::scanner::{GToken, GTokenType};
use vstd::prelude::*;

verus! {

/// The model of an interpreter's mutable state.
#[verifier::ext_equal]
pub struct GInterp {
    pub envs: Seq<GEnv>,
    pub classes: Seq<GClass>,
    pub instances: Seq<crate::class::GInst>,
    pub output: Seq<char>,
    pub clock: Seq<Option<u64>>,
}

/// What evaluating one node yields besides the new state.
pub enum GOut {
    Val(GVal),
    Itr(GInterruption),
    Stop,
}

/// State and outcome after evaluating one node.
#[verifier::ext_equal]
pub struct GRes {
    pub st: GInterp,
    pub out: GOut,
}

/// What evaluating an argument list yields besides the new state.
pub enum GArgsOut {
    Vals(Seq<GVal>),
    Itr(GInterruption),
    Stop,
}

#[verifier::ext_equal]
pub struct GArgs {
    pub st: GInterp,
    pub out: GArgsOut,
}

pub open spec fn gerr(kind: RuntimeErrorKind, detail: Seq<char>) -> GOut {
    GOut::Itr(GInterruption::Error(GErr { kind, detail }))
}

pub open spec fn gfunc_wf(f: GFunction, ne: int) -> bool {
    match f {
        GFunction::Custom(c) => 0 <= c.captured_environment < ne,
        GFunction::Native { .. } => true,
    }
}

/// Handles held by a value stay inside arenas of the given sizes.
pub open spec fn gval_wf(v: GVal, ne: int, nc: int, ni: int) -> bool {
    match v {
        GVal::Func(f) => gfunc_wf(f, ne),
        GVal::Class(c) => 0 <= c < nc,
        GVal::Method(m) => gfunc_wf(m.func, ne) && 0 <= m.class_instance < ni && 0
            <= m.method_environment < ne,
        GVal::Instance(i) => 0 <= i < ni,
        _ => true,
    }
}

pub open spec fn genv_vals_wf(e: GEnv, ne: int, nc: int, ni: int) -> bool {
    &&& forall|k: Seq<char>| #[trigger] e.values.contains_key(k) ==> gval_wf(e.values[k], ne, nc, ni)
    &&& forall|k: Seq<char>| #[trigger] e.functions.contains_key(k) ==> gval_wf(
        e.functions[k],
        ne,
        nc,
        ni,
    )
}

pub open spec fn ginst_wf(inst: crate::class::GInst, ne: int, nc: int, ni: int) -> bool {
    &&& 0 <= inst.class < nc
    &&& forall|k: Seq<char>| #[trigger] inst.fields.contains_key(k) ==> gval_wf(
        inst.fields[k],
        ne,
        nc,
        ni,
    )
}

/// The interpreter's invariant: scope chains go to earlier arena slots,
/// classes point at valid environments and earlier superclasses, and
/// every stored value's handles lie inside the arenas.
pub open spec fn st_wf(st: GInterp) -> bool {
    let ne = st.envs.len() as int;
    let nc = st.classes.len() as int;
    let ni = st.instances.len() as int;
    &&& envs_wf(st.envs)
    &&& classes_wf(st.classes, ne)
    &&& forall|i: int| 0 <= i < ne ==> genv_vals_wf(#[trigger] st.envs[i], ne, nc, ni)
    &&& forall|i: int| 0 <= i < ni ==> ginst_wf(#[trigger] st.instances[i], ne, nc, ni)
}

/// Arenas only grow.
pub open spec fn st_extends(pre: GInterp, post: GInterp) -> bool {
    &&& pre.envs.len() <= post.envs.len()
    &&& pre.classes.len() <= post.classes.len()
    &&& pre.instances.len() <= post.instances.len()
}

/// The same state with another stream of clock readings.
pub open spec fn with_clock(st: GInterp, t: Seq<Option<u64>>) -> GInterp {
    GInterp { clock: t, ..st }
}

pub proof fn lemma_gval_wf_mono(v: GVal, ne: int, nc: int, ni: int, ne2: int, nc2: int, ni2: int)
    requires
        gval_wf(v, ne, nc, ni),
        ne <= ne2,
        nc <= nc2,
        ni <= ni2,
    ensures
        gval_wf(v, ne2, nc2, ni2),
{
}

pub proof fn lemma_genv_vals_wf_mono(
    e: GEnv,
    ne: int,
    nc: int,
    ni: int,
    ne2: int,
    nc2: int,
    ni2: int,
)
    requires
        genv_vals_wf(e, ne, nc, ni),
        ne <= ne2,
        nc <= nc2,
        ni <= ni2,
    ensures
        genv_vals_wf(e, ne2, nc2, ni2),
{
    assert forall|k: Seq<char>| #[trigger] e.values.contains_key(k) implies gval_wf(
        e.values[k],
        ne2,
        nc2,
        ni2,
    ) by {
        lemma_gval_wf_mono(e.values[k], ne, nc, ni, ne2, nc2, ni2);
    }
    assert forall|k: Seq<char>| #[trigger] e.functions.contains_key(k) implies gval_wf(
        e.functions[k],
        ne2,
        nc2,
        ni2,
    ) by {
        lemma_gval_wf_mono(e.functions[k], ne, nc, ni, ne2, nc2, ni2);
    }
}

pub proof fn lemma_ginst_wf_mono(
    inst: crate::class::GInst,
    ne: int,
    nc: int,
    ni: int,
    ne2: int,
    nc2: int,
    ni2: int,
)
    requires
        ginst_wf(inst, ne, nc, ni),
        ne <= ne2,
        nc <= nc2,
        ni <= ni2,
    ensures
        ginst_wf(inst, ne2, nc2, ni2),
{
    assert forall|k: Seq<char>| #[trigger] inst.fields.contains_key(k) implies gval_wf(
        inst.fields[k],
        ne2,
        nc2,
        ni2,
    ) by {
        lemma_gval_wf_mono(inst.fields[k], ne, nc, ni, ne2, nc2, ni2);
    }
}

/// How a value prints.
pub open spec fn gdisplay(st: GInterp, v: GVal) -> Seq<char> {
    match v {
        GVal::Num(b) => render_of(b),
        GVal::Bool(true) => "true"@,
        GVal::Bool(false) => "false"@,
        GVal::Nil => "nil"@,
        GVal::Str(s) => s,
        GVal::Func(f) => "<fn "@ + crate::function::gfunction_name(f) + ">"@,
        GVal::Class(c) => st.classes[c].name,
        GVal::Method(m) => "<method "@ + crate::function::gfunction_name(m.func) + ">"@,
        GVal::Instance(i) => st.classes[st.instances[i].class].name + " instance"@,
        GVal::Empty => Seq::empty(),
    }
}

/// A new scope nested in `enclosing`, appended to the arena.
pub open spec fn g_push_env(st: GInterp, enclosing: int) -> GInterp {
    GInterp {
        envs: st.envs.push(
            GEnv {
                values: Map::empty(),
                functions: Map::empty(),
                enclosing: Option::Some(enclosing),
                is_global: false,
            },
        ),
        ..st
    }
}

/// Bind a name in the scope at `env`.
pub open spec fn g_define(st: GInterp, env: int, name: Seq<char>, v: GVal) -> GInterp {
    GInterp { envs: st.envs.update(env, genv_define(st.envs[env], name, v)), ..st }
}

/// The captured scope for a closure: the global scope itself, a copy of
/// any other scope.
pub open spec fn g_persist(st: GInterp, env: int) -> (GInterp, int) {
    if st.envs[env].is_global {
        (st, env)
    } else {
        (GInterp { envs: st.envs.push(st.envs[env]), ..st }, st.envs.len() as int)
    }
}

/// What a unary operator yields on an evaluated operand.
pub open spec fn spec_unary(op: GToken, v: GVal) -> GOut {
    match op.kind {
        GTokenType::BANG => match v {
            GVal::Bool(b) => GOut::Val(GVal::Bool(!b)),
            GVal::Nil => GOut::Val(GVal::Bool(true)),
            GVal::Num(_) => GOut::Val(GVal::Bool(false)),
            _ => gerr(RuntimeErrorKind::UnsupportedUnary, op.lexeme),
        },
        GTokenType::MINUS => match v {
            GVal::Num(n) => GOut::Val(GVal::Num(mul_of(MINUS_ONE_BITS, n))),
            _ => gerr(RuntimeErrorKind::UnsupportedUnary, op.lexeme),
        },
        _ => gerr(RuntimeErrorKind::UnsupportedOperator, op.lexeme),
    }
}

/// What a binary operator yields on two evaluated operands: numeric
/// arithmetic and ordering, string concatenation under `+`, and
/// same-kind equality with every cross-kind comparison unequal.
pub open spec fn spec_binary(op: GToken, l: GVal, r: GVal) -> GOut {
    match op.kind {
        GTokenType::PLUS => match (l, r) {
            (GVal::Num(a), GVal::Num(b)) => GOut::Val(GVal::Num(add_of(a, b))),
            (GVal::Str(a), GVal::Str(b)) => GOut::Val(GVal::Str(a + b)),
            _ => gerr(RuntimeErrorKind::UnsupportedBinary, op.lexeme),
        },
        GTokenType::MINUS => match (l, r) {
            (GVal::Num(a), GVal::Num(b)) => GOut::Val(GVal::Num(sub_of(a, b))),
            _ => gerr(RuntimeErrorKind::UnsupportedBinary, op.lexeme),
        },
        GTokenType::STAR => match (l, r) {
            (GVal::Num(a), GVal::Num(b)) => GOut::Val(GVal::Num(mul_of(a, b))),
            _ => gerr(RuntimeErrorKind::UnsupportedBinary, op.lexeme),
        },
        GTokenType::SLASH => match (l, r) {
            (GVal::Num(a), GVal::Num(b)) => GOut::Val(GVal::Num(div_of(a, b))),
            _ => gerr(RuntimeErrorKind::UnsupportedBinary, op.lexeme),
        },
        GTokenType::LESS => match (l, r) {
            (GVal::Num(a), GVal::Num(b)) => GOut::Val(GVal::Bool(num_lt(a, b))),
            _ => gerr(RuntimeErrorKind::UnsupportedBinary, op.lexeme),
        },
        GTokenType::LESS_EQUAL => match (l, r) {
            (GVal::Num(a), GVal::Num(b)) => GOut::Val(GVal::Bool(num_le(a, b))),
            _ => gerr(RuntimeErrorKind::UnsupportedBinary, op.lexeme),
        },
        GTokenType::GREATER => match (l, r) {
            (GVal::Num(a), GVal::Num(b)) => GOut::Val(GVal::Bool(num_gt(a, b))),
            _ => gerr(RuntimeErrorKind::UnsupportedBinary, op.lexeme),
        },
        GTokenType::GREATER_EQUAL => match (l, r) {
            (GVal::Num(a), GVal::Num(b)) => GOut::Val(GVal::Bool(num_ge(a, b))),
            _ => gerr(RuntimeErrorKind::UnsupportedBinary, op.lexeme),
        },
        GTokenType::EQUAL_EQUAL => match (l, r) {
            (GVal::Num(a), GVal::Num(b)) => GOut::Val(GVal::Bool(num_eq(a, b))),
            (GVal::Str(a), GVal::Str(b)) => GOut::Val(GVal::Bool(a == b)),
            (GVal::Bool(a), GVal::Bool(b)) => GOut::Val(GVal::Bool(a == b)),
            (GVal::Nil, GVal::Nil) => GOut::Val(GVal::Bool(true)),
            (GVal::Instance(a), GVal::Instance(b)) => GOut::Val(GVal::Bool(a == b)),
            _ => GOut::Val(GVal::Bool(false)),
        },
        GTokenType::BANG_EQUAL => match (l, r) {
            (GVal::Num(a), GVal::Num(b)) => GOut::Val(GVal::Bool(!num_eq(a, b))),
            (GVal::Str(a), GVal::Str(b)) => GOut::Val(GVal::Bool(a != b)),
            (GVal::Bool(a), GVal::Bool(b)) => GOut::Val(GVal::Bool(a != b)),
            (GVal::Nil, GVal::Nil) => GOut::Val(GVal::Bool(false)),
            (GVal::Instance(a), GVal::Instance(b)) => GOut::Val(GVal::Bool(a != b)),
            _ => GOut::Val(GVal::Bool(true)),
        },
        _ => gerr(RuntimeErrorKind::UnsupportedOperator, op.lexeme),
    }
}

/// Resolving a superclass name: it must be bound and must be a class.
pub open spec fn spec_super_lookup(st: GInterp, name: Seq<char>, env: int) -> GOut {
    match genv_lookup(st.envs, env, name) {
        Option::None => gerr(RuntimeErrorKind::SuperClassNotDefined, name),
        Option::Some(GVal::Class(c)) => GOut::Val(GVal::Class(c)),
        Option::Some(_) => gerr(RuntimeErrorKind::SuperClassNotClass, name),
    }
}

pub open spec fn g_min(a: int, b: int) -> int {
    if a <= b {
        a
    } else {
        b
    }
}

/// Parameters bound to arguments, pairwise, in the scope at `env`.
pub open spec fn spec_bind_params(
    st: GInterp,
    env: int,
    params: Seq<GToken>,
    args: Seq<GVal>,
    k: int,
) -> GInterp
    decreases g_min(params.len() as int, args.len() as int) - k,
    when 0 <= k
{
    if k >= g_min(params.len() as int, args.len() as int) {
        st
    } else {
        spec_bind_params(g_define(st, env, params[k].lexeme, args[k]), env, params, args, k + 1)
    }
}

/// One evaluation step.  Every recursive use runs on a budget smaller
/// by one; a budget of zero stops.
pub open spec fn spec_eval(st: GInterp, node: Node, env: int, fuel: nat) -> GRes
    decreases fuel, 1int,
{
    if fuel == 0 {
        GRes { st, out: GOut::Stop }
    } else {
        let f = (fuel - 1) as nat;
        match node {
            Node::NilExp(_) => GRes { st, out: GOut::Val(GVal::Nil) },
            Node::LiteralExp(e) => GRes { st, out: spec_literal(st, e.name@, env) },
            Node::GroupingExp(e) => spec_eval(st, *e.inner, env, f),
            Node::UnaryExp(e) => {
                let r = spec_eval(st, *e.right, env, f);
                match r.out {
                    GOut::Val(v) => GRes { st: r.st, out: spec_unary(e.operator@, v) },
                    _ => r,
                }
            },
            Node::BinaryExp(e) => {
                let lr = spec_eval(st, *e.left, env, f);
                match lr.out {
                    GOut::Val(lv) => {
                        let rr = spec_eval(lr.st, *e.right, env, f);
                        match rr.out {
                            GOut::Val(rv) => GRes {
                                st: rr.st,
                                out: spec_binary(e.operator@, lv, rv),
                            },
                            _ => rr,
                        }
                    },
                    _ => lr,
                }
            },
            Node::LogicalExp(e) => {
                let lr = spec_eval(st, *e.left, env, f);
                match lr.out {
                    GOut::Val(lv) => {
                        match e.operator@.kind {
                            GTokenType::OR => if g_truthy(lv) {
                                GRes { st: lr.st, out: GOut::Val(lv) }
                            } else {
                                spec_eval(lr.st, *e.right, env, f)
                            },
                            GTokenType::AND => if !g_truthy(lv) {
                                GRes { st: lr.st, out: GOut::Val(lv) }
                            } else {
                                spec_eval(lr.st, *e.right, env, f)
                            },
                            _ => GRes {
                                st: lr.st,
                                out: gerr(
                                    RuntimeErrorKind::UnsupportedOperator,
                                    e.operator@.lexeme,
                                ),
                            },
                        }
                    },
                    _ => lr,
                }
            },
            Node::AssignmentExp(e) => {
                let vr = spec_eval(st, *e.value, env, f);
                match vr.out {
                    GOut::Val(v) => {
                        let (envs2, _ok) = crate::environment::genv_assign(
                            vr.st.envs,
                            env,
                            e.name@.lexeme,
                            v,
                        );
                        GRes { st: GInterp { envs: envs2, ..vr.st }, out: GOut::Val(v) }
                    },
                    _ => vr,
                }
            },
            Node::CallExp(e) => {
                let cr = spec_eval(st, *e.callee, env, f);
                match cr.out {
                    GOut::Val(callee) => {
                        let ar = spec_eval_args(cr.st, e.args@, env, f);
                        match ar.out {
                            GArgsOut::Vals(vals) => spec_call(ar.st, callee, vals, f),
                            GArgsOut::Itr(itr) => GRes { st: ar.st, out: GOut::Itr(itr) },
                            GArgsOut::Stop => GRes { st: ar.st, out: GOut::Stop },
                        }
                    },
                    _ => cr,
                }
            },
            Node::GetExp(e) => {
                let cr = spec_eval(st, *e.callee, env, f);
                match cr.out {
                    GOut::Val(GVal::Instance(i)) => {
                        match spec_get_field_for_class(
                            cr.st.envs,
                            cr.st.classes,
                            cr.st.instances,
                            i,
                            cr.st.instances[i].class,
                            e.name@.lexeme,
                        ) {
                            Option::Some(v) => GRes { st: cr.st, out: GOut::Val(v) },
                            Option::None => GRes {
                                st: cr.st,
                                out: gerr(RuntimeErrorKind::UndefinedProperty, e.name@.lexeme),
                            },
                        }
                    },
                    GOut::Val(_) => GRes {
                        st: cr.st,
                        out: gerr(RuntimeErrorKind::OnlyInstancesHaveProperties, e.name@.lexeme),
                    },
                    _ => cr,
                }
            },
            Node::SetExp(e) => {
                match *e.get_exp {
                    Node::GetExp(g) => {
                        let cr = spec_eval(st, *g.callee, env, f);
                        match cr.out {
                            GOut::Val(target) => {
                                let vr = spec_eval(cr.st, *e.value, env, f);
                                match vr.out {
                                    GOut::Val(v) => match target {
                                        GVal::Instance(i) => {
                                            let inst = vr.st.instances[i];
                                            let st2 = GInterp {
                                                instances: vr.st.instances.update(
                                                    i,
                                                    crate::class::GInst {
                                                        class: inst.class,
                                                        fields: inst.fields.insert(
                                                            g.name@.lexeme,
                                                            v,
                                                        ),
                                                    },
                                                ),
                                                ..vr.st
                                            };
                                            GRes { st: st2, out: GOut::Val(v) }
                                        },
                                        _ => GRes {
                                            st: vr.st,
                                            out: gerr(
                                                RuntimeErrorKind::OnlyInstancesHaveProperties,
                                                g.name@.lexeme,
                                            ),
                                        },
                                    },
                                    _ => vr,
                                }
                            },
                            _ => cr,
                        }
                    },
                    _ => GRes {
                        st,
                        out: gerr(RuntimeErrorKind::InvalidAssignmentTarget, Seq::empty()),
                    },
                }
            },
            Node::ThisExp(_) => {
                match genv_lookup(st.envs, env, "this"@) {
                    Option::Some(v) => GRes { st, out: GOut::Val(v) },
                    Option::None => GRes {
                        st,
                        out: gerr(RuntimeErrorKind::ThisOutsideClass, "this"@),
                    },
                }
            },
            Node::SuperExp(e) => GRes { st, out: spec_super_exp(st, e.method@.lexeme, env) },
            Node::VarDecl(d) => {
                match d.initializer {
                    Option::Some(init) => {
                        let ir = spec_eval(st, *init, env, f);
                        match ir.out {
                            GOut::Val(v) => GRes {
                                st: g_define(ir.st, env, d.name@.lexeme, v),
                                out: GOut::Val(GVal::Empty),
                            },
                            _ => ir,
                        }
                    },
                    Option::None => GRes {
                        st: g_define(st, env, d.name@.lexeme, GVal::Nil),
                        out: GOut::Val(GVal::Empty),
                    },
                }
            },
            Node::FunctionDecl(d) => {
                let (st2, cap) = g_persist(st, env);
                let fv = GVal::Func(
                    GFunction::Custom(
                        GCustomFunction {
                            name: d.name@.lexeme,
                            arity: d.parameters@.len() as int,
                            parameters: d.parameters@.map_values(
                                |t: crate::scanner::Token| t@,
                            ),
                            captured_environment: cap,
                            body: *d.body,
                        },
                    ),
                );
                GRes { st: g_define(st2, env, d.name@.lexeme, fv), out: GOut::Val(GVal::Nil) }
            },
            Node::ClassMethodDecl(d) => {
                match genv_lookup(st.envs, env, "class"@) {
                    Option::Some(GVal::Class(_)) => {
                        let fv = GVal::Func(
                            GFunction::Custom(
                                GCustomFunction {
                                    name: d.name@.lexeme,
                                    arity: d.parameters@.len() as int,
                                    parameters: d.parameters@.map_values(
                                        |t: crate::scanner::Token| t@,
                                    ),
                                    captured_environment: env,
                                    body: *d.body,
                                },
                            ),
                        );
                        GRes {
                            st: g_define(st, env, d.name@.lexeme, fv),
                            out: GOut::Val(GVal::Nil),
                        }
                    },
                    _ => GRes {
                        st,
                        out: gerr(RuntimeErrorKind::MissingClassBinding, d.name@.lexeme),
                    },
                }
            },
            Node::ClassDecl(d) => spec_class_decl(st, d, env, f),
            Node::SuperClassDecl(d) => GRes { st, out: spec_super_lookup(st, d.name@.lexeme, env) },
            Node::EmptyStm(_) => GRes { st, out: GOut::Val(GVal::Empty) },
            Node::PrintStm(s) => {
                let r = spec_eval(st, *s.expression, env, f);
                match r.out {
                    GOut::Val(v) => GRes {
                        st: GInterp {
                            output: r.st.output + gdisplay(r.st, v) + "\n"@,
                            ..r.st
                        },
                        out: GOut::Val(GVal::Empty),
                    },
                    _ => r,
                }
            },
            Node::BlockStm(b) => {
                let st2 = g_push_env(st, env);
                spec_eval_stmts(st2, b.statements@, (st.envs.len()) as int, f)
            },
            Node::FuncBodyStm(b) => {
                let st2 = g_push_env(st, env);
                spec_eval_stmts(st2, b.statements@, (st.envs.len()) as int, f)
            },
            Node::IfElseStm(s) => {
                let cr = spec_eval(st, *s.condition, env, f);
                match cr.out {
                    GOut::Val(c) => if g_truthy(c) {
                        spec_eval(cr.st, *s.then_branch, env, f)
                    } else {
                        match s.else_branch {
                            Option::Some(e) => spec_eval(cr.st, *e, env, f),
                            Option::None => GRes { st: cr.st, out: GOut::Val(GVal::Empty) },
                        }
                    },
                    _ => cr,
                }
            },
            Node::WhileStm(s) => spec_eval_while(st, *s.condition, *s.body, env, fuel),
            Node::ExpressionStm(s) => {
                let r = spec_eval(st, *s.expression, env, f);
                match r.out {
                    GOut::Val(_) => GRes { st: r.st, out: GOut::Val(GVal::Empty) },
                    _ => r,
                }
            },
            Node::ReturnStm(s) => {
                let r = spec_eval(st, *s.expression, env, f);
                match r.out {
                    GOut::Val(v) => GRes { st: r.st, out: GOut::Itr(GInterruption::Return(v)) },
                    _ => r,
                }
            },
        }
    }
}

/// A literal or identifier.
pub open spec fn spec_literal(st: GInterp, tok: GToken, env: int) -> GOut {
    match tok.kind {
        GTokenType::NUMBER(n) => GOut::Val(GVal::Num(n)),
        GTokenType::TRUE => GOut::Val(GVal::Bool(true)),
        GTokenType::FALSE => GOut::Val(GVal::Bool(false)),
        GTokenType::NIL => GOut::Val(GVal::Nil),
        GTokenType::STRING(s) => GOut::Val(GVal::Str(s)),
        GTokenType::IDENTIFIER => match genv_lookup(st.envs, env, tok.lexeme) {
            Option::Some(v) => GOut::Val(v),
            Option::None => gerr(RuntimeErrorKind::UndefinedIdentifier, tok.lexeme),
        },
        _ => gerr(RuntimeErrorKind::UnsupportedLiteral, tok.lexeme),
    }
}

/// `super.name`: the declaring class comes from the `"class"` binding,
/// the receiver from `"this"`, and lookup starts at the superclass.
pub open spec fn spec_super_exp(st: GInterp, method: Seq<char>, env: int) -> GOut {
    match genv_lookup(st.envs, env, "class"@) {
        Option::Some(GVal::Class(c)) => {
            match st.classes[c].super_class {
                Option::Some(sc) => {
                    match genv_lookup(st.envs, env, "this"@) {
                        Option::Some(GVal::Instance(i)) => {
                            match spec_get_field_for_class(
                                st.envs,
                                st.classes,
                                st.instances,
                                i,
                                sc,
                                method,
                            ) {
                                Option::Some(v) => GOut::Val(v),
                                Option::None => gerr(RuntimeErrorKind::UndefinedProperty, method),
                            }
                        },
                        _ => gerr(RuntimeErrorKind::SuperOutsideClass, method),
                    }
                },
                Option::None => gerr(RuntimeErrorKind::NoSuperClass, st.classes[c].name),
            }
        },
        _ => gerr(RuntimeErrorKind::SuperOutsideClass, method),
    }
}

/// A class declaration: the class environment is made and persisted,
/// the superclass resolved, the class created, bound as `"class"` in
/// its environment and under its name in the declaring scope, and the
/// methods are then defined inside the class environment.
pub open spec fn spec_class_decl(st: GInterp, d: crate::grammar::ClassDecl, env: int, f: nat) -> GRes
    decreases f, 1int,
{
    let st_a = g_push_env(st, env);
    let (st_b, class_env) = g_persist(st_a, st.envs.len() as int);
    let super_r = match d.super_class {
        Option::Some(sc) => spec_super_lookup(st_b, sc.name@.lexeme, env),
        Option::None => GOut::Val(GVal::Nil),
    };
    match super_r {
        GOut::Val(sv) => {
            let superc = match sv {
                GVal::Class(c) => Option::Some(c),
                _ => Option::<int>::None,
            };
            let cls = GClass {
                name: d.name@.lexeme,
                super_class: superc,
                class_environment: class_env,
            };
            let c_idx = st_b.classes.len() as int;
            let st_c = GInterp { classes: st_b.classes.push(cls), ..st_b };
            let st_d = g_define(st_c, class_env, "class"@, GVal::Class(c_idx));
            let st_e = g_define(st_d, env, d.name@.lexeme, GVal::Class(c_idx));
            spec_eval_methods(st_e, d.methods@, class_env, f)
        },
        other => GRes { st: st_b, out: other },
    }
}

/// The methods of a class declaration, defined in order; anything but a
/// method declaration among them is an error.
pub open spec fn spec_eval_methods(st: GInterp, methods: Seq<Node>, class_env: int, fuel: nat) -> GRes
    decreases fuel, 0int,
{
    if fuel == 0 {
        GRes { st, out: GOut::Stop }
    } else if methods.len() == 0 {
        GRes { st, out: GOut::Val(GVal::Nil) }
    } else {
        match methods[0] {
            Node::ClassMethodDecl(_) => {
                let r = spec_eval(st, methods[0], class_env, (fuel - 1) as nat);
                match r.out {
                    GOut::Val(_) => spec_eval_methods(
                        r.st,
                        methods.drop_first(),
                        class_env,
                        (fuel - 1) as nat,
                    ),
                    _ => r,
                }
            },
            _ => GRes { st, out: gerr(RuntimeErrorKind::InvalidClassMember, Seq::empty()) },
        }
    }
}

/// Statements in sequence, in the scope `env`; the block's value is
/// `nil` once all have run.
pub open spec fn spec_eval_stmts(st: GInterp, stmts: Seq<Node>, env: int, fuel: nat) -> GRes
    decreases fuel, 0int,
{
    if fuel == 0 {
        GRes { st, out: GOut::Stop }
    } else if stmts.len() == 0 {
        GRes { st, out: GOut::Val(GVal::Nil) }
    } else {
        let r = spec_eval(st, stmts[0], env, (fuel - 1) as nat);
        match r.out {
            GOut::Val(_) => spec_eval_stmts(r.st, stmts.drop_first(), env, (fuel - 1) as nat),
            _ => r,
        }
    }
}

/// Arguments evaluated left to right.
pub open spec fn spec_eval_args(st: GInterp, args: Seq<Node>, env: int, fuel: nat) -> GArgs
    decreases fuel, 0int,
{
    if fuel == 0 {
        GArgs { st, out: GArgsOut::Stop }
    } else if args.len() == 0 {
        GArgs { st, out: GArgsOut::Vals(Seq::empty()) }
    } else {
        let r = spec_eval(st, args[0], env, (fuel - 1) as nat);
        match r.out {
            GOut::Val(v) => {
                let rest = spec_eval_args(r.st, args.drop_first(), env, (fuel - 1) as nat);
                match rest.out {
                    GArgsOut::Vals(vs) => GArgs {
                        st: rest.st,
                        out: GArgsOut::Vals(seq![v] + vs),
                    },
                    other => GArgs { st: rest.st, out: other },
                }
            },
            GOut::Itr(itr) => GArgs { st: r.st, out: GArgsOut::Itr(itr) },
            GOut::Stop => GArgs { st: r.st, out: GArgsOut::Stop },
        }
    }
}

/// While: the condition is evaluated before each iteration, the body's
/// value is discarded, and each iteration costs one step.
pub open spec fn spec_eval_while(st: GInterp, cond: Node, body: Node, env: int, fuel: nat) -> GRes
    decreases fuel, 0int,
{
    if fuel == 0 {
        GRes { st, out: GOut::Stop }
    } else {
        let f = (fuel - 1) as nat;
        let cr = spec_eval(st, cond, env, f);
        match cr.out {
            GOut::Val(c) => if !g_truthy(c) {
                GRes { st: cr.st, out: GOut::Val(GVal::Empty) }
            } else {
                let br = spec_eval(cr.st, body, env, f);
                match br.out {
                    GOut::Val(_) => spec_eval_while(br.st, cond, body, env, f),
                    _ => br,
                }
            },
            _ => cr,
        }
    }
}

/// A call on an evaluated callee: functions and bound methods check
/// their arity; a class makes an instance and runs its `init`, whose
/// own return value is discarded in favour of the instance; everything
/// else is not callable.
pub open spec fn spec_call(st: GInterp, callee: GVal, args: Seq<GVal>, fuel: nat) -> GRes
    decreases fuel, 0int,
{
    if fuel == 0 {
        GRes { st, out: GOut::Stop }
    } else {
        let f = (fuel - 1) as nat;
        match callee {
            GVal::Func(func) => {
                if gfunction_arity(func) != args.len() as int {
                    GRes { st, out: gerr(RuntimeErrorKind::ArityMismatch, Seq::empty()) }
                } else {
                    match func {
                        GFunction::Custom(c) => spec_call_with_environment(
                            st,
                            c,
                            c.captured_environment,
                            args,
                            f,
                        ),
                        GFunction::Native { .. } => spec_native_clock(st),
                    }
                }
            },
            GVal::Method(m) => {
                if gfunction_arity(m.func) != args.len() as int {
                    GRes { st, out: gerr(RuntimeErrorKind::ArityMismatch, Seq::empty()) }
                } else {
                    spec_call_class_method(st, m, args, f)
                }
            },
            GVal::Class(c) => {
                let i_idx = st.instances.len() as int;
                let st2 = GInterp {
                    instances: st.instances.push(
                        crate::class::GInst { class: c, fields: Map::empty() },
                    ),
                    ..st
                };
                match spec_get_field_for_class(
                    st2.envs,
                    st2.classes,
                    st2.instances,
                    i_idx,
                    c,
                    "init"@,
                ) {
                    Option::Some(GVal::Method(init)) => {
                        if gfunction_arity(init.func) != args.len() as int {
                            GRes {
                                st: st2,
                                out: gerr(RuntimeErrorKind::ArityMismatch, Seq::empty()),
                            }
                        } else {
                            let r = spec_call_class_method(st2, init, args, f);
                            match r.out {
                                GOut::Val(_) => GRes {
                                    st: r.st,
                                    out: GOut::Val(GVal::Instance(i_idx)),
                                },
                                _ => r,
                            }
                        }
                    },
                    _ => if args.len() == 0 {
                        GRes { st: st2, out: GOut::Val(GVal::Instance(i_idx)) }
                    } else {
                        GRes { st: st2, out: gerr(RuntimeErrorKind::ArityMismatch, Seq::empty()) }
                    },
                }
            },
            _ => GRes { st, out: gerr(RuntimeErrorKind::NotCallable, Seq::empty()) },
        }
    }
}

/// What the native `clock` yields: the next reading of the stream, as
/// a number of whole seconds, consumed by the call; a reading the
/// system could not take, and an exhausted stream, are the clock error.
pub open spec fn spec_native_clock(st: GInterp) -> GRes {
    if st.clock.len() == 0 {
        GRes { st, out: gerr(RuntimeErrorKind::ClockFailed, Seq::empty()) }
    } else {
        let out = match st.clock[0] {
            Option::Some(s) => GOut::Val(GVal::Num(crate::numerics::number_from_u64_of(s))),
            Option::None => gerr(RuntimeErrorKind::ClockFailed, Seq::empty()),
        };
        GRes { st: GInterp { clock: st.clock.drop_first(), ..st }, out }
    }
}

/// A user function run in a fresh scope under `environment`, with the
/// parameters bound pairwise; a `return` ends the call with its value,
/// falling off the end yields the body's `nil`.
pub open spec fn spec_call_with_environment(
    st: GInterp,
    c: GCustomFunction,
    environment: int,
    args: Seq<GVal>,
    fuel: nat,
) -> GRes
    decreases fuel, 0int,
{
    if fuel == 0 {
        GRes { st, out: GOut::Stop }
    } else {
        let f = (fuel - 1) as nat;
        let env2 = st.envs.len() as int;
        let st2 = g_push_env(st, environment);
        let st3 = spec_bind_params(st2, env2, c.parameters, args, 0);
        let r = spec_eval(st3, c.body, env2, f);
        match r.out {
            GOut::Itr(GInterruption::Return(v)) => GRes { st: r.st, out: GOut::Val(v) },
            _ => r,
        }
    }
}

/// A bound method call: a scope under the environment the method was
/// found in, with `this` bound to the receiver.  For a constructor the
/// call yields the receiver, and a constructor body that produced
/// anything but `nil` is rejected.
pub open spec fn spec_call_class_method(st: GInterp, m: GMethod, args: Seq<GVal>, fuel: nat) -> GRes
    decreases fuel, 0int,
{
    if fuel == 0 {
        GRes { st, out: GOut::Stop }
    } else {
        let f = (fuel - 1) as nat;
        match m.func {
            GFunction::Custom(c) => {
                let is_ctor = c.name == "init"@;
                let env2 = st.envs.len() as int;
                let st2 = g_push_env(st, m.method_environment);
                let st3 = g_define(st2, env2, "this"@, GVal::Instance(m.class_instance));
                let r = spec_call_with_environment(st3, c, env2, args, f);
                if is_ctor {
                    match r.out {
                        GOut::Val(GVal::Nil) => GRes {
                            st: r.st,
                            out: GOut::Val(GVal::Instance(m.class_instance)),
                        },
                        GOut::Val(_) => GRes {
                            st: r.st,
                            out: gerr(RuntimeErrorKind::ConstructorReturn, c.name),
                        },
                        _ => r,
                    }
                } else {
                    r
                }
            },
            GFunction::Native { .. } => GRes {
                st,
                out: gerr(RuntimeErrorKind::NotCallable, Seq::empty()),
            },
        }
    }
}


pub proof fn lemma_wf_push_env(st: GInterp, enclosing: int)
    requires
        st_wf(st),
        0 <= enclosing < st.envs.len(),
    ensures
        st_wf(g_push_env(st, enclosing)),
        st_extends(st, g_push_env(st, enclosing)),
        g_push_env(st, enclosing).envs.len() == st.envs.len() + 1,
        g_push_env(st, enclosing).classes == st.classes,
        g_push_env(st, enclosing).instances == st.instances,
        g_push_env(st, enclosing).output == st.output,
{
    let st2 = g_push_env(st, enclosing);
    let ne = st.envs.len() as int;
    let ne2 = st2.envs.len() as int;
    let nc = st.classes.len() as int;
    let ni = st.instances.len() as int;
    assert forall|i: int| 0 <= i < ne2 implies genv_vals_wf(#[trigger] st2.envs[i], ne2, nc, ni) by {
        if i < ne {
            assert(st2.envs[i] == st.envs[i]);
            lemma_genv_vals_wf_mono(st.envs[i], ne, nc, ni, ne2, nc, ni);
        }
    }
    assert forall|i: int| 0 <= i < ni implies ginst_wf(#[trigger] st2.instances[i], ne2, nc, ni) by {
        lemma_ginst_wf_mono(st.instances[i], ne, nc, ni, ne2, nc, ni);
    }
    assert(envs_wf(st2.envs));
}

pub proof fn lemma_wf_define(st: GInterp, env: int, name: Seq<char>, v: GVal)
    requires
        st_wf(st),
        0 <= env < st.envs.len(),
        gval_wf(v, st.envs.len() as int, st.classes.len() as int, st.instances.len() as int),
    ensures
        st_wf(g_define(st, env, name, v)),
        st_extends(st, g_define(st, env, name, v)),
        g_define(st, env, name, v).envs.len() == st.envs.len(),
        g_define(st, env, name, v).classes == st.classes,
        g_define(st, env, name, v).instances == st.instances,
        g_define(st, env, name, v).output == st.output,
{
    let st2 = g_define(st, env, name, v);
    let ne = st.envs.len() as int;
    let nc = st.classes.len() as int;
    let ni = st.instances.len() as int;
    assert forall|i: int| 0 <= i < ne implies genv_vals_wf(#[trigger] st2.envs[i], ne, nc, ni) by {
        if i != env {
            assert(st2.envs[i] == st.envs[i]);
        } else {
            let e = st.envs[env];
            let e2 = st2.envs[env];
            assert forall|k: Seq<char>| #[trigger] e2.values.contains_key(k) implies gval_wf(
                e2.values[k],
                ne,
                nc,
                ni,
            ) by {
                if k != name {
                    assert(e.values.contains_key(k) && e2.values[k] == e.values[k]);
                }
            }
        }
    }
    assert(envs_wf(st2.envs));
}

pub proof fn lemma_wf_persist(st: GInterp, env: int)
    requires
        st_wf(st),
        0 <= env < st.envs.len(),
    ensures
        st_wf(g_persist(st, env).0),
        st_extends(st, g_persist(st, env).0),
        0 <= g_persist(st, env).1 < g_persist(st, env).0.envs.len(),
        g_persist(st, env).0.envs.len() <= st.envs.len() + 1,
        g_persist(st, env).0.classes == st.classes,
        g_persist(st, env).0.instances == st.instances,
        g_persist(st, env).0.output == st.output,
{
    let (st2, cap) = g_persist(st, env);
    if !st.envs[env].is_global {
        let ne = st.envs.len() as int;
        let ne2 = st2.envs.len() as int;
        let nc = st.classes.len() as int;
        let ni = st.instances.len() as int;
        assert forall|i: int| 0 <= i < ne2 implies genv_vals_wf(
            #[trigger] st2.envs[i],
            ne2,
            nc,
            ni,
        ) by {
            if i < ne {
                assert(st2.envs[i] == st.envs[i]);
                lemma_genv_vals_wf_mono(st.envs[i], ne, nc, ni, ne2, nc, ni);
            } else {
                assert(st2.envs[i] == st.envs[env]);
                lemma_genv_vals_wf_mono(st.envs[env], ne, nc, ni, ne2, nc, ni);
            }
        }
        assert forall|i: int| 0 <= i < ni implies ginst_wf(
            #[trigger] st2.instances[i],
            ne2,
            nc,
            ni,
        ) by {
            lemma_ginst_wf_mono(st.instances[i], ne, nc, ni, ne2, nc, ni);
        }
        assert(envs_wf(st2.envs));
    }
}

pub proof fn lemma_wf_push_class(st: GInterp, cls: GClass)
    requires
        st_wf(st),
        0 <= cls.class_environment < st.envs.len(),
        match cls.super_class {
            Option::Some(s) => 0 <= s < st.classes.len(),
            Option::None => true,
        },
    ensures
        ({
            let st2 = GInterp { classes: st.classes.push(cls), ..st };
            st_wf(st2) && st_extends(st, st2)
        }),
{
    let st2 = GInterp { classes: st.classes.push(cls), ..st };
    let ne = st.envs.len() as int;
    let nc = st.classes.len() as int;
    let nc2 = st2.classes.len() as int;
    let ni = st.instances.len() as int;
    assert forall|i: int| 0 <= i < ne implies genv_vals_wf(#[trigger] st2.envs[i], ne, nc2, ni) by {
        lemma_genv_vals_wf_mono(st.envs[i], ne, nc, ni, ne, nc2, ni);
    }
    assert forall|i: int| 0 <= i < ni implies ginst_wf(#[trigger] st2.instances[i], ne, nc2, ni) by {
        lemma_ginst_wf_mono(st.instances[i], ne, nc, ni, ne, nc2, ni);
    }
    assert(classes_wf(st2.classes, ne));
}

pub proof fn lemma_wf_push_instance(st: GInterp, c: int)
    requires
        st_wf(st),
        0 <= c < st.classes.len(),
    ensures
        ({
            let st2 = GInterp {
                instances: st.instances.push(crate::class::GInst { class: c, fields: Map::empty() }),
                ..st
            };
            st_wf(st2) && st_extends(st, st2)
        }),
{
    let st2 = GInterp {
        instances: st.instances.push(crate::class::GInst { class: c, fields: Map::empty() }),
        ..st
    };
    let ne = st.envs.len() as int;
    let nc = st.classes.len() as int;
    let ni = st.instances.len() as int;
    let ni2 = st2.instances.len() as int;
    assert forall|i: int| 0 <= i < ne implies genv_vals_wf(#[trigger] st2.envs[i], ne, nc, ni2) by {
        lemma_genv_vals_wf_mono(st.envs[i], ne, nc, ni, ne, nc, ni2);
    }
    assert forall|i: int| 0 <= i < ni2 implies ginst_wf(#[trigger] st2.instances[i], ne, nc, ni2) by {
        if i < ni {
            lemma_ginst_wf_mono(st.instances[i], ne, nc, ni, ne, nc, ni2);
        }
    }
}

pub proof fn lemma_wf_set_field(st: GInterp, i: int, name: Seq<char>, v: GVal)
    requires
        st_wf(st),
        0 <= i < st.instances.len(),
        gval_wf(v, st.envs.len() as int, st.classes.len() as int, st.instances.len() as int),
    ensures
        ({
            let inst = st.instances[i];
            let st2 = GInterp {
                instances: st.instances.update(
                    i,
                    crate::class::GInst { class: inst.class, fields: inst.fields.insert(name, v) },
                ),
                ..st
            };
            st_wf(st2) && st_extends(st, st2)
        }),
{
    let inst = st.instances[i];
    let st2 = GInterp {
        instances: st.instances.update(
            i,
            crate::class::GInst { class: inst.class, fields: inst.fields.insert(name, v) },
        ),
        ..st
    };
    let ne = st.envs.len() as int;
    let nc = st.classes.len() as int;
    let ni = st.instances.len() as int;
    assert forall|a: int| 0 <= a < ni implies ginst_wf(#[trigger] st2.instances[a], ne, nc, ni) by {
        if a != i {
            assert(st2.instances[a] == st.instances[a]);
        } else {
            let f2 = st2.instances[i].fields;
            assert forall|k: Seq<char>| #[trigger] f2.contains_key(k) implies gval_wf(
                f2[k],
                ne,
                nc,
                ni,
            ) by {
                if k != name {
                    assert(inst.fields.contains_key(k) && f2[k] == inst.fields[k]);
                }
            }
        }
    }
}

pub proof fn lemma_wf_assign(st: GInterp, env: int, name: Seq<char>, v: GVal)
    requires
        st_wf(st),
        0 <= env < st.envs.len(),
        gval_wf(v, st.envs.len() as int, st.classes.len() as int, st.instances.len() as int),
    ensures
        ({
            let (envs2, ok) = crate::environment::genv_assign(st.envs, env, name, v);
            let st2 = GInterp { envs: envs2, ..st };
            st_wf(st2) && st_extends(st, st2) && envs2.len() == st.envs.len()
        }),
    decreases env,
{
    let (envs2, ok) = crate::environment::genv_assign(st.envs, env, name, v);
    let e = st.envs[env];
    if e.values.contains_key(name) {
        lemma_wf_define(st, env, name, v);
        assert(envs2 =~= g_define(st, env, name, v).envs);
    } else {
        match e.enclosing {
            Option::Some(p) => {
                lemma_wf_assign(st, p, name, v);
            },
            Option::None => {
                assert(envs2 =~= st.envs);
            },
        }
    }
}

pub proof fn lemma_lookup_wf(st: GInterp, env: int, name: Seq<char>)
    requires
        st_wf(st),
        0 <= env < st.envs.len(),
    ensures
        match genv_lookup(st.envs, env, name) {
            Option::Some(v) => gval_wf(
                v,
                st.envs.len() as int,
                st.classes.len() as int,
                st.instances.len() as int,
            ),
            Option::None => true,
        },
    decreases env,
{
    let e = st.envs[env];
    if e.values.contains_key(name) {
    } else if e.functions.contains_key(name) {
    } else {
        match e.enclosing {
            Option::Some(p) => {
                lemma_lookup_wf(st, p, name);
            },
            Option::None => {},
        }
    }
}

pub proof fn lemma_get_field_super_wf(st: GInterp, inst: int, super_c: Option<int>, name: Seq<char>)
    requires
        st_wf(st),
        0 <= inst < st.instances.len(),
        match super_c {
            Option::Some(c) => 0 <= c < st.classes.len(),
            Option::None => true,
        },
    ensures
        match crate::class::spec_get_field_super(st.envs, st.classes, inst, super_c, name) {
            Option::Some(v) => gval_wf(
                v,
                st.envs.len() as int,
                st.classes.len() as int,
                st.instances.len() as int,
            ),
            Option::None => true,
        },
    decreases (match super_c {
        Option::Some(c) => c + 1,
        Option::None => 0,
    }),
{
    match super_c {
        Option::None => {},
        Option::Some(c) => {
            let env_i = st.classes[c].class_environment;
            lemma_lookup_wf(st, env_i, name);
            match genv_lookup(st.envs, env_i, name) {
                Option::Some(GVal::Func(f)) => {},
                _ => {
                    lemma_get_field_super_wf(st, inst, st.classes[c].super_class, name);
                },
            }
        },
    }
}

pub proof fn lemma_get_field_wf(st: GInterp, inst: int, cls: int, name: Seq<char>)
    requires
        st_wf(st),
        0 <= inst < st.instances.len(),
        0 <= cls < st.classes.len(),
    ensures
        match spec_get_field_for_class(st.envs, st.classes, st.instances, inst, cls, name) {
            Option::Some(v) => gval_wf(
                v,
                st.envs.len() as int,
                st.classes.len() as int,
                st.instances.len() as int,
            ),
            Option::None => true,
        },
{
    let fields = st.instances[inst].fields;
    if fields.contains_key(name) {
    } else {
        let env_i = st.classes[cls].class_environment;
        lemma_lookup_wf(st, env_i, name);
        match genv_lookup(st.envs, env_i, name) {
            Option::Some(GVal::Func(f)) => {},
            _ => {
                lemma_get_field_super_wf(
                    st,
                    inst,
                    st.classes[st.instances[inst].class].super_class,
                    name,
                );
            },
        }
    }
}


/// Binding parameters never touches the reading stream.
pub proof fn lemma_bind_params_readings(
    st: GInterp,
    env: int,
    params: Seq<GToken>,
    args: Seq<GVal>,
    k: int,
    t: Seq<Option<u64>>,
)
    requires
        0 <= k,
    ensures
        spec_bind_params(with_clock(st, t), env, params, args, k) == with_clock(
            spec_bind_params(st, env, params, args, k),
            t,
        ),
        spec_bind_params(st, env, params, args, k).clock == st.clock,
    decreases g_min(params.len() as int, args.len() as int) - k,
{
    if k < g_min(params.len() as int, args.len() as int) {
        assert(g_define(with_clock(st, t), env, params[k].lexeme, args[k]) =~~= with_clock(
            g_define(st, env, params[k].lexeme, args[k]),
            t,
        ));
        lemma_bind_params_readings(
            g_define(st, env, params[k].lexeme, args[k]),
            env,
            params,
            args,
            k + 1,
            t,
        );
    }
}

/// A run that completes with a value never looks past the readings it
/// consumes: appending further readings to the stream leaves the run
/// unchanged, with the new readings left over at its end.  (A run that
/// ends in an interruption may have drained the stream, after which
/// the appended readings would be served; such runs are not composed
/// any further, so nothing is claimed of them.)
#[verifier::rlimit(100)]
#[verifier::spinoff_prover]
pub proof fn lemma_more_readings_eval(
    st: GInterp,
    node: &Node,
    env: int,
    fuel: nat,
    extra: Seq<Option<u64>>,
)
    ensures
        ({
            let g = spec_eval(st, *node, env, fuel);
            (g.out is Val || g.out matches GOut::Itr(GInterruption::Return(_))) ==> spec_eval(
                with_clock(st, st.clock + extra),
                *node,
                env,
                fuel,
            )
                == GRes { st: with_clock(g.st, g.st.clock + extra), out: g.out }
        }),
    decreases fuel, 1int,
{
    if fuel != 0 {
        let f = (fuel - 1) as nat;
        let st2 = with_clock(st, st.clock + extra);
        match node {
            Node::GroupingExp(e) => {
                lemma_more_readings_eval(st, &e.inner, env, f, extra);
            },
            Node::UnaryExp(e) => {
                lemma_more_readings_eval(st, &e.right, env, f, extra);
            },
            Node::BinaryExp(e) => {
                lemma_more_readings_eval(st, &e.left, env, f, extra);
                let lr = spec_eval(st, *e.left, env, f);
                lemma_more_readings_eval(lr.st, &e.right, env, f, extra);
            },
            Node::LogicalExp(e) => {
                lemma_more_readings_eval(st, &e.left, env, f, extra);
                let lr = spec_eval(st, *e.left, env, f);
                lemma_more_readings_eval(lr.st, &e.right, env, f, extra);
            },
            Node::AssignmentExp(e) => {
                lemma_more_readings_eval(st, &e.value, env, f, extra);
            },
            Node::CallExp(e) => {
                lemma_more_readings_eval(st, &e.callee, env, f, extra);
                let cr = spec_eval(st, *e.callee, env, f);
                lemma_more_readings_args(cr.st, e.args@, env, f, extra);
                let ar = spec_eval_args(cr.st, e.args@, env, f);
                match (cr.out, ar.out) {
                    (GOut::Val(callee), GArgsOut::Vals(vals)) => {
                        lemma_more_readings_call(ar.st, callee, vals, f, extra);
                    },
                    _ => {},
                }
            },
            Node::GetExp(e) => {
                lemma_more_readings_eval(st, &e.callee, env, f, extra);
            },
            Node::SetExp(e) => {
                match &*e.get_exp {
                    Node::GetExp(g0) => {
                        lemma_more_readings_eval(st, &g0.callee, env, f, extra);
                        let cr = spec_eval(st, *g0.callee, env, f);
                        lemma_more_readings_eval(cr.st, &e.value, env, f, extra);
                    },
                    _ => {},
                }
            },
            Node::VarDecl(d) => {
                match &d.initializer {
                    Option::Some(init) => {
                        lemma_more_readings_eval(st, init, env, f, extra);
                    },
                    Option::None => {},
                }
            },
            Node::ClassDecl(d) => {
                lemma_more_readings_class_decl(st, d, env, f, extra);
            },
            Node::PrintStm(p) => {
                lemma_more_readings_eval(st, &p.expression, env, f, extra);
            },
            Node::BlockStm(b) => {
                lemma_more_readings_stmts(g_push_env(st, env), b.statements@, st.envs.len() as int, f, extra);
                assert(g_push_env(st2, env) == with_clock(
                    g_push_env(st, env),
                    g_push_env(st, env).clock + extra,
                ));
            },
            Node::FuncBodyStm(b) => {
                lemma_more_readings_stmts(g_push_env(st, env), b.statements@, st.envs.len() as int, f, extra);
                assert(g_push_env(st2, env) == with_clock(
                    g_push_env(st, env),
                    g_push_env(st, env).clock + extra,
                ));
            },
            Node::IfElseStm(sm) => {
                lemma_more_readings_eval(st, &sm.condition, env, f, extra);
                let cr = spec_eval(st, *sm.condition, env, f);
                lemma_more_readings_eval(cr.st, &sm.then_branch, env, f, extra);
                match &sm.else_branch {
                    Option::Some(els) => {
                        lemma_more_readings_eval(cr.st, els, env, f, extra);
                    },
                    Option::None => {},
                }
            },
            Node::WhileStm(sm) => {
                lemma_more_readings_while(st, &sm.condition, &sm.body, env, fuel, extra);
            },
            Node::ExpressionStm(sm) => {
                lemma_more_readings_eval(st, &sm.expression, env, f, extra);
            },
            Node::ReturnStm(sm) => {
                lemma_more_readings_eval(st, &sm.expression, env, f, extra);
            },
            _ => {},
        }
    }
}

#[verifier::rlimit(100)]
#[verifier::spinoff_prover]
pub proof fn lemma_more_readings_class_decl(
    st: GInterp,
    d: &crate::grammar::ClassDecl,
    env: int,
    f: nat,
    extra: Seq<Option<u64>>,
)
    ensures
        ({
            let g = spec_class_decl(st, *d, env, f);
            (g.out is Val || g.out matches GOut::Itr(GInterruption::Return(_)))
                ==> spec_class_decl(with_clock(st, st.clock + extra), *d, env, f)
                == GRes { st: with_clock(g.st, g.st.clock + extra), out: g.out }
        }),
    decreases f, 1int,
{
    let st2 = with_clock(st, st.clock + extra);
    let st_a = g_push_env(st, env);
    let (st_b, class_env) = g_persist(st_a, st.envs.len() as int);
    let super_r = match &d.super_class {
        Option::Some(sc) => spec_super_lookup(st_b, sc.name@.lexeme, env),
        Option::None => GOut::Val(GVal::Nil),
    };
    match super_r {
        GOut::Val(sv) => {
            let superc = match sv {
                GVal::Class(c) => Option::Some(c),
                _ => Option::<int>::None,
            };
            let cls = crate::class::GClass {
                name: d.name@.lexeme,
                super_class: superc,
                class_environment: class_env,
            };
            let c_idx = st_b.classes.len() as int;
            let st_c = GInterp { classes: st_b.classes.push(cls), ..st_b };
            let st_d = g_define(st_c, class_env, "class"@, GVal::Class(c_idx));
            let st_e = g_define(st_d, env, d.name@.lexeme, GVal::Class(c_idx));
            lemma_more_readings_methods(st_e, d.methods@, class_env, f, extra);
            assert(with_clock(st_e, st_e.clock + extra) =~~= g_define(
                g_define(
                    GInterp {
                        classes: g_persist(g_push_env(st2, env), st2.envs.len() as int).0.classes.push(cls),
                        ..g_persist(g_push_env(st2, env), st2.envs.len() as int).0
                    },
                    class_env,
                    "class"@,
                    GVal::Class(c_idx),
                ),
                env,
                d.name@.lexeme,
                GVal::Class(c_idx),
            ));
        },
        _ => {},
    }
}

#[verifier::rlimit(100)]
#[verifier::spinoff_prover]
pub proof fn lemma_more_readings_methods(
    st: GInterp,
    methods: Seq<Node>,
    class_env: int,
    fuel: nat,
    extra: Seq<Option<u64>>,
)
    ensures
        ({
            let g = spec_eval_methods(st, methods, class_env, fuel);
            (g.out is Val || g.out matches GOut::Itr(GInterruption::Return(_)))
                ==> spec_eval_methods(with_clock(st, st.clock + extra), methods, class_env, fuel)
                == GRes { st: with_clock(g.st, g.st.clock + extra), out: g.out }
        }),
    decreases fuel, 0int,
{
    if fuel != 0 && methods.len() != 0 {
        match methods[0] {
            Node::ClassMethodDecl(_) => {
                let head = methods[0];
                lemma_more_readings_eval(st, &head, class_env, (fuel - 1) as nat, extra);
                let r = spec_eval(st, methods[0], class_env, (fuel - 1) as nat);
                lemma_more_readings_methods(r.st, methods.drop_first(), class_env, (fuel - 1) as nat, extra);
            },
            _ => {},
        }
    }
}

#[verifier::rlimit(100)]
#[verifier::spinoff_prover]
pub proof fn lemma_more_readings_stmts(
    st: GInterp,
    stmts: Seq<Node>,
    env: int,
    fuel: nat,
    extra: Seq<Option<u64>>,
)
    ensures
        ({
            let g = spec_eval_stmts(st, stmts, env, fuel);
            (g.out is Val || g.out matches GOut::Itr(GInterruption::Return(_)))
                ==> spec_eval_stmts(with_clock(st, st.clock + extra), stmts, env, fuel)
                == GRes { st: with_clock(g.st, g.st.clock + extra), out: g.out }
        }),
    decreases fuel, 0int,
{
    if fuel != 0 && stmts.len() != 0 {
        let head = stmts[0];
        lemma_more_readings_eval(st, &head, env, (fuel - 1) as nat, extra);
        let r = spec_eval(st, stmts[0], env, (fuel - 1) as nat);
        lemma_more_readings_stmts(r.st, stmts.drop_first(), env, (fuel - 1) as nat, extra);
    }
}

#[verifier::rlimit(100)]
#[verifier::spinoff_prover]
pub proof fn lemma_more_readings_args(
    st: GInterp,
    args: Seq<Node>,
    env: int,
    fuel: nat,
    extra: Seq<Option<u64>>,
)
    ensures
        ({
            let g = spec_eval_args(st, args, env, fuel);
            (g.out is Vals || g.out matches GArgsOut::Itr(GInterruption::Return(_)))
                ==> spec_eval_args(with_clock(st, st.clock + extra), args, env, fuel)
                == GArgs { st: with_clock(g.st, g.st.clock + extra), out: g.out }
        }),
    decreases fuel, 0int,
{
    if fuel != 0 && args.len() != 0 {
        let head = args[0];
        lemma_more_readings_eval(st, &head, env, (fuel - 1) as nat, extra);
        let r = spec_eval(st, args[0], env, (fuel - 1) as nat);
        lemma_more_readings_args(r.st, args.drop_first(), env, (fuel - 1) as nat, extra);
    }
}

#[verifier::rlimit(100)]
#[verifier::spinoff_prover]
pub proof fn lemma_more_readings_while(
    st: GInterp,
    cond: &Node,
    body: &Node,
    env: int,
    fuel: nat,
    extra: Seq<Option<u64>>,
)
    ensures
        ({
            let g = spec_eval_while(st, *cond, *body, env, fuel);
            (g.out is Val || g.out matches GOut::Itr(GInterruption::Return(_)))
                ==> spec_eval_while(
                with_clock(st, st.clock + extra),
                *cond,
                *body,
                env,
                fuel,
            ) == GRes { st: with_clock(g.st, g.st.clock + extra), out: g.out }
        }),
    decreases fuel, 0int,
{
    if fuel != 0 {
        let f = (fuel - 1) as nat;
        lemma_more_readings_eval(st, cond, env, f, extra);
        let cr = spec_eval(st, *cond, env, f);
        lemma_more_readings_eval(cr.st, body, env, f, extra);
        match cr.out {
            GOut::Val(c) => {
                if g_truthy(c) {
                    let br = spec_eval(cr.st, *body, env, f);
                    lemma_more_readings_while(br.st, cond, body, env, f, extra);
                }
            },
            _ => {},
        }
    }
}

#[verifier::rlimit(100)]
#[verifier::spinoff_prover]
pub proof fn lemma_more_readings_call(
    st: GInterp,
    callee: GVal,
    args: Seq<GVal>,
    fuel: nat,
    extra: Seq<Option<u64>>,
)
    ensures
        ({
            let g = spec_call(st, callee, args, fuel);
            (g.out is Val || g.out matches GOut::Itr(GInterruption::Return(_))) ==> spec_call(
                with_clock(st, st.clock + extra),
                callee,
                args,
                fuel,
            )
                == GRes { st: with_clock(g.st, g.st.clock + extra), out: g.out }
        }),
    decreases fuel, 0int,
{
    if fuel != 0 {
        let f = (fuel - 1) as nat;
        let st2 = with_clock(st, st.clock + extra);
        match callee {
            GVal::Func(func) => {
                if gfunction_arity(func) == args.len() as int {
                    match func {
                        GFunction::Custom(c) => {
                            lemma_more_readings_cwe(st, c, c.captured_environment, args, f, extra);
                        },
                        GFunction::Native { .. } => {
                            let g = spec_native_clock(st);
                            if g.out is Val {
                                assert(st.clock.len() > 0);
                                assert((st.clock + extra)[0] == st.clock[0]);
                                assert((st.clock + extra).drop_first() =~= st.clock.drop_first()
                                    + extra);
                                assert(spec_native_clock(st2) =~~= GRes {
                                    st: with_clock(g.st, g.st.clock + extra),
                                    out: g.out,
                                });
                            }
                        },
                    }
                }
            },
            GVal::Method(m) => {
                if gfunction_arity(m.func) == args.len() as int {
                    lemma_more_readings_ccm(st, m, args, f, extra);
                }
            },
            GVal::Class(c) => {
                let i_idx = st.instances.len() as int;
                let stp = GInterp {
                    instances: st.instances.push(
                        crate::class::GInst { class: c, fields: Map::empty() },
                    ),
                    ..st
                };
                assert(GInterp {
                    instances: st2.instances.push(
                        crate::class::GInst { class: c, fields: Map::empty() },
                    ),
                    ..st2
                } =~~= with_clock(stp, stp.clock + extra));
                match spec_get_field_for_class(stp.envs, stp.classes, stp.instances, i_idx, c, "init"@) {
                    Option::Some(GVal::Method(init)) => {
                        if gfunction_arity(init.func) == args.len() as int {
                            lemma_more_readings_ccm(stp, init, args, f, extra);
                        }
                    },
                    _ => {},
                }
            },
            _ => {},
        }
    }
}

#[verifier::rlimit(100)]
#[verifier::spinoff_prover]
pub proof fn lemma_more_readings_cwe(
    st: GInterp,
    c: GCustomFunction,
    environment: int,
    args: Seq<GVal>,
    fuel: nat,
    extra: Seq<Option<u64>>,
)
    ensures
        ({
            let g = spec_call_with_environment(st, c, environment, args, fuel);
            (g.out is Val || g.out matches GOut::Itr(GInterruption::Return(_)))
                ==> spec_call_with_environment(
                with_clock(st, st.clock + extra),
                c,
                environment,
                args,
                fuel,
            ) == GRes { st: with_clock(g.st, g.st.clock + extra), out: g.out }
        }),
    decreases fuel, 0int,
{
    if fuel != 0 {
        let f = (fuel - 1) as nat;
        let st2 = with_clock(st, st.clock + extra);
        let env2 = st.envs.len() as int;
        let stp = g_push_env(st, environment);
        lemma_bind_params_readings(stp, env2, c.parameters, args, 0, stp.clock + extra);
        let st3 = spec_bind_params(stp, env2, c.parameters, args, 0);
        assert(g_push_env(st2, environment) =~~= with_clock(stp, stp.clock + extra));
        lemma_more_readings_eval(st3, &c.body, env2, f, extra);
        assert(spec_bind_params(with_clock(stp, stp.clock + extra), env2, c.parameters, args, 0)
            == with_clock(st3, stp.clock + extra));
        assert(st3.clock == stp.clock);
    }
}

#[verifier::rlimit(100)]
#[verifier::spinoff_prover]
pub proof fn lemma_more_readings_ccm(
    st: GInterp,
    m: GMethod,
    args: Seq<GVal>,
    fuel: nat,
    extra: Seq<Option<u64>>,
)
    ensures
        ({
            let g = spec_call_class_method(st, m, args, fuel);
            (g.out is Val || g.out matches GOut::Itr(GInterruption::Return(_)))
                ==> spec_call_class_method(with_clock(st, st.clock + extra), m, args, fuel)
                == GRes { st: with_clock(g.st, g.st.clock + extra), out: g.out }
        }),
    decreases fuel, 0int,
{
    if fuel != 0 {
        let f = (fuel - 1) as nat;
        let st2 = with_clock(st, st.clock + extra);
        match m.func {
            GFunction::Custom(c) => {
                let env2 = st.envs.len() as int;
                let st3 = g_define(
                    g_push_env(st, m.method_environment),
                    env2,
                    "this"@,
                    GVal::Instance(m.class_instance),
                );
                lemma_more_readings_cwe(st3, c, env2, args, f, extra);
                assert(g_define(
                    g_push_env(st2, m.method_environment),
                    env2,
                    "this"@,
                    GVal::Instance(m.class_instance),
                ) =~~= with_clock(st3, st3.clock + extra));
                assert(st3.clock == st.clock);
            },
            GFunction::Native { .. } => {},
        }
    }
}

/// The statement sequencing of a whole run, under the same appending.
#[verifier::rlimit(100)]
#[verifier::spinoff_prover]
pub proof fn lemma_more_readings_run(
    st: GInterp,
    stmts: Seq<Node>,
    env: int,
    fuel: nat,
    extra: Seq<Option<u64>>,
)
    ensures
        ({
            let g = spec_run_stmts(st, stmts, env, fuel);
            (g.out is Val || g.out matches GOut::Itr(GInterruption::Return(_)))
                ==> spec_run_stmts(with_clock(st, st.clock + extra), stmts, env, fuel)
                == GRes { st: with_clock(g.st, g.st.clock + extra), out: g.out }
        }),
    decreases stmts.len(),
{
    if stmts.len() != 0 {
        let head = stmts[0];
        lemma_more_readings_eval(st, &head, env, fuel, extra);
        let r = spec_eval(st, stmts[0], env, fuel);
        lemma_more_readings_run(r.st, stmts.drop_first(), env, fuel, extra);
    }
}



/// Replacing the reading stream commutes with pushing a scope.
pub proof fn lemma_with_clock_push_env(st: GInterp, e: int, t: Seq<Option<u64>>)
    ensures
        g_push_env(with_clock(st, t), e) == with_clock(g_push_env(st, e), t),
{
    assert(g_push_env(with_clock(st, t), e) =~~= with_clock(g_push_env(st, e), t));
}

/// Replacing the reading stream commutes with binding a name.
pub proof fn lemma_with_clock_define(st: GInterp, env: int, name: Seq<char>, v: GVal, t: Seq<Option<u64>>)
    ensures
        g_define(with_clock(st, t), env, name, v) == with_clock(g_define(st, env, name, v), t),
{
    assert(g_define(with_clock(st, t), env, name, v) =~~= with_clock(
        g_define(st, env, name, v),
        t,
    ));
}

/// Replacing the reading stream commutes with capturing a scope.
pub proof fn lemma_with_clock_persist(st: GInterp, e: int, t: Seq<Option<u64>>)
    ensures
        g_persist(with_clock(st, t), e).0 == with_clock(g_persist(st, e).0, t),
        g_persist(with_clock(st, t), e).1 == g_persist(st, e).1,
{
    if st.envs[e].is_global {
        assert(g_persist(with_clock(st, t), e).0 =~~= with_clock(g_persist(st, e).0, t));
    } else {
        assert(g_persist(with_clock(st, t), e).0 =~~= with_clock(g_persist(st, e).0, t));
    }
}

/// Sequencing helper: a sub-evaluation proved against exactly the
/// readings it consumed also runs under a longer stream, leaving the
/// rest for whatever follows.
pub proof fn lemma_seq_readings_eval(
    st: GInterp,
    node: &Node,
    env: int,
    fuel: nat,
    t1: Seq<Option<u64>>,
    t2: Seq<Option<u64>>,
    mid: GInterp,
)
    requires
        mid.clock == Seq::<Option<u64>>::empty(),
        spec_eval(with_clock(st, t1), *node, env, fuel).st == mid,
        (spec_eval(with_clock(st, t1), *node, env, fuel).out is Val),
    ensures
        spec_eval(with_clock(st, t1 + t2), *node, env, fuel) == (GRes {
            st: with_clock(mid, t2),
            out: spec_eval(with_clock(st, t1), *node, env, fuel).out,
        }),
{
    lemma_more_readings_eval(with_clock(st, t1), node, env, fuel, t2);
    assert(with_clock(with_clock(st, t1), with_clock(st, t1).clock + t2) =~~= with_clock(
        st,
        t1 + t2,
    ));
    assert(Seq::<Option<u64>>::empty() + t2 =~= t2);
    assert(with_clock(
        spec_eval(with_clock(st, t1), *node, env, fuel).st,
        spec_eval(with_clock(st, t1), *node, env, fuel).st.clock + t2,
    ) =~~= with_clock(mid, t2));
}

/// The same sequencing helper for an argument list.
pub proof fn lemma_seq_readings_args(
    st: GInterp,
    args: Seq<Node>,
    env: int,
    fuel: nat,
    t1: Seq<Option<u64>>,
    t2: Seq<Option<u64>>,
    mid: GInterp,
)
    requires
        mid.clock == Seq::<Option<u64>>::empty(),
        spec_eval_args(with_clock(st, t1), args, env, fuel).st == mid,
        (spec_eval_args(with_clock(st, t1), args, env, fuel).out is Vals),
    ensures
        spec_eval_args(with_clock(st, t1 + t2), args, env, fuel) == (GArgs {
            st: with_clock(mid, t2),
            out: spec_eval_args(with_clock(st, t1), args, env, fuel).out,
        }),
{
    lemma_more_readings_args(with_clock(st, t1), args, env, fuel, t2);
    assert(with_clock(with_clock(st, t1), with_clock(st, t1).clock + t2) =~~= with_clock(
        st,
        t1 + t2,
    ));
    assert(Seq::<Option<u64>>::empty() + t2 =~= t2);
    assert(with_clock(
        spec_eval_args(with_clock(st, t1), args, env, fuel).st,
        spec_eval_args(with_clock(st, t1), args, env, fuel).st.clock + t2,
    ) =~~= with_clock(mid, t2));
}

/// A whole program: each top-level statement in the global scope, in
/// order, stopping at the first interruption.
pub open spec fn spec_run_stmts(st: GInterp, stmts: Seq<Node>, env: int, fuel: nat) -> GRes
    decreases stmts.len(),
{
    if stmts.len() == 0 {
        GRes { st, out: GOut::Val(GVal::Empty) }
    } else {
        let r = spec_eval(st, stmts[0], env, fuel);
        match r.out {
            GOut::Val(_) => spec_run_stmts(r.st, stmts.drop_first(), env, fuel),
            _ => r,
        }
    }
}

} // verus!
