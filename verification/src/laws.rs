//! The laws the evaluator obeys, stated over its semantics and proved
//! once and for all.  Each is a consequence of the definitions in
//! `semantics`; stating them here makes them part of what the library
//! promises.
use crate::class::spec_get_field_for_class;
use crate::environment::genv_lookup;
use crate::evaluation::{g_truthy, GMethod, GVal};
use crate::function::{gfunction_arity, GFunction};
use crate::grammar::Node;
use crate::interpreter::RUN_FUEL;
use crate::interruption::RuntimeErrorKind;
use crate::scanner::GTokenType;
use crate::semantics::{
    g_define, g_push_env, g_persist, gdisplay, gerr, spec_call, spec_call_class_method,
    spec_call_with_environment, spec_eval, spec_literal, spec_run_stmts, spec_super_exp, GInterp,
    GOut, GRes,
};
use vstd::prelude::*;

verus! {

/// Whether a token kind is a self-contained literal value: a number, a
/// string, `true`, `false` or `nil`.
pub open spec fn literal_is_value(k: GTokenType) -> bool {
    match k {
        GTokenType::NUMBER(_) => true,
        GTokenType::STRING(_) => true,
        GTokenType::TRUE => true,
        GTokenType::FALSE => true,
        GTokenType::NIL => true,
        _ => false,
    }
}

/// The value such a literal denotes.
pub open spec fn literal_value(k: GTokenType) -> GVal {
    match k {
        GTokenType::NUMBER(n) => GVal::Num(n),
        GTokenType::STRING(s) => GVal::Str(s),
        GTokenType::TRUE => GVal::Bool(true),
        GTokenType::FALSE => GVal::Bool(false),
        _ => GVal::Nil,
    }
}

/// Print idempotence: a program consisting of `print V;` for a literal
/// `V` writes exactly the display form of `V` followed by one newline,
/// changes nothing else, and finishes normally.
pub proof fn lemma_print_literal_output(st: GInterp, stmts: Seq<Node>, env: int)
    requires
        stmts.len() == 1,
        stmts[0] matches Node::PrintStm(p) && (*p.expression) matches Node::LiteralExp(l)
            && literal_is_value(l.name@.kind),
    ensures
        spec_run_stmts(st, stmts, env, RUN_FUEL as nat).out is Val,
        stmts[0] matches Node::PrintStm(p) && (*p.expression) matches Node::LiteralExp(l)
            && spec_run_stmts(st, stmts, env, RUN_FUEL as nat).st == (GInterp {
            output: st.output + gdisplay(st, literal_value(l.name@.kind)) + "\n"@,
            ..st
        }),
{
    let p = stmts[0]->PrintStm_0;
    let l = (*p.expression)->LiteralExp_0;
    let f0 = RUN_FUEL as nat;
    let f1 = (f0 - 1) as nat;
    let lit = spec_eval(st, *p.expression, env, f1);
    assert(spec_literal(st, l.name@, env) == GOut::Val(literal_value(l.name@.kind)));
    assert(lit == GRes { st, out: GOut::Val(literal_value(l.name@.kind)) });
    let e1 = spec_eval(st, stmts[0], env, f0);
    assert(e1.st == (GInterp {
        output: st.output + gdisplay(st, literal_value(l.name@.kind)) + "\n"@,
        ..st
    }));
    assert(e1.out == GOut::Val(GVal::Empty));
    assert(stmts.drop_first().len() == 0);
    let g = spec_run_stmts(st, stmts, env, f0);
    assert(g == spec_run_stmts(e1.st, stmts.drop_first(), env, f0));
    assert(g == GRes { st: e1.st, out: GOut::Val(GVal::Empty) });
}

/// Inheritance resolution order, first half: when the starting class's
/// own environment resolves the name to a function, lookup yields that
/// function bound to that very class environment — the most derived
/// match wins over every ancestor.
pub proof fn lemma_method_lookup_prefers_derived(
    envs: Seq<crate::environment::GEnv>,
    classes: Seq<crate::class::GClass>,
    instances: Seq<crate::class::GInst>,
    inst: int,
    cls: int,
    name: Seq<char>,
)
    requires
        0 <= inst < instances.len(),
        0 <= cls < classes.len(),
        !instances[inst].fields.contains_key(name),
        genv_lookup(envs, classes[cls].class_environment, name) matches Option::Some(
            GVal::Func(_),
        ),
    ensures
        ({
            let env_i = classes[cls].class_environment;
            match genv_lookup(envs, env_i, name) {
                Option::Some(GVal::Func(f)) => spec_get_field_for_class(
                    envs,
                    classes,
                    instances,
                    inst,
                    cls,
                    name,
                ) == Option::Some(
                    GVal::Method(
                        GMethod { func: f, class_instance: inst, method_environment: env_i },
                    ),
                ),
                _ => false,
            }
        }),
{
}

/// Inheritance resolution order, second half: `super.m` looks `m` up
/// starting at the superclass of the class that declared the running
/// method — the class bound as `"class"` — never at the receiver's own
/// class, whatever the receiver's dynamic class is.
pub proof fn lemma_super_starts_at_declaring_superclass(
    st: GInterp,
    method: Seq<char>,
    env: int,
)
    requires
        genv_lookup(st.envs, env, "class"@) matches Option::Some(GVal::Class(c)) && 0 <= c
            < st.classes.len() && st.classes[c].super_class is Some,
        genv_lookup(st.envs, env, "this"@) matches Option::Some(GVal::Instance(_)),
    ensures
        ({
            match (genv_lookup(st.envs, env, "class"@), genv_lookup(st.envs, env, "this"@)) {
                (
                    Option::Some(GVal::Class(c)),
                    Option::Some(GVal::Instance(i)),
                ) => match st.classes[c].super_class {
                    Option::Some(sc) => spec_super_exp(st, method, env) == (
                    match spec_get_field_for_class(
                        st.envs,
                        st.classes,
                        st.instances,
                        i,
                        sc,
                        method,
                    ) {
                        Option::Some(v) => GOut::Val(v),
                        Option::None => gerr(RuntimeErrorKind::UndefinedProperty, method),
                    }),
                    Option::None => false,
                },
                _ => false,
            }
        }),
{
}

/// Constructor return value: a constructor whose body finishes with
/// `nil` — a bare `return;` included — still hands the receiver back.
pub proof fn lemma_constructor_returns_instance(
    st: GInterp,
    m: GMethod,
    args: Seq<GVal>,
    fuel: nat,
)
    requires
        fuel >= 1,
        m.func matches GFunction::Custom(c) && c.name == "init"@,
        ({
            let c = m.func->Custom_0;
            let env2 = st.envs.len() as int;
            let st3 = g_define(
                g_push_env(st, m.method_environment),
                env2,
                "this"@,
                GVal::Instance(m.class_instance),
            );
            spec_call_with_environment(st3, c, env2, args, (fuel - 1) as nat).out matches
                GOut::Val(GVal::Nil)
        }),
    ensures
        spec_call_class_method(st, m, args, fuel).out == GOut::Val(
            GVal::Instance(m.class_instance),
        ),
{
}

/// Method `this`: a bound method runs against a fresh scope under the
/// environment the method was found in, in which `this` is the
/// receiving instance; the call is then the plain call of the function
/// in that scope.
pub proof fn lemma_method_call_binds_this(st: GInterp, m: GMethod, args: Seq<GVal>, fuel: nat)
    requires
        fuel >= 1,
        m.func is Custom,
        (m.func->Custom_0.name) != "init"@,
    ensures
        ({
            let c = m.func->Custom_0;
            let env2 = st.envs.len() as int;
            let st3 = g_define(
                g_push_env(st, m.method_environment),
                env2,
                "this"@,
                GVal::Instance(m.class_instance),
            );
            &&& st3.envs[env2].values.contains_key("this"@)
            &&& st3.envs[env2].values["this"@] == GVal::Instance(m.class_instance)
            &&& st3.envs[env2].enclosing == Option::Some(m.method_environment)
            &&& spec_call_class_method(st, m, args, fuel) == spec_call_with_environment(
                st3,
                c,
                env2,
                args,
                (fuel - 1) as nat,
            )
        }),
{
}

/// Arity enforcement: a function or bound method called with the wrong
/// number of arguments is a runtime error, and nothing changes.
pub proof fn lemma_arity_mismatch(st: GInterp, callee: GVal, args: Seq<GVal>, fuel: nat)
    requires
        fuel >= 1,
        (callee matches GVal::Func(f) && gfunction_arity(f) != args.len() as int) || (
        callee matches GVal::Method(m) && gfunction_arity(m.func) != args.len() as int),
    ensures
        spec_call(st, callee, args, fuel) == (GRes {
            st,
            out: gerr(RuntimeErrorKind::ArityMismatch, Seq::<char>::empty()),
        }),
{
}

/// Truthiness: only `false` and `nil` are falsey; every number — zero
/// included — every string, function, class, method and instance is
/// truthy.
pub proof fn lemma_truthiness(v: GVal)
    ensures
        g_truthy(v) <==> !(v == GVal::Bool(false) || v == GVal::Nil),
{
}

/// Short-circuit value: once the left operand is evaluated, `or` keeps
/// it when truthy and otherwise yields exactly what the right operand
/// evaluates to, uncoerced; `and` keeps a falsey left operand and
/// otherwise yields the right operand's result.
pub proof fn lemma_short_circuit(st: GInterp, node: Node, env: int, fuel: nat)
    requires
        fuel >= 1,
        node is LogicalExp,
    ensures
        ({
            let e = node->LogicalExp_0;
            let lr = spec_eval(st, *e.left, env, (fuel - 1) as nat);
            match lr.out {
                GOut::Val(lv) => {
                    &&& (e.operator@.kind is OR ==> spec_eval(st, node, env, fuel) == (
                    if g_truthy(lv) {
                        GRes { st: lr.st, out: GOut::Val(lv) }
                    } else {
                        spec_eval(lr.st, *e.right, env, (fuel - 1) as nat)
                    }))
                    &&& (e.operator@.kind is AND ==> spec_eval(st, node, env, fuel) == (
                    if !g_truthy(lv) {
                        GRes { st: lr.st, out: GOut::Val(lv) }
                    } else {
                        spec_eval(lr.st, *e.right, env, (fuel - 1) as nat)
                    }))
                },
                _ => true,
            }
        }),
{
}

/// Closure capture: at declaration the global scope is shared, any
/// other scope is copied as it stands; a binding made in the declaring
/// scope after the capture never reaches the copy.
pub proof fn lemma_capture_snapshot(st: GInterp, env: int)
    requires
        0 <= env < st.envs.len(),
    ensures
        st.envs[env].is_global ==> g_persist(st, env) == (st, env),
        !st.envs[env].is_global ==> ({
            let (st2, cap) = g_persist(st, env);
            &&& cap == st.envs.len() as int
            &&& st2.envs[cap] == st.envs[env]
            &&& forall|name: Seq<char>, v: GVal|
                (#[trigger] g_define(st2, env, name, v)).envs[cap] == st.envs[env]
        }),
{
}

} // verus!
