//! The evaluator: a recursive walk over the syntax tree, proved to
//! compute exactly what `spec_eval` says.
//!
//! The interpreter owns the arenas behind every environment, class and
//! instance handle, and the output printed so far.  The native `clock`
//! reads the wall time afresh at each call; every evaluation hands back,
//! as ghost data, the readings it consumed, and is proved equal to
//! `spec_eval` run on exactly that stream.  Each call carries a step
//! budget; the runner starts every statement with the largest budget
//! there is, which no terminating program exhausts.
use crate::class::{gclasses_of, ginsts_of, Class, ClassInstance};
use crate::environment::{genvs_of, Environment};
use crate::evaluation::{ClassMethod, Evaluation, GVal};
use crate::function::{rc_clone_function, CustomFunction, Function};
use crate::grammar::{rc_clone_node, Node};
use crate::interruption::{GInterruption, Interruption, RuntimeError, RuntimeErrorKind};
use crate::numerics::{number_add, number_div, number_eq, number_from_u64, number_ge, number_gt, number_le, number_lt, number_mul, number_sub};
use crate::render::render_number;
use crate::scanner::{Token, TokenType};
use crate::semantics::{
    g_define, g_push_env, gdisplay, gval_wf, spec_bind_params, spec_binary, spec_call,
    spec_call_class_method, spec_call_with_environment, spec_eval, spec_eval_args,
    spec_eval_methods, spec_eval_stmts, spec_eval_while, spec_native_clock, spec_run_stmts,
    spec_unary, st_extends, st_wf, with_clock, GArgsOut, GInterp, GOut, GRes,
};
use crate::semantics::{
    lemma_get_field_wf, lemma_gval_wf_mono, lemma_lookup_wf, lemma_seq_readings_args,
    lemma_seq_readings_eval, lemma_wf_assign, lemma_wf_define, lemma_wf_persist,
    lemma_wf_push_class, lemma_wf_push_env, lemma_wf_push_instance, lemma_wf_set_field,
};
use std::rc::Rc;
use vstd::prelude::*;

verus! {

/// How an executable outcome realises a specified one: a value, an
/// interruption, or the step budget running out.
pub open spec fn out_matches(r: Result<Evaluation, Interruption>, out: GOut) -> bool {
    match out {
        GOut::Val(v) => r matches Result::Ok(e) && e@ == v,
        GOut::Itr(itr) => r matches Result::Err(i) && i@ == itr,
        GOut::Stop => r matches Result::Err(Interruption::Error(e)) && e@.kind
            == RuntimeErrorKind::StepLimit && e@.detail == Seq::<char>::empty(),
    }
}

/// A produced or returned value holds only handles into the arenas.
pub open spec fn res_wf(r: Result<Evaluation, Interruption>, st: GInterp) -> bool {
    match r {
        Result::Ok(e) => gval_wf(
            e@,
            st.envs.len() as int,
            st.classes.len() as int,
            st.instances.len() as int,
        ),
        Result::Err(Interruption::Return(v)) => gval_wf(
            v@,
            st.envs.len() as int,
            st.classes.len() as int,
            st.instances.len() as int,
        ),
        Result::Err(Interruption::Error(_)) => true,
    }
}

pub open spec fn vals_wf(vs: Seq<GVal>, st: GInterp) -> bool {
    forall|i: int|
        0 <= i < vs.len() ==> gval_wf(
            #[trigger] vs[i],
            st.envs.len() as int,
            st.classes.len() as int,
            st.instances.len() as int,
        )
}

fn step_limit() -> (r: Interruption)
    ensures
        r@ == GInterruption::Error(
            crate::interruption::GErr {
                kind: RuntimeErrorKind::StepLimit,
                detail: Seq::<char>::empty(),
            },
        ),
{
    Interruption::Error(RuntimeError { kind: RuntimeErrorKind::StepLimit, detail: String::new() })
}

fn rt_err(kind: RuntimeErrorKind, detail: String) -> (r: Interruption)
    ensures
        r@ == GInterruption::Error(crate::interruption::GErr { kind, detail: detail@ }),
{
    Interruption::Error(RuntimeError { kind, detail })
}

/// What a unary operator yields, as `spec_unary` says.
fn unary_result(operator: &Token, v: Evaluation) -> (res: Result<Evaluation, Interruption>)
    ensures
        out_matches(res, spec_unary(operator@, v@)),
        res matches Result::Ok(e) ==> (e@ is Bool || e@ is Num),
{
    match &operator.token_type {
        TokenType::BANG => match v {
            Evaluation::Boolean(b) => Result::Ok(Evaluation::Boolean(!b)),
            Evaluation::Nil => Result::Ok(Evaluation::Boolean(true)),
            Evaluation::Number(_) => Result::Ok(Evaluation::Boolean(false)),
            _ => Result::Err(
                rt_err(RuntimeErrorKind::UnsupportedUnary, operator.lexeme.clone()),
            ),
        },
        TokenType::MINUS => match v {
            Evaluation::Number(n) => Result::Ok(
                Evaluation::Number(number_mul(crate::numerics::MINUS_ONE_BITS, n)),
            ),
            _ => Result::Err(
                rt_err(RuntimeErrorKind::UnsupportedUnary, operator.lexeme.clone()),
            ),
        },
        _ => Result::Err(
            rt_err(RuntimeErrorKind::UnsupportedOperator, operator.lexeme.clone()),
        ),
    }
}

/// What a binary operator yields, as `spec_binary` says.
fn binary_result(operator: &Token, l: Evaluation, r: Evaluation) -> (res: Result<
    Evaluation,
    Interruption,
>)
    ensures
        out_matches(res, spec_binary(operator@, l@, r@)),
        res matches Result::Ok(e) ==> (e@ is Bool || e@ is Num || e@ is Str),
{
    match &operator.token_type {
        TokenType::PLUS => match (l, r) {
            (Evaluation::Number(a), Evaluation::Number(b)) => Result::Ok(
                Evaluation::Number(number_add(a, b)),
            ),
            (Evaluation::Str(a), Evaluation::Str(b)) => {
                let mut s = a;
                s.append(b.as_str());
                Result::Ok(Evaluation::Str(s))
            },
            _ => Result::Err(
                rt_err(RuntimeErrorKind::UnsupportedBinary, operator.lexeme.clone()),
            ),
        },
        TokenType::MINUS => match (l, r) {
            (Evaluation::Number(a), Evaluation::Number(b)) => Result::Ok(
                Evaluation::Number(number_sub(a, b)),
            ),
            _ => Result::Err(
                rt_err(RuntimeErrorKind::UnsupportedBinary, operator.lexeme.clone()),
            ),
        },
        TokenType::STAR => match (l, r) {
            (Evaluation::Number(a), Evaluation::Number(b)) => Result::Ok(
                Evaluation::Number(number_mul(a, b)),
            ),
            _ => Result::Err(
                rt_err(RuntimeErrorKind::UnsupportedBinary, operator.lexeme.clone()),
            ),
        },
        TokenType::SLASH => match (l, r) {
            (Evaluation::Number(a), Evaluation::Number(b)) => Result::Ok(
                Evaluation::Number(number_div(a, b)),
            ),
            _ => Result::Err(
                rt_err(RuntimeErrorKind::UnsupportedBinary, operator.lexeme.clone()),
            ),
        },
        TokenType::LESS => match (l, r) {
            (Evaluation::Number(a), Evaluation::Number(b)) => Result::Ok(
                Evaluation::Boolean(number_lt(a, b)),
            ),
            _ => Result::Err(
                rt_err(RuntimeErrorKind::UnsupportedBinary, operator.lexeme.clone()),
            ),
        },
        TokenType::LESS_EQUAL => match (l, r) {
            (Evaluation::Number(a), Evaluation::Number(b)) => Result::Ok(
                Evaluation::Boolean(number_le(a, b)),
            ),
            _ => Result::Err(
                rt_err(RuntimeErrorKind::UnsupportedBinary, operator.lexeme.clone()),
            ),
        },
        TokenType::GREATER => match (l, r) {
            (Evaluation::Number(a), Evaluation::Number(b)) => Result::Ok(
                Evaluation::Boolean(number_gt(a, b)),
            ),
            _ => Result::Err(
                rt_err(RuntimeErrorKind::UnsupportedBinary, operator.lexeme.clone()),
            ),
        },
        TokenType::GREATER_EQUAL => match (l, r) {
            (Evaluation::Number(a), Evaluation::Number(b)) => Result::Ok(
                Evaluation::Boolean(number_ge(a, b)),
            ),
            _ => Result::Err(
                rt_err(RuntimeErrorKind::UnsupportedBinary, operator.lexeme.clone()),
            ),
        },
        TokenType::EQUAL_EQUAL => match (l, r) {
            (Evaluation::Number(a), Evaluation::Number(b)) => Result::Ok(
                Evaluation::Boolean(number_eq(a, b)),
            ),
            (Evaluation::Str(a), Evaluation::Str(b)) => Result::Ok(Evaluation::Boolean(a == b)),
            (Evaluation::Boolean(a), Evaluation::Boolean(b)) => Result::Ok(
                Evaluation::Boolean(a == b),
            ),
            (Evaluation::Nil, Evaluation::Nil) => Result::Ok(Evaluation::Boolean(true)),
            (Evaluation::ClassInstance(a), Evaluation::ClassInstance(b)) => Result::Ok(
                Evaluation::Boolean(a == b),
            ),
            _ => Result::Ok(Evaluation::Boolean(false)),
        },
        TokenType::BANG_EQUAL => match (l, r) {
            (Evaluation::Number(a), Evaluation::Number(b)) => Result::Ok(
                Evaluation::Boolean(!number_eq(a, b)),
            ),
            (Evaluation::Str(a), Evaluation::Str(b)) => Result::Ok(Evaluation::Boolean(a != b)),
            (Evaluation::Boolean(a), Evaluation::Boolean(b)) => Result::Ok(
                Evaluation::Boolean(a != b),
            ),
            (Evaluation::Nil, Evaluation::Nil) => Result::Ok(Evaluation::Boolean(false)),
            (Evaluation::ClassInstance(a), Evaluation::ClassInstance(b)) => Result::Ok(
                Evaluation::Boolean(a != b),
            ),
            _ => Result::Ok(Evaluation::Boolean(true)),
        },
        _ => Result::Err(
            rt_err(RuntimeErrorKind::UnsupportedOperator, operator.lexeme.clone()),
        ),
    }
}

/// Relies on `std::time::SystemTime::now`, `duration_since` against
/// `UNIX_EPOCH`, and `Duration::as_secs`: the whole seconds since the
/// Unix epoch, or nothing when the clock sits before the epoch.  The
/// reading is not a function of anything, so nothing is promised of it.
#[verifier::external_body]
fn current_unix_seconds() -> (r: Option<u64>) {
    match std::time::SystemTime::now().duration_since(std::time::UNIX_EPOCH) {
        Ok(d) => Option::Some(d.as_secs()),
        Err(_) => Option::None,
    }
}

fn clone_tokens(v: &Vec<Token>) -> (r: Vec<Token>)
    ensures
        r@.map_values(|t: Token| t@) == v@.map_values(|t: Token| t@),
{
    let n = v.len();
    let mut out: Vec<Token> = Vec::new();
    for i in 0..n
        invariant
            n == v@.len(),
            out@.len() == i,
            forall|j: int| 0 <= j < i ==> (#[trigger] out@[j])@ == v@[j]@,
    {
        out.push(v[i].clone());
    }
    proof {
        assert(out@.map_values(|t: Token| t@) =~= v@.map_values(|t: Token| t@));
    }
    out
}

/// The step budget the runner grants each top-level statement.
pub const RUN_FUEL: usize = usize::MAX;

pub struct Interpreter {
    envs: Vec<Environment>,
    classes: Vec<Class>,
    instances: Vec<ClassInstance>,
    output: String,
    statements: Vec<Node>,
    global_environment: usize,
}

impl View for Interpreter {
    type V = GInterp;

    closed spec fn view(&self) -> GInterp {
        GInterp {
            envs: genvs_of(self.envs@),
            classes: gclasses_of(self.classes@),
            instances: ginsts_of(self.instances@),
            output: self.output@,
            clock: Seq::empty(),
        }
    }
}

impl Interpreter {
    pub closed spec fn stmts(&self) -> Seq<Node> {
        self.statements@
    }

    pub closed spec fn global_env(&self) -> int {
        self.global_environment as int
    }

    /// A fresh interpreter over the program: one global scope holding
    /// the native bindings, empty arenas, and no output.
    pub fn new(statements: Vec<Node>) -> (r: Interpreter)
        ensures
            st_wf(r@),
            r@.envs.len() == 1,
            r@.envs[0].values == Map::<Seq<char>, GVal>::empty(),
            r@.envs[0].functions == crate::environment::native_bindings(),
            r@.envs[0].enclosing is None,
            r@.envs[0].is_global,
            r@.classes.len() == 0,
            r@.instances.len() == 0,
            r@.output == Seq::<char>::empty(),
            r@.clock == Seq::<Option<u64>>::empty(),
            r.stmts() == statements@,
            r.global_env() == 0,
    {
        let mut envs: Vec<Environment> = Vec::new();
        envs.push(Environment::root());
        let r = Interpreter {
            envs,
            classes: Vec::new(),
            instances: Vec::new(),
            output: String::new(),
            statements,
            global_environment: 0,
        };
        proof {
            let st = r@;
            assert(st.envs =~= seq![r.envs@[0]@]);
            assert forall|k: Seq<char>|
                #[trigger] st.envs[0].functions.contains_key(k) implies gval_wf(
                st.envs[0].functions[k],
                1,
                0,
                0,
            ) by {
                assert(k == "clock"@);
            }
            assert(st_wf(st));
        }
        r
    }

    /// An interpreter holding one bare scope and nothing else, for
    /// evaluating a lone expression: no native bindings.
    pub fn new_with_default_scope() -> (r: Interpreter)
        ensures
            st_wf(r@),
            r@.envs.len() == 1,
            r@.classes.len() == 0,
            r@.instances.len() == 0,
            r@.output == Seq::<char>::empty(),
    {
        let mut envs: Vec<Environment> = Vec::new();
        envs.push(Environment::default());
        let r = Interpreter {
            envs,
            classes: Vec::new(),
            instances: Vec::new(),
            output: String::new(),
            statements: Vec::new(),
            global_environment: 0,
        };
        proof {
            assert(r@.envs =~= seq![r.envs@[0]@]);
            assert(st_wf(r@));
        }
        r
    }

    /// The text printed so far.
    pub fn output(&self) -> (r: &String)
        ensures
            r@ == self@.output,
    {
        &self.output
    }

    fn push_child_env(&mut self, enclosing: usize) -> (r: usize)
        requires
            st_wf(old(self)@),
            enclosing < old(self)@.envs.len(),
        ensures
            st_wf(final(self)@),
            st_extends(old(self)@, final(self)@),
            final(self)@ == g_push_env(old(self)@, enclosing as int),
            r as int == old(self)@.envs.len(),
            r < final(self)@.envs.len(),
            final(self).stmts() == old(self).stmts(),
            final(self).global_env() == old(self).global_env(),
    {
        proof {
            lemma_wf_push_env(self@, enclosing as int);
        }
        let r = self.envs.len();
        self.envs.push(Environment::new(enclosing));
        proof {
            assert(self@ =~~= g_push_env(old(self)@, enclosing as int));
        }
        r
    }

    fn persist_env(&mut self, environment: usize) -> (r: usize)
        requires
            st_wf(old(self)@),
            environment < old(self)@.envs.len(),
        ensures
            st_wf(final(self)@),
            st_extends(old(self)@, final(self)@),
            final(self)@ == crate::semantics::g_persist(old(self)@, environment as int).0,
            r as int == crate::semantics::g_persist(old(self)@, environment as int).1,
            r < final(self)@.envs.len(),
            final(self).stmts() == old(self).stmts(),
            final(self).global_env() == old(self).global_env(),
    {
        proof {
            lemma_wf_persist(self@, environment as int);
        }
        let r = crate::environment::persist_environment(&mut self.envs, environment);
        proof {
            assert(self@ =~~= crate::semantics::g_persist(old(self)@, environment as int).0);
        }
        r
    }

    fn define_var(&mut self, env: usize, name: String, value: Evaluation)
        requires
            st_wf(old(self)@),
            env < old(self)@.envs.len(),
            gval_wf(
                value@,
                old(self)@.envs.len() as int,
                old(self)@.classes.len() as int,
                old(self)@.instances.len() as int,
            ),
        ensures
            st_wf(final(self)@),
            st_extends(old(self)@, final(self)@),
            final(self)@ == g_define(old(self)@, env as int, name@, value@),
            final(self)@.envs.len() == old(self)@.envs.len(),
            final(self).stmts() == old(self).stmts(),
            final(self).global_env() == old(self).global_env(),
    {
        proof {
            lemma_wf_define(self@, env as int, name@, value@);
        }
        let ghost gname = name@;
        let ghost gv = value@;
        let e = &mut self.envs[env];
        e.define(name, value);
        proof {
            assert(self@ =~~= g_define(old(self)@, env as int, gname, gv));
        }
    }

    fn lookup_var(&self, env: usize, name: &String) -> (r: Option<Evaluation>)
        requires
            st_wf(self@),
            env < self@.envs.len(),
        ensures
            match r {
                Option::Some(v) => crate::environment::genv_lookup(
                    self@.envs,
                    env as int,
                    name@,
                ) == Option::Some(v@) && gval_wf(
                    v@,
                    self@.envs.len() as int,
                    self@.classes.len() as int,
                    self@.instances.len() as int,
                ),
                Option::None => crate::environment::genv_lookup(
                    self@.envs,
                    env as int,
                    name@,
                ) is None,
            },
    {
        proof {
            lemma_lookup_wf(self@, env as int, name@);
        }
        Environment::get(&self.envs, env, name)
    }

    fn assign_var(&mut self, env: usize, name: &String, value: Evaluation) -> (r: bool)
        requires
            st_wf(old(self)@),
            env < old(self)@.envs.len(),
            gval_wf(
                value@,
                old(self)@.envs.len() as int,
                old(self)@.classes.len() as int,
                old(self)@.instances.len() as int,
            ),
        ensures
            st_wf(final(self)@),
            st_extends(old(self)@, final(self)@),
            final(self)@ == (GInterp {
                envs: crate::environment::genv_assign(
                    old(self)@.envs,
                    env as int,
                    name@,
                    value@,
                ).0,
                ..old(self)@
            }),
            final(self).stmts() == old(self).stmts(),
            final(self).global_env() == old(self).global_env(),
    {
        proof {
            lemma_wf_assign(self@, env as int, name@, value@);
        }
        let ghost gv = value@;
        let r = Environment::set(&mut self.envs, env, name, value);
        proof {
            assert(self@ =~~= (GInterp {
                envs: crate::environment::genv_assign(old(self)@.envs, env as int, name@, gv).0,
                ..old(self)@
            }));
        }
        r
    }

    fn push_instance(&mut self, class: usize) -> (r: usize)
        requires
            st_wf(old(self)@),
            class < old(self)@.classes.len(),
        ensures
            st_wf(final(self)@),
            st_extends(old(self)@, final(self)@),
            final(self)@ == (GInterp {
                instances: old(self)@.instances.push(
                    crate::class::GInst { class: class as int, fields: Map::empty() },
                ),
                ..old(self)@
            }),
            r as int == old(self)@.instances.len(),
            final(self).stmts() == old(self).stmts(),
            final(self).global_env() == old(self).global_env(),
    {
        proof {
            lemma_wf_push_instance(self@, class as int);
        }
        let r = self.instances.len();
        self.instances.push(ClassInstance::new_of_class(class));
        proof {
            assert(self@ =~~= (GInterp {
                instances: old(self)@.instances.push(
                    crate::class::GInst { class: class as int, fields: Map::empty() },
                ),
                ..old(self)@
            }));
        }
        r
    }

    fn set_field_on(&mut self, inst: usize, name: String, value: Evaluation)
        requires
            st_wf(old(self)@),
            inst < old(self)@.instances.len(),
            gval_wf(
                value@,
                old(self)@.envs.len() as int,
                old(self)@.classes.len() as int,
                old(self)@.instances.len() as int,
            ),
        ensures
            st_wf(final(self)@),
            st_extends(old(self)@, final(self)@),
            final(self)@ == (GInterp {
                instances: old(self)@.instances.update(
                    inst as int,
                    crate::class::GInst {
                        class: old(self)@.instances[inst as int].class,
                        fields: old(self)@.instances[inst as int].fields.insert(name@, value@),
                    },
                ),
                ..old(self)@
            }),
            final(self).stmts() == old(self).stmts(),
            final(self).global_env() == old(self).global_env(),
    {
        proof {
            lemma_wf_set_field(self@, inst as int, name@, value@);
        }
        let ghost gname = name@;
        let ghost gv = value@;
        let e = &mut self.instances[inst];
        e.set_field(name, value);
        proof {
            assert(self@ =~~= (GInterp {
                instances: old(self)@.instances.update(
                    inst as int,
                    crate::class::GInst {
                        class: old(self)@.instances[inst as int].class,
                        fields: old(self)@.instances[inst as int].fields.insert(gname, gv),
                    },
                ),
                ..old(self)@
            }));
        }
    }

    /// The display form of a value, as `gdisplay` gives it.
    pub fn display_evaluation(&self, v: &Evaluation) -> (r: String)
        requires
            st_wf(self@),
            gval_wf(
                v@,
                self@.envs.len() as int,
                self@.classes.len() as int,
                self@.instances.len() as int,
            ),
        ensures
            r@ == gdisplay(self@, v@),
    {
        match v {
            Evaluation::Number(b) => render_number(*b),
            Evaluation::Boolean(b) => {
                if *b {
                    String::from_str("true")
                } else {
                    String::from_str("false")
                }
            },
            Evaluation::Nil => String::from_str("nil"),
            Evaluation::Str(s) => s.clone(),
            Evaluation::Func(f) => {
                let mut out = String::from_str("<fn ");
                out.append(f.name().as_str());
                out.append(">");
                out
            },
            Evaluation::Class(c) => {
                proof {
                    assert(gclasses_of(self.classes@)[*c as int] == self.classes@[*c as int]@);
                }
                self.classes[*c].name.clone()
            },
            Evaluation::ClassMethod(m) => {
                let mut out = String::from_str("<method ");
                out.append(m.func.name().as_str());
                out.append(">");
                out
            },
            Evaluation::ClassInstance(i) => {
                proof {
                    assert(crate::semantics::ginst_wf(
                        self@.instances[*i as int],
                        self@.envs.len() as int,
                        self@.classes.len() as int,
                        self@.instances.len() as int,
                    ));
                    assert(ginsts_of(self.instances@)[*i as int] == self.instances@[*i as int]@);
                }
                let c = self.instances[*i].class();
                proof {
                    assert(gclasses_of(self.classes@)[c as int] == self.classes@[c as int]@);
                }
                let mut out = self.classes[c].name.clone();
                out.append(" instance");
                out
            },
            Evaluation::Empty => String::new(),
        }
    }

    fn print_line(&mut self, v: &Evaluation)
        requires
            st_wf(old(self)@),
            gval_wf(
                v@,
                old(self)@.envs.len() as int,
                old(self)@.classes.len() as int,
                old(self)@.instances.len() as int,
            ),
        ensures
            st_wf(final(self)@),
            st_extends(old(self)@, final(self)@),
            final(self)@ == (GInterp {
                output: old(self)@.output + gdisplay(old(self)@, v@) + "\n"@,
                ..old(self)@
            }),
            final(self).stmts() == old(self).stmts(),
            final(self).global_env() == old(self).global_env(),
    {
        let s = self.display_evaluation(v);
        self.output.append(s.as_str());
        self.output.append("\n");
        proof {
            assert(self@ =~~= (GInterp {
                output: old(self)@.output + gdisplay(old(self)@, v@) + "\n"@,
                ..old(self)@
            }));
            assert(st_wf(self@));
        }
    }

    /// One evaluation step: the result, with the clock readings the
    /// step consumed as ghost data; `spec_eval`, run on exactly that
    /// stream of readings, is what the step computes.
    pub fn eval(&mut self, node: &Node, env: usize, fuel: usize) -> (r: (
        Result<Evaluation, Interruption>,
        Ghost<Seq<Option<u64>>>,
    ))
        requires
            st_wf(old(self)@),
            env < old(self)@.envs.len(),
        ensures
            st_wf(final(self)@),
            st_extends(old(self)@, final(self)@),
            ({
                let g = spec_eval(with_clock(old(self)@, r.1@), *node, env as int, fuel as nat);
                &&& g.st == final(self)@
                &&& out_matches(r.0, g.out)
            }),
            res_wf(r.0, final(self)@),
            final(self).stmts() == old(self).stmts(),
            final(self).global_env() == old(self).global_env(),
        decreases fuel, 2int,
    {
        proof {
            lemma_empty_clock(old(self)@);
        }
        if fuel == 0 {
            return (Result::Err(step_limit()), no_ticks());
        }
        match node {
            Node::NilExp(_) | Node::LiteralExp(_) | Node::GroupingExp(_) | Node::UnaryExp(_)
                | Node::BinaryExp(_) | Node::LogicalExp(_) | Node::AssignmentExp(_)
                | Node::ThisExp(_) | Node::SuperExp(_) => self.eval_expr_node(node, env, fuel),
            Node::CallExp(_) | Node::GetExp(_) | Node::SetExp(_) => self.eval_access_node(
                node,
                env,
                fuel,
            ),
            Node::VarDecl(_) | Node::FunctionDecl(_) | Node::ClassMethodDecl(_)
                | Node::ClassDecl(_) | Node::SuperClassDecl(_) => self.eval_decl_node(
                node,
                env,
                fuel,
            ),
            _ => self.eval_stmt_node(node, env, fuel),
        }
    }

    #[verifier::rlimit(100)]
    #[verifier::spinoff_prover]
    fn eval_expr_node(&mut self, node: &Node, env: usize, fuel: usize) -> (r: (
        Result<Evaluation, Interruption>,
        Ghost<Seq<Option<u64>>>,
    ))
        requires
            st_wf(old(self)@),
            env < old(self)@.envs.len(),
            1 <= fuel,
            node is NilExp || node is LiteralExp || node is GroupingExp || node is UnaryExp || node is BinaryExp || node is LogicalExp || node is AssignmentExp || node is ThisExp || node is SuperExp,
        ensures
            st_wf(final(self)@),
            st_extends(old(self)@, final(self)@),
            ({
                let g = spec_eval(with_clock(old(self)@, r.1@), *node, env as int, fuel as nat);
                &&& g.st == final(self)@
                &&& out_matches(r.0, g.out)
            }),
            res_wf(r.0, final(self)@),
            final(self).stmts() == old(self).stmts(),
            final(self).global_env() == old(self).global_env(),
        decreases fuel, 1int,
    {
        proof {
            lemma_empty_clock(old(self)@);
        }
        let f = fuel - 1;
        match node {
            Node::NilExp(_) => (Result::Ok(Evaluation::Nil), no_ticks()),
            Node::LiteralExp(e) => {
                let res = match &e.name.token_type {
                    TokenType::NUMBER(n) => Result::Ok(Evaluation::Number(*n)),
                    TokenType::TRUE => Result::Ok(Evaluation::Boolean(true)),
                    TokenType::FALSE => Result::Ok(Evaluation::Boolean(false)),
                    TokenType::NIL => Result::Ok(Evaluation::Nil),
                    TokenType::STRING(sl) => Result::Ok(Evaluation::Str(sl.clone())),
                    TokenType::IDENTIFIER => match self.lookup_var(env, &e.name.lexeme) {
                        Option::Some(v) => Result::Ok(v),
                        Option::None => Result::Err(
                            rt_err(
                                RuntimeErrorKind::UndefinedIdentifier,
                                e.name.lexeme.clone(),
                            ),
                        ),
                    },
                    _ => Result::Err(
                        rt_err(RuntimeErrorKind::UnsupportedLiteral, e.name.lexeme.clone()),
                    ),
                };
                (res, no_ticks())
            },
            Node::GroupingExp(e) => self.eval(&e.inner, env, f),
            Node::UnaryExp(e) => {
                let (r0, Ghost(t0)) = self.eval(&e.right, env, f);
                let rv = match r0 {
                    Result::Ok(v) => v,
                    Result::Err(i) => {
                        return (Result::Err(i), Ghost(t0));
                    },
                };
                (unary_result(&e.operator, rv), Ghost(t0))
            },
            Node::BinaryExp(e) => {
                let (r0, Ghost(t0)) = self.eval(&e.left, env, f);
                let lv = match r0 {
                    Result::Ok(v) => v,
                    Result::Err(i) => {
                        return (Result::Err(i), Ghost(t0));
                    },
                };
                let ghost mid = self@;
                let (r1, Ghost(t1)) = self.eval(&e.right, env, f);
                proof {
                    lemma_seq_readings_eval(old(self)@, &e.left, env as int, f as nat, t0, t1, mid);
                }
                let rv = match r1 {
                    Result::Ok(v) => v,
                    Result::Err(i) => {
                        return (Result::Err(i), Ghost(t0 + t1));
                    },
                };
                (binary_result(&e.operator, lv, rv), Ghost(t0 + t1))
            },
            Node::LogicalExp(e) => {
                let (r0, Ghost(t0)) = self.eval(&e.left, env, f);
                let lv = match r0 {
                    Result::Ok(v) => v,
                    Result::Err(i) => {
                        return (Result::Err(i), Ghost(t0));
                    },
                };
                let ghost mid = self@;
                match &e.operator.token_type {
                    TokenType::OR => match lv {
                        Evaluation::Boolean(false) | Evaluation::Nil => {
                            let (r1, Ghost(t1)) = self.eval(&e.right, env, f);
                            proof {
                                lemma_seq_readings_eval(
                                    old(self)@,
                                    &e.left,
                                    env as int,
                                    f as nat,
                                    t0,
                                    t1,
                                    mid,
                                );
                            }
                            (r1, Ghost(t0 + t1))
                        },
                        _ => (Result::Ok(lv), Ghost(t0)),
                    },
                    TokenType::AND => match lv {
                        Evaluation::Boolean(false) | Evaluation::Nil => (
                            Result::Ok(lv),
                            Ghost(t0),
                        ),
                        _ => {
                            let (r1, Ghost(t1)) = self.eval(&e.right, env, f);
                            proof {
                                lemma_seq_readings_eval(
                                    old(self)@,
                                    &e.left,
                                    env as int,
                                    f as nat,
                                    t0,
                                    t1,
                                    mid,
                                );
                            }
                            (r1, Ghost(t0 + t1))
                        },
                    },
                    _ => (
                        Result::Err(
                            rt_err(
                                RuntimeErrorKind::UnsupportedOperator,
                                e.operator.lexeme.clone(),
                            ),
                        ),
                        Ghost(t0),
                    ),
                }
            },
            Node::AssignmentExp(e) => {
                let (r0, Ghost(t0)) = self.eval(&e.value, env, f);
                let v = match r0 {
                    Result::Ok(v) => v,
                    Result::Err(i) => {
                        return (Result::Err(i), Ghost(t0));
                    },
                };
                let _ok = self.assign_var(env, &e.name.lexeme, v.clone());
                (Result::Ok(v), Ghost(t0))
            },
            Node::ThisExp(_) => {
                let name = String::from_str("this");
                let res = match self.lookup_var(env, &name) {
                    Option::Some(v) => Result::Ok(v),
                    Option::None => Result::Err(
                        rt_err(RuntimeErrorKind::ThisOutsideClass, name),
                    ),
                };
                (res, no_ticks())
            },
            Node::SuperExp(e) => {
                let class_name = String::from_str("class");
                let res = match self.lookup_var(env, &class_name) {
                    Option::Some(Evaluation::Class(c)) => {
                        match self.classes[c].super_class {
                            Option::Some(sc) => {
                                let this_name = String::from_str("this");
                                match self.lookup_var(env, &this_name) {
                                    Option::Some(Evaluation::ClassInstance(i)) => {
                                        proof {
                                            lemma_get_field_wf(
                                                self@,
                                                i as int,
                                                sc as int,
                                                e.method@.lexeme,
                                            );
                                        }
                                        let r0 = ClassInstance::get_filed_for_class(
                                            &self.instances,
                                            &self.classes,
                                            &self.envs,
                                            i,
                                            sc,
                                            &e.method.lexeme,
                                        );
                                        match r0 {
                                            Result::Ok(v) => Result::Ok(v),
                                            Result::Err(err) => Result::Err(
                                                Interruption::Error(err),
                                            ),
                                        }
                                    },
                                    _ => Result::Err(
                                        rt_err(
                                            RuntimeErrorKind::SuperOutsideClass,
                                            e.method.lexeme.clone(),
                                        ),
                                    ),
                                }
                            },
                            Option::None => Result::Err(
                                rt_err(
                                    RuntimeErrorKind::NoSuperClass,
                                    self.classes[c].name.clone(),
                                ),
                            ),
                        }
                    },
                    _ => Result::Err(
                        rt_err(RuntimeErrorKind::SuperOutsideClass, e.method.lexeme.clone()),
                    ),
                };
                (res, no_ticks())
            },
            _ => {
                proof {
                    assert(false);
                }
                (Result::Err(step_limit()), no_ticks())
            },
        }
    }

    #[verifier::rlimit(100)]
    #[verifier::spinoff_prover]
    fn eval_access_node(&mut self, node: &Node, env: usize, fuel: usize) -> (r: (
        Result<Evaluation, Interruption>,
        Ghost<Seq<Option<u64>>>,
    ))
        requires
            st_wf(old(self)@),
            env < old(self)@.envs.len(),
            1 <= fuel,
            node is CallExp || node is GetExp || node is SetExp,
        ensures
            st_wf(final(self)@),
            st_extends(old(self)@, final(self)@),
            ({
                let g = spec_eval(with_clock(old(self)@, r.1@), *node, env as int, fuel as nat);
                &&& g.st == final(self)@
                &&& out_matches(r.0, g.out)
            }),
            res_wf(r.0, final(self)@),
            final(self).stmts() == old(self).stmts(),
            final(self).global_env() == old(self).global_env(),
        decreases fuel, 1int,
    {
        proof {
            lemma_empty_clock(old(self)@);
        }
        let f = fuel - 1;
        match node {
            Node::CallExp(e) => {
                let (r0, Ghost(t0)) = self.eval(&e.callee, env, f);
                let callee = match r0 {
                    Result::Ok(v) => v,
                    Result::Err(i) => {
                        return (Result::Err(i), Ghost(t0));
                    },
                };
                let ghost mid1 = self@;
                proof {
                    assert(e.args@.skip(0) =~= e.args@);
                }
                let (r1, Ghost(t1)) = self.eval_args(&e.args, 0, env, f);
                let args = match r1 {
                    Result::Ok(vs) => vs,
                    Result::Err(i) => {
                        proof {
                            lemma_seq_readings_eval(
                                old(self)@,
                                &e.callee,
                                env as int,
                                f as nat,
                                t0,
                                t1,
                                mid1,
                            );
                        }
                        return (Result::Err(i), Ghost(t0 + t1));
                    },
                };
                let ghost mid2 = self@;
                let (r2, Ghost(t2)) = self.call_value(callee, args, f);
                proof {
                    lemma_seq_readings_eval(
                        old(self)@,
                        &e.callee,
                        env as int,
                        f as nat,
                        t0,
                        t1 + t2,
                        mid1,
                    );
                    lemma_seq_readings_args(mid1, e.args@, env as int, f as nat, t1, t2, mid2);
                }
                (r2, Ghost(t0 + (t1 + t2)))
            },
            Node::GetExp(e) => {
                let (r0, Ghost(t0)) = self.eval(&e.callee, env, f);
                let callee = match r0 {
                    Result::Ok(v) => v,
                    Result::Err(i) => {
                        return (Result::Err(i), Ghost(t0));
                    },
                };
                let res = match callee {
                    Evaluation::ClassInstance(i) => {
                        proof {
                            lemma_get_field_wf(
                                self@,
                                i as int,
                                self@.instances[i as int].class,
                                e.name@.lexeme,
                            );
                        }
                        let r1 = ClassInstance::get_field(
                            &self.instances,
                            &self.classes,
                            &self.envs,
                            i,
                            &e.name.lexeme,
                        );
                        match r1 {
                            Result::Ok(v) => Result::Ok(v),
                            Result::Err(err) => Result::Err(Interruption::Error(err)),
                        }
                    },
                    _ => Result::Err(
                        rt_err(
                            RuntimeErrorKind::OnlyInstancesHaveProperties,
                            e.name.lexeme.clone(),
                        ),
                    ),
                };
                (res, Ghost(t0))
            },
            Node::SetExp(e) => {
                match &*e.get_exp {
                    Node::GetExp(g0) => {
                        let (r0, Ghost(t0)) = self.eval(&g0.callee, env, f);
                        let target = match r0 {
                            Result::Ok(v) => v,
                            Result::Err(i) => {
                                return (Result::Err(i), Ghost(t0));
                            },
                        };
                        let ghost mid = self@;
                        let (r1, Ghost(t1)) = self.eval(&e.value, env, f);
                        proof {
                            lemma_seq_readings_eval(
                                old(self)@,
                                &g0.callee,
                                env as int,
                                f as nat,
                                t0,
                                t1,
                                mid,
                            );
                        }
                        let v = match r1 {
                            Result::Ok(v) => v,
                            Result::Err(i) => {
                                return (Result::Err(i), Ghost(t0 + t1));
                            },
                        };
                        let res = match target {
                            Evaluation::ClassInstance(i) => {
                                self.set_field_on(i, g0.name.lexeme.clone(), v.clone());
                                Result::Ok(v)
                            },
                            _ => Result::Err(
                                rt_err(
                                    RuntimeErrorKind::OnlyInstancesHaveProperties,
                                    g0.name.lexeme.clone(),
                                ),
                            ),
                        };
                        (res, Ghost(t0 + t1))
                    },
                    _ => (
                        Result::Err(
                            rt_err(RuntimeErrorKind::InvalidAssignmentTarget, String::new()),
                        ),
                        no_ticks(),
                    ),
                }
            },
            _ => {
                proof {
                    assert(false);
                }
                (Result::Err(step_limit()), no_ticks())
            },
        }
    }

    #[verifier::rlimit(100)]
    #[verifier::spinoff_prover]
    fn eval_decl_node(&mut self, node: &Node, env: usize, fuel: usize) -> (r: (
        Result<Evaluation, Interruption>,
        Ghost<Seq<Option<u64>>>,
    ))
        requires
            st_wf(old(self)@),
            env < old(self)@.envs.len(),
            1 <= fuel,
            node is VarDecl || node is FunctionDecl || node is ClassMethodDecl || node is ClassDecl || node is SuperClassDecl,
        ensures
            st_wf(final(self)@),
            st_extends(old(self)@, final(self)@),
            ({
                let g = spec_eval(with_clock(old(self)@, r.1@), *node, env as int, fuel as nat);
                &&& g.st == final(self)@
                &&& out_matches(r.0, g.out)
            }),
            res_wf(r.0, final(self)@),
            final(self).stmts() == old(self).stmts(),
            final(self).global_env() == old(self).global_env(),
        decreases fuel, 1int,
    {
        proof {
            lemma_empty_clock(old(self)@);
        }
        let f = fuel - 1;
        match node {
            Node::VarDecl(d) => {
                match &d.initializer {
                    Option::Some(init) => {
                        let (r0, Ghost(t0)) = self.eval(init, env, f);
                        let ghost g = spec_eval(
                            with_clock(old(self)@, t0),
                            *node,
                            env as int,
                            fuel as nat,
                        );
                        let ghost gi = spec_eval(
                            with_clock(old(self)@, t0),
                            **init,
                            env as int,
                            f as nat,
                        );
                        let v = match r0 {
                            Result::Ok(v) => v,
                            Result::Err(i) => {
                                proof {
                                    assert(g.st == gi.st);
                                    assert(g.out == gi.out);
                                }
                                return (Result::Err(i), Ghost(t0));
                            },
                        };
                        self.define_var(env, d.name.lexeme.clone(), v);
                        proof {
                            assert(g.st == g_define(gi.st, env as int, d.name@.lexeme, v@));
                            assert(self@ == g.st);
                        }
                        (Result::Ok(Evaluation::Empty), Ghost(t0))
                    },
                    Option::None => {
                        self.define_var(env, d.name.lexeme.clone(), Evaluation::Nil);
                        (Result::Ok(Evaluation::Empty), no_ticks())
                    },
                }
            },
            Node::FunctionDecl(d) => {
                let cap = self.persist_env(env);
                let func = CustomFunction {
                    name: d.name.lexeme.clone(),
                    arity: d.parameters.len(),
                    parameters: clone_tokens(&d.parameters),
                    captured_environment: cap,
                    body: rc_clone_node(&d.body),
                };
                let fv = Evaluation::Func(Rc::new(Function::CustomFunction(func)));
                proof {
                    assert(fv@ =~~= spec_function_value(*d, cap as int));
                }
                self.define_var(env, d.name.lexeme.clone(), fv);
                (Result::Ok(Evaluation::Nil), no_ticks())
            },
            Node::ClassMethodDecl(d) => {
                let class_name = String::from_str("class");
                match self.lookup_var(env, &class_name) {
                    Option::Some(Evaluation::Class(_)) => {
                        let func = CustomFunction {
                            name: d.name.lexeme.clone(),
                            arity: d.parameters.len(),
                            parameters: clone_tokens(&d.parameters),
                            captured_environment: env,
                            body: rc_clone_node(&d.body),
                        };
                        let fv = Evaluation::Func(Rc::new(Function::CustomFunction(func)));
                        proof {
                            assert(fv@ =~~= spec_method_value(*d, env as int));
                        }
                        self.define_var(env, d.name.lexeme.clone(), fv);
                        (Result::Ok(Evaluation::Nil), no_ticks())
                    },
                    _ => (
                        Result::Err(
                            rt_err(RuntimeErrorKind::MissingClassBinding, d.name.lexeme.clone()),
                        ),
                        no_ticks(),
                    ),
                }
            },
            Node::ClassDecl(d) => {
                proof {
                    assert(*node matches Node::ClassDecl(dv) && spec_eval(
                        with_clock(old(self)@, Seq::<Option<u64>>::empty()),
                        *node,
                        env as int,
                        fuel as nat,
                    ) == crate::semantics::spec_class_decl(
                        with_clock(old(self)@, Seq::<Option<u64>>::empty()),
                        dv,
                        env as int,
                        f as nat,
                    ));
                }
                let ghost st0 = self@;
                let a = self.push_child_env(env);
                proof {
                    assert(self@ == crate::semantics::g_push_env(st0, env as int));
                }
                let class_env = self.persist_env(a);
                proof {
                    assert(self@ == crate::semantics::g_persist(
                        crate::semantics::g_push_env(st0, env as int),
                        st0.envs.len() as int,
                    ).0);
                    assert(class_env as int == crate::semantics::g_persist(
                        crate::semantics::g_push_env(st0, env as int),
                        st0.envs.len() as int,
                    ).1);
                }
                let ghost st_bx = self@;
                let superc: Option<usize> = match &d.super_class {
                    Option::Some(sc) => {
                        match self.lookup_var(env, &sc.name.lexeme) {
                            Option::None => {
                                proof {
                                    let g = spec_eval(
                                        with_clock(old(self)@, Seq::<Option<u64>>::empty()),
                                        *node,
                                        env as int,
                                        fuel as nat,
                                    );
                                    assert(g.st == st_bx);
                                    assert(g.out == crate::semantics::spec_super_lookup(
                                        st_bx,
                                        sc.name@.lexeme,
                                        env as int,
                                    ));
                                }
                                return (
                                    Result::Err(
                                        rt_err(
                                            RuntimeErrorKind::SuperClassNotDefined,
                                            sc.name.lexeme.clone(),
                                        ),
                                    ),
                                    no_ticks(),
                                );
                            },
                            Option::Some(Evaluation::Class(ci)) => Option::Some(ci),
                            Option::Some(_) => {
                                proof {
                                    let g = spec_eval(
                                        with_clock(old(self)@, Seq::<Option<u64>>::empty()),
                                        *node,
                                        env as int,
                                        fuel as nat,
                                    );
                                    assert(g.st == st_bx);
                                }
                                return (
                                    Result::Err(
                                        rt_err(
                                            RuntimeErrorKind::SuperClassNotClass,
                                            sc.name.lexeme.clone(),
                                        ),
                                    ),
                                    no_ticks(),
                                );
                            },
                        }
                    },
                    Option::None => Option::None,
                };
                let c_idx = self.classes.len();
                let cls = Class {
                    name: d.name.lexeme.clone(),
                    super_class: superc,
                    class_environment: class_env,
                };
                proof {
                    lemma_wf_push_class(self@, cls@);
                }
                let ghost st_b = self@;
                self.classes.push(cls);
                proof {
                    assert(self@ =~~= (GInterp { classes: st_b.classes.push(cls@), ..st_b }));
                }
                let ghost st_c = self@;
                self.define_var(class_env, String::from_str("class"), Evaluation::Class(c_idx));
                let ghost st_d = self@;
                self.define_var(env, d.name.lexeme.clone(), Evaluation::Class(c_idx));
                let ghost st_e = self@;
                proof {
                    assert(d.methods@.skip(0) =~= d.methods@);
                }
                let (rm, Ghost(tm)) = self.eval_methods(&d.methods, 0, class_env, f);
                proof {
                    assert(*node matches Node::ClassDecl(dv) && spec_eval(
                        with_clock(old(self)@, tm),
                        *node,
                        env as int,
                        fuel as nat,
                    ) == crate::semantics::spec_class_decl(
                        with_clock(old(self)@, tm),
                        dv,
                        env as int,
                        f as nat,
                    ));
                    crate::semantics::lemma_with_clock_push_env(st0, env as int, tm);
                    crate::semantics::lemma_with_clock_persist(
                        crate::semantics::g_push_env(st0, env as int),
                        st0.envs.len() as int,
                        tm,
                    );
                    assert((GInterp {
                        classes: with_clock(st_b, tm).classes.push(cls@),
                        ..with_clock(st_b, tm)
                    }) =~~= with_clock(st_c, tm));
                    crate::semantics::lemma_with_clock_define(
                        st_c,
                        class_env as int,
                        "class"@,
                        GVal::Class(c_idx as int),
                        tm,
                    );
                    crate::semantics::lemma_with_clock_define(
                        st_d,
                        env as int,
                        d.name@.lexeme,
                        GVal::Class(c_idx as int),
                        tm,
                    );
                }
                (rm, Ghost(tm))
            },
            Node::SuperClassDecl(d) => {
                let res = match self.lookup_var(env, &d.name.lexeme) {
                    Option::None => Result::Err(
                        rt_err(RuntimeErrorKind::SuperClassNotDefined, d.name.lexeme.clone()),
                    ),
                    Option::Some(Evaluation::Class(c)) => Result::Ok(Evaluation::Class(c)),
                    Option::Some(_) => Result::Err(
                        rt_err(RuntimeErrorKind::SuperClassNotClass, d.name.lexeme.clone()),
                    ),
                };
                (res, no_ticks())
            },
            _ => {
                proof {
                    assert(false);
                }
                (Result::Err(step_limit()), no_ticks())
            },
        }
    }

    #[verifier::rlimit(100)]
    #[verifier::spinoff_prover]
    fn eval_stmt_node(&mut self, node: &Node, env: usize, fuel: usize) -> (r: (
        Result<Evaluation, Interruption>,
        Ghost<Seq<Option<u64>>>,
    ))
        requires
            st_wf(old(self)@),
            env < old(self)@.envs.len(),
            1 <= fuel,
            node is EmptyStm || node is PrintStm || node is BlockStm || node is FuncBodyStm || node is IfElseStm || node is WhileStm || node is ExpressionStm || node is ReturnStm,
        ensures
            st_wf(final(self)@),
            st_extends(old(self)@, final(self)@),
            ({
                let g = spec_eval(with_clock(old(self)@, r.1@), *node, env as int, fuel as nat);
                &&& g.st == final(self)@
                &&& out_matches(r.0, g.out)
            }),
            res_wf(r.0, final(self)@),
            final(self).stmts() == old(self).stmts(),
            final(self).global_env() == old(self).global_env(),
        decreases fuel, 1int,
    {
        proof {
            lemma_empty_clock(old(self)@);
        }
        let f = fuel - 1;
        match node {
            Node::EmptyStm(_) => (Result::Ok(Evaluation::Empty), no_ticks()),
            Node::PrintStm(s) => {
                let (r0, Ghost(t0)) = self.eval(&s.expression, env, f);
                let v = match r0 {
                    Result::Ok(v) => v,
                    Result::Err(i) => {
                        return (Result::Err(i), Ghost(t0));
                    },
                };
                self.print_line(&v);
                (Result::Ok(Evaluation::Empty), Ghost(t0))
            },
            Node::BlockStm(b) => {
                let ghost st0 = self@;
                let env2 = self.push_child_env(env);
                proof {
                    assert(b.statements@.skip(0) =~= b.statements@);
                }
                let (r0, Ghost(t0)) = self.eval_stmts(&b.statements, 0, env2, f);
                proof {
                    crate::semantics::lemma_with_clock_push_env(st0, env as int, t0);
                }
                (r0, Ghost(t0))
            },
            Node::FuncBodyStm(b) => {
                let ghost st0 = self@;
                let env2 = self.push_child_env(env);
                proof {
                    assert(b.statements@.skip(0) =~= b.statements@);
                }
                let (r0, Ghost(t0)) = self.eval_stmts(&b.statements, 0, env2, f);
                proof {
                    crate::semantics::lemma_with_clock_push_env(st0, env as int, t0);
                }
                (r0, Ghost(t0))
            },
            Node::IfElseStm(s) => {
                let (r0, Ghost(t0)) = self.eval(&s.condition, env, f);
                let cv = match r0 {
                    Result::Ok(v) => v,
                    Result::Err(i) => {
                        return (Result::Err(i), Ghost(t0));
                    },
                };
                let ghost mid = self@;
                match cv {
                    Evaluation::Boolean(false) | Evaluation::Nil => {
                        match &s.else_branch {
                            Option::Some(e) => {
                                let (r1, Ghost(t1)) = self.eval(e, env, f);
                                proof {
                                    lemma_seq_readings_eval(
                                        old(self)@,
                                        &s.condition,
                                        env as int,
                                        f as nat,
                                        t0,
                                        t1,
                                        mid,
                                    );
                                }
                                (r1, Ghost(t0 + t1))
                            },
                            Option::None => (Result::Ok(Evaluation::Empty), Ghost(t0)),
                        }
                    },
                    _ => {
                        let (r1, Ghost(t1)) = self.eval(&s.then_branch, env, f);
                        proof {
                            lemma_seq_readings_eval(
                                old(self)@,
                                &s.condition,
                                env as int,
                                f as nat,
                                t0,
                                t1,
                                mid,
                            );
                        }
                        (r1, Ghost(t0 + t1))
                    },
                }
            },
            Node::WhileStm(s) => self.eval_while(&s.condition, &s.body, env, fuel),
            Node::ExpressionStm(s) => {
                let (r0, Ghost(t0)) = self.eval(&s.expression, env, f);
                let _v = match r0 {
                    Result::Ok(v) => v,
                    Result::Err(i) => {
                        return (Result::Err(i), Ghost(t0));
                    },
                };
                (Result::Ok(Evaluation::Empty), Ghost(t0))
            },
            Node::ReturnStm(s) => {
                let (r0, Ghost(t0)) = self.eval(&s.expression, env, f);
                let v = match r0 {
                    Result::Ok(v) => v,
                    Result::Err(i) => {
                        return (Result::Err(i), Ghost(t0));
                    },
                };
                (Result::Err(Interruption::Return(v)), Ghost(t0))
            },
            _ => {
                proof {
                    assert(false);
                }
                (Result::Err(step_limit()), no_ticks())
            },
        }
    }

    /// Statements in sequence, as `spec_eval_stmts` describes it.
    fn eval_stmts(&mut self, stmts: &Vec<Node>, i: usize, env: usize, fuel: usize) -> (r: (
        Result<Evaluation, Interruption>,
        Ghost<Seq<Option<u64>>>,
    ))
        requires
            st_wf(old(self)@),
            env < old(self)@.envs.len(),
            i <= stmts@.len(),
        ensures
            st_wf(final(self)@),
            st_extends(old(self)@, final(self)@),
            ({
                let g = spec_eval_stmts(
                    with_clock(old(self)@, r.1@),
                    stmts@.skip(i as int),
                    env as int,
                    fuel as nat,
                );
                &&& g.st == final(self)@
                &&& out_matches(r.0, g.out)
            }),
            res_wf(r.0, final(self)@),
            final(self).stmts() == old(self).stmts(),
            final(self).global_env() == old(self).global_env(),
        decreases fuel, 0int,
    {
        proof {
            lemma_empty_clock(old(self)@);
        }
        if fuel == 0 {
            return (Result::Err(step_limit()), no_ticks());
        }
        if i >= stmts.len() {
            assert(stmts@.skip(i as int).len() == 0);
            return (Result::Ok(Evaluation::Nil), no_ticks());
        }
        assert(stmts@.skip(i as int)[0] == stmts@[i as int]);
        assert(stmts@.skip(i as int).drop_first() =~= stmts@.skip(i as int + 1));
        let (r0, Ghost(t0)) = self.eval(&stmts[i], env, fuel - 1);
        let _v = match r0 {
            Result::Ok(v) => v,
            Result::Err(itr) => {
                return (Result::Err(itr), Ghost(t0));
            },
        };
        let ghost mid = self@;
        let (r1, Ghost(t1)) = self.eval_stmts(stmts, i + 1, env, fuel - 1);
        proof {
            let head = stmts@[i as int];
            lemma_seq_readings_eval(
                old(self)@,
                &head,
                env as int,
                (fuel - 1) as nat,
                t0,
                t1,
                mid,
            );
        }
        (r1, Ghost(t0 + t1))
    }

    /// Class methods in sequence, as `spec_eval_methods` describes it.
    fn eval_methods(&mut self, methods: &Vec<Node>, i: usize, class_env: usize, fuel: usize) -> (r:
        (Result<Evaluation, Interruption>, Ghost<Seq<Option<u64>>>))
        requires
            st_wf(old(self)@),
            class_env < old(self)@.envs.len(),
            i <= methods@.len(),
        ensures
            st_wf(final(self)@),
            st_extends(old(self)@, final(self)@),
            ({
                let g = spec_eval_methods(
                    with_clock(old(self)@, r.1@),
                    methods@.skip(i as int),
                    class_env as int,
                    fuel as nat,
                );
                &&& g.st == final(self)@
                &&& out_matches(r.0, g.out)
            }),
            res_wf(r.0, final(self)@),
            final(self).stmts() == old(self).stmts(),
            final(self).global_env() == old(self).global_env(),
        decreases fuel, 0int,
    {
        proof {
            lemma_empty_clock(old(self)@);
        }
        if fuel == 0 {
            return (Result::Err(step_limit()), no_ticks());
        }
        if i >= methods.len() {
            assert(methods@.skip(i as int).len() == 0);
            return (Result::Ok(Evaluation::Nil), no_ticks());
        }
        assert(methods@.skip(i as int)[0] == methods@[i as int]);
        assert(methods@.skip(i as int).drop_first() =~= methods@.skip(i as int + 1));
        match &methods[i] {
            Node::ClassMethodDecl(_) => {
                let (r0, Ghost(t0)) = self.eval(&methods[i], class_env, fuel - 1);
                let _v = match r0 {
                    Result::Ok(v) => v,
                    Result::Err(itr) => {
                        return (Result::Err(itr), Ghost(t0));
                    },
                };
                let ghost mid = self@;
                let (r1, Ghost(t1)) = self.eval_methods(methods, i + 1, class_env, fuel - 1);
                proof {
                    let head = methods@[i as int];
                    lemma_seq_readings_eval(
                        old(self)@,
                        &head,
                        class_env as int,
                        (fuel - 1) as nat,
                        t0,
                        t1,
                        mid,
                    );
                }
                (r1, Ghost(t0 + t1))
            },
            _ => (
                Result::Err(rt_err(RuntimeErrorKind::InvalidClassMember, String::new())),
                no_ticks(),
            ),
        }
    }

    /// Arguments left to right, as `spec_eval_args` describes it.
    fn eval_args(&mut self, args: &Vec<Node>, i: usize, env: usize, fuel: usize) -> (r: (
        Result<Vec<Evaluation>, Interruption>,
        Ghost<Seq<Option<u64>>>,
    ))
        requires
            st_wf(old(self)@),
            env < old(self)@.envs.len(),
            i <= args@.len(),
        ensures
            st_wf(final(self)@),
            st_extends(old(self)@, final(self)@),
            ({
                let g = spec_eval_args(
                    with_clock(old(self)@, r.1@),
                    args@.skip(i as int),
                    env as int,
                    fuel as nat,
                );
                &&& g.st == final(self)@
                &&& match g.out {
                    GArgsOut::Vals(vs) => r.0 matches Result::Ok(es) && es@.map_values(
                        |e: Evaluation| e@,
                    ) == vs && vals_wf(vs, final(self)@),
                    GArgsOut::Itr(itr) => r.0 matches Result::Err(it) && it@ == itr,
                    GArgsOut::Stop => r.0 matches Result::Err(Interruption::Error(e)) && e@.kind
                        == RuntimeErrorKind::StepLimit && e@.detail == Seq::<char>::empty(),
                }
            }),
            (match r.0 {
                Result::Err(Interruption::Return(v)) => gval_wf(
                    v@,
                    final(self)@.envs.len() as int,
                    final(self)@.classes.len() as int,
                    final(self)@.instances.len() as int,
                ),
                _ => true,
            }),
            final(self).stmts() == old(self).stmts(),
            final(self).global_env() == old(self).global_env(),
        decreases fuel, 0int,
    {
        proof {
            lemma_empty_clock(old(self)@);
        }
        if fuel == 0 {
            return (Result::Err(step_limit()), no_ticks());
        }
        if i >= args.len() {
            assert(args@.skip(i as int).len() == 0);
            let empty: Vec<Evaluation> = Vec::new();
            proof {
                assert(empty@.map_values(|e: Evaluation| e@) =~= Seq::<GVal>::empty());
            }
            return (Result::Ok(empty), no_ticks());
        }
        assert(args@.skip(i as int)[0] == args@[i as int]);
        assert(args@.skip(i as int).drop_first() =~= args@.skip(i as int + 1));
        let (r0, Ghost(t0)) = self.eval(&args[i], env, fuel - 1);
        let v = match r0 {
            Result::Ok(v) => v,
            Result::Err(itr) => {
                return (Result::Err(itr), Ghost(t0));
            },
        };
        let ghost mid = self@;
        let (r1, Ghost(t1)) = self.eval_args(args, i + 1, env, fuel - 1);
        proof {
            let head = args@[i as int];
            lemma_seq_readings_eval(
                old(self)@,
                &head,
                env as int,
                (fuel - 1) as nat,
                t0,
                t1,
                mid,
            );
        }
        let rest = match r1 {
            Result::Ok(vs) => vs,
            Result::Err(itr) => {
                return (Result::Err(itr), Ghost(t0 + t1));
            },
        };
        let mut out: Vec<Evaluation> = Vec::new();
        out.push(v);
        let mut rest = rest;
        out.append(&mut rest);
        proof {
            let g = spec_eval_args(
                with_clock(old(self)@, t0 + t1),
                args@.skip(i as int),
                env as int,
                fuel as nat,
            );
            match g.out {
                GArgsOut::Vals(vs) => {
                    assert(out@.map_values(|e: Evaluation| e@) =~= vs);
                    assert forall|a: int| 0 <= a < vs.len() implies gval_wf(
                        #[trigger] vs[a],
                        self@.envs.len() as int,
                        self@.classes.len() as int,
                        self@.instances.len() as int,
                    ) by {
                        if a == 0 {
                            lemma_gval_wf_mono(
                                vs[0],
                                mid.envs.len() as int,
                                mid.classes.len() as int,
                                mid.instances.len() as int,
                                self@.envs.len() as int,
                                self@.classes.len() as int,
                                self@.instances.len() as int,
                            );
                        }
                    }
                },
                _ => {},
            }
        }
        (Result::Ok(out), Ghost(t0 + t1))
    }

    /// A while loop, as `spec_eval_while` describes it.
    fn eval_while(&mut self, cond: &Node, body: &Node, env: usize, fuel: usize) -> (r: (
        Result<Evaluation, Interruption>,
        Ghost<Seq<Option<u64>>>,
    ))
        requires
            st_wf(old(self)@),
            env < old(self)@.envs.len(),
        ensures
            st_wf(final(self)@),
            st_extends(old(self)@, final(self)@),
            ({
                let g = spec_eval_while(
                    with_clock(old(self)@, r.1@),
                    *cond,
                    *body,
                    env as int,
                    fuel as nat,
                );
                &&& g.st == final(self)@
                &&& out_matches(r.0, g.out)
            }),
            res_wf(r.0, final(self)@),
            final(self).stmts() == old(self).stmts(),
            final(self).global_env() == old(self).global_env(),
        decreases fuel, 0int,
    {
        proof {
            lemma_empty_clock(old(self)@);
        }
        if fuel == 0 {
            return (Result::Err(step_limit()), no_ticks());
        }
        let f = fuel - 1;
        let (r0, Ghost(t0)) = self.eval(cond, env, f);
        let cv = match r0 {
            Result::Ok(v) => v,
            Result::Err(i) => {
                return (Result::Err(i), Ghost(t0));
            },
        };
        let ghost mid1 = self@;
        match cv {
            Evaluation::Boolean(false) | Evaluation::Nil => (
                Result::Ok(Evaluation::Empty),
                Ghost(t0),
            ),
            _ => {
                let (r1, Ghost(t1)) = self.eval(body, env, f);
                let _bv = match r1 {
                    Result::Ok(v) => v,
                    Result::Err(i) => {
                        proof {
                            lemma_seq_readings_eval(
                                old(self)@,
                                cond,
                                env as int,
                                f as nat,
                                t0,
                                t1,
                                mid1,
                            );
                        }
                        return (Result::Err(i), Ghost(t0 + t1));
                    },
                };
                let ghost mid2 = self@;
                let (r2, Ghost(t2)) = self.eval_while(cond, body, env, f);
                proof {
                    lemma_seq_readings_eval(
                        old(self)@,
                        cond,
                        env as int,
                        f as nat,
                        t0,
                        t1 + t2,
                        mid1,
                    );
                    lemma_seq_readings_eval(mid1, body, env as int, f as nat, t1, t2, mid2);
                }
                (r2, Ghost(t0 + (t1 + t2)))
            },
        }
    }

    /// A call on an evaluated callee, as `spec_call` describes it.  The
    /// native `clock` takes a fresh reading here, at the call.
    fn call_value(&mut self, callee: Evaluation, args: Vec<Evaluation>, fuel: usize) -> (r: (
        Result<Evaluation, Interruption>,
        Ghost<Seq<Option<u64>>>,
    ))
        requires
            st_wf(old(self)@),
            gval_wf(
                callee@,
                old(self)@.envs.len() as int,
                old(self)@.classes.len() as int,
                old(self)@.instances.len() as int,
            ),
            vals_wf(args@.map_values(|e: Evaluation| e@), old(self)@),
        ensures
            st_wf(final(self)@),
            st_extends(old(self)@, final(self)@),
            ({
                let g = spec_call(
                    with_clock(old(self)@, r.1@),
                    callee@,
                    args@.map_values(|e: Evaluation| e@),
                    fuel as nat,
                );
                &&& g.st == final(self)@
                &&& out_matches(r.0, g.out)
            }),
            res_wf(r.0, final(self)@),
            final(self).stmts() == old(self).stmts(),
            final(self).global_env() == old(self).global_env(),
        decreases fuel, 0int,
    {
        proof {
            lemma_empty_clock(old(self)@);
        }
        if fuel == 0 {
            return (Result::Err(step_limit()), no_ticks());
        }
        let f = fuel - 1;
        match callee {
            Evaluation::Func(func) => {
                if func.arity() != args.len() {
                    return (
                        Result::Err(rt_err(RuntimeErrorKind::ArityMismatch, String::new())),
                        no_ticks(),
                    );
                }
                match &*func {
                    Function::CustomFunction(c) => {
                        let cap = c.captured_environment;
                        c.call_with_environment(self, cap, args, f)
                    },
                    Function::NativeFunction(_) => {
                        let reading = current_unix_seconds();
                        let res = match reading {
                            Option::Some(sv) => Result::Ok(
                                Evaluation::Number(number_from_u64(sv)),
                            ),
                            Option::None => Result::Err(
                                rt_err(RuntimeErrorKind::ClockFailed, String::new()),
                            ),
                        };
                        let ghost tick = seq![reading];
                        proof {
                            let stx = with_clock(old(self)@, tick);
                            assert(stx.clock.len() == 1);
                            assert(stx.clock[0] == reading);
                            assert(stx.clock.drop_first() =~= Seq::<Option<u64>>::empty());
                            assert(spec_native_clock(stx).st =~~= old(self)@);
                        }
                        (res, Ghost(tick))
                    },
                }
            },
            Evaluation::ClassMethod(m) => {
                if m.func.arity() != args.len() {
                    return (
                        Result::Err(rt_err(RuntimeErrorKind::ArityMismatch, String::new())),
                        no_ticks(),
                    );
                }
                self.call_class_method(&m, args, f)
            },
            Evaluation::Class(c) => {
                let i_idx = self.push_instance(c);
                let ghost midp = self@;
                proof {
                    lemma_get_field_wf(self@, i_idx as int, c as int, "init"@);
                }
                let ctor = ClassInstance::get_constructor(
                    &self.instances,
                    &self.classes,
                    &self.envs,
                    i_idx,
                );
                match ctor {
                    Result::Ok(Evaluation::ClassMethod(init)) => {
                        if init.func.arity() != args.len() {
                            return (
                                Result::Err(
                                    rt_err(RuntimeErrorKind::ArityMismatch, String::new()),
                                ),
                                no_ticks(),
                            );
                        }
                        let (r2, Ghost(t2)) = self.call_class_method(&init, args, f);
                        proof {
                            let stx = with_clock(old(self)@, t2);
                            assert((GInterp {
                                instances: stx.instances.push(
                                    crate::class::GInst { class: c as int, fields: Map::empty() },
                                ),
                                ..stx
                            }) =~~= with_clock(midp, t2));
                        }
                        let _v = match r2 {
                            Result::Ok(v) => v,
                            Result::Err(itr) => {
                                return (Result::Err(itr), Ghost(t2));
                            },
                        };
                        (Result::Ok(Evaluation::ClassInstance(i_idx)), Ghost(t2))
                    },
                    _ => {
                        if args.len() == 0 {
                            (Result::Ok(Evaluation::ClassInstance(i_idx)), no_ticks())
                        } else {
                            (
                                Result::Err(
                                    rt_err(RuntimeErrorKind::ArityMismatch, String::new()),
                                ),
                                no_ticks(),
                            )
                        }
                    },
                }
            },
            _ => (
                Result::Err(rt_err(RuntimeErrorKind::NotCallable, String::new())),
                no_ticks(),
            ),
        }
    }

    /// A bound method call, as `spec_call_class_method` describes it.
    fn call_class_method(&mut self, m: &ClassMethod, args: Vec<Evaluation>, fuel: usize) -> (r: (
        Result<Evaluation, Interruption>,
        Ghost<Seq<Option<u64>>>,
    ))
        requires
            st_wf(old(self)@),
            gval_wf(
                GVal::Method(m@),
                old(self)@.envs.len() as int,
                old(self)@.classes.len() as int,
                old(self)@.instances.len() as int,
            ),
            vals_wf(args@.map_values(|e: Evaluation| e@), old(self)@),
        ensures
            st_wf(final(self)@),
            st_extends(old(self)@, final(self)@),
            ({
                let g = spec_call_class_method(
                    with_clock(old(self)@, r.1@),
                    m@,
                    args@.map_values(|e: Evaluation| e@),
                    fuel as nat,
                );
                &&& g.st == final(self)@
                &&& out_matches(r.0, g.out)
            }),
            res_wf(r.0, final(self)@),
            final(self).stmts() == old(self).stmts(),
            final(self).global_env() == old(self).global_env(),
        decreases fuel, 0int,
    {
        proof {
            lemma_empty_clock(old(self)@);
        }
        if fuel == 0 {
            return (Result::Err(step_limit()), no_ticks());
        }
        let f = fuel - 1;
        match &*m.func {
            Function::CustomFunction(c) => {
                let is_ctor = m.is_constructor();
                let env2 = self.push_child_env(m.method_environment);
                let ghost st_p = self@;
                self.define_var(
                    env2,
                    String::from_str("this"),
                    Evaluation::ClassInstance(m.class_instance),
                );
                let (r0, Ghost(t0)) = c.call_with_environment(self, env2, args, f);
                proof {
                    crate::semantics::lemma_with_clock_push_env(
                        old(self)@,
                        m.method_environment as int,
                        t0,
                    );
                    crate::semantics::lemma_with_clock_define(
                        st_p,
                        env2 as int,
                        "this"@,
                        GVal::Instance(m.class_instance as int),
                        t0,
                    );
                }
                if is_ctor {
                    let res = match r0 {
                        Result::Ok(Evaluation::Nil) => Result::Ok(
                            Evaluation::ClassInstance(m.class_instance),
                        ),
                        Result::Ok(_) => Result::Err(
                            rt_err(RuntimeErrorKind::ConstructorReturn, c.name.clone()),
                        ),
                        Result::Err(e) => Result::Err(e),
                    };
                    (res, Ghost(t0))
                } else {
                    (r0, Ghost(t0))
                }
            },
            Function::NativeFunction(_) => (
                Result::Err(rt_err(RuntimeErrorKind::NotCallable, String::new())),
                no_ticks(),
            ),
        }
    }

    /// Parameters bound to arguments pairwise, as `spec_bind_params`
    /// describes it.
    fn bind_params(&mut self, params: &Vec<Token>, args: &Vec<Evaluation>, env: usize, k: usize)
        requires
            st_wf(old(self)@),
            env < old(self)@.envs.len(),
            k <= params@.len(),
            k <= args@.len() || k <= params@.len(),
            vals_wf(args@.map_values(|e: Evaluation| e@), old(self)@),
        ensures
            st_wf(final(self)@),
            st_extends(old(self)@, final(self)@),
            final(self)@ == spec_bind_params(
                old(self)@,
                env as int,
                params@.map_values(|t: Token| t@),
                args@.map_values(|e: Evaluation| e@),
                k as int,
            ),
            final(self)@.envs.len() == old(self)@.envs.len(),
            final(self).stmts() == old(self).stmts(),
            final(self).global_env() == old(self).global_env(),
        decreases params@.len() - k,
    {
        if k < params.len() && k < args.len() {
            let name = params[k].lexeme.clone();
            let value = args[k].clone();
            proof {
                assert(args@.map_values(|e: Evaluation| e@)[k as int] == args@[k as int]@);
            }
            self.define_var(env, name, value);
            self.bind_params(params, args, env, k + 1);
        }
    }

    /// The whole program, one top-level statement at a time, as
    /// `spec_run_stmts` describes it on the readings handed back.  On an
    /// interruption the output so far stands and the rest of the
    /// program is skipped.
    pub fn run(&mut self) -> (r: (Result<(), Interruption>, Ghost<Seq<Option<u64>>>))
        requires
            st_wf(old(self)@),
            old(self).global_env() < old(self)@.envs.len(),
        ensures
            st_wf(final(self)@),
            ({
                let g = spec_run_stmts(
                    with_clock(old(self)@, r.1@),
                    old(self).stmts(),
                    old(self).global_env(),
                    RUN_FUEL as nat,
                );
                &&& g.st == final(self)@
                &&& match g.out {
                    GOut::Val(_) => r.0 is Ok,
                    GOut::Itr(itr) => r.0 matches Result::Err(i) && i@ == itr,
                    GOut::Stop => r.0 matches Result::Err(Interruption::Error(e)) && e@.kind
                        == RuntimeErrorKind::StepLimit,
                }
            }),
            final(self).stmts() == old(self).stmts(),
    {
        let mut stmts: Vec<Node> = Vec::new();
        core::mem::swap(&mut stmts, &mut self.statements);
        proof {
            assert(stmts@.skip(0) =~= stmts@);
        }
        let (r0, Ghost(t0)) = self.run_from(&stmts, 0);
        core::mem::swap(&mut stmts, &mut self.statements);
        (r0, Ghost(t0))
    }

    fn run_from(&mut self, stmts: &Vec<Node>, i: usize) -> (r: (
        Result<(), Interruption>,
        Ghost<Seq<Option<u64>>>,
    ))
        requires
            st_wf(old(self)@),
            old(self).global_env() < old(self)@.envs.len(),
            i <= stmts@.len(),
        ensures
            st_wf(final(self)@),
            ({
                let g = spec_run_stmts(
                    with_clock(old(self)@, r.1@),
                    stmts@.skip(i as int),
                    old(self).global_env(),
                    RUN_FUEL as nat,
                );
                &&& g.st == final(self)@
                &&& match g.out {
                    GOut::Val(_) => r.0 is Ok,
                    GOut::Itr(itr) => r.0 matches Result::Err(it) && it@ == itr,
                    GOut::Stop => r.0 matches Result::Err(Interruption::Error(e)) && e@.kind
                        == RuntimeErrorKind::StepLimit,
                }
            }),
            st_extends(old(self)@, final(self)@),
            final(self).stmts() == old(self).stmts(),
            final(self).global_env() == old(self).global_env(),
        decreases stmts@.len() - i,
    {
        proof {
            lemma_empty_clock(old(self)@);
        }
        if i >= stmts.len() {
            assert(stmts@.skip(i as int).len() == 0);
            return (Result::Ok(()), no_ticks());
        }
        assert(stmts@.skip(i as int)[0] == stmts@[i as int]);
        assert(stmts@.skip(i as int).drop_first() =~= stmts@.skip(i as int + 1));
        let ge = self.global_environment;
        let (r0, Ghost(t0)) = self.eval(&stmts[i], ge, RUN_FUEL);
        let _v = match r0 {
            Result::Ok(v) => v,
            Result::Err(itr) => {
                return (Result::Err(itr), Ghost(t0));
            },
        };
        let ghost mid = self@;
        let (r1, Ghost(t1)) = self.run_from(stmts, i + 1);
        proof {
            let head = stmts@[i as int];
            lemma_seq_readings_eval(
                old(self)@,
                &head,
                old(self).global_env(),
                RUN_FUEL as nat,
                t0,
                t1,
                mid,
            );
        }
        (r1, Ghost(t0 + t1))
    }
}

impl CustomFunction {
    /// The function body run in a fresh scope under `environment`, as
    /// `spec_call_with_environment` describes it.
    pub fn call_with_environment(
        &self,
        interpreter: &mut Interpreter,
        environment: usize,
        args: Vec<Evaluation>,
        fuel: usize,
    ) -> (r: (Result<Evaluation, Interruption>, Ghost<Seq<Option<u64>>>))
        requires
            st_wf(old(interpreter)@),
            environment < old(interpreter)@.envs.len(),
            vals_wf(args@.map_values(|e: Evaluation| e@), old(interpreter)@),
        ensures
            st_wf(final(interpreter)@),
            st_extends(old(interpreter)@, final(interpreter)@),
            ({
                let g = spec_call_with_environment(
                    with_clock(old(interpreter)@, r.1@),
                    self@,
                    environment as int,
                    args@.map_values(|e: Evaluation| e@),
                    fuel as nat,
                );
                &&& g.st == final(interpreter)@
                &&& out_matches(r.0, g.out)
            }),
            res_wf(r.0, final(interpreter)@),
            final(interpreter).stmts() == old(interpreter).stmts(),
            final(interpreter).global_env() == old(interpreter).global_env(),
        decreases fuel, 0int,
    {
        proof {
            lemma_empty_clock(old(interpreter)@);
        }
        if fuel == 0 {
            return (Result::Err(step_limit()), no_ticks());
        }
        let env2 = interpreter.push_child_env(environment);
        interpreter.bind_params(&self.parameters, &args, env2, 0);
        let (r0, Ghost(t0)) = interpreter.eval(&*self.body, env2, fuel - 1);
        proof {
            crate::semantics::lemma_with_clock_push_env(
                old(interpreter)@,
                environment as int,
                t0,
            );
            crate::semantics::lemma_bind_params_readings(
                g_push_env(old(interpreter)@, environment as int),
                env2 as int,
                self@.parameters,
                args@.map_values(|e: Evaluation| e@),
                0,
                t0,
            );
        }
        let out = match r0 {
            Result::Err(Interruption::Return(v)) => Result::Ok(v),
            other => other,
        };
        (out, Ghost(t0))
    }
}

/// A state whose reading stream is empty is itself: the executable
/// interpreter's view always has an empty stream, so a run proved on a
/// witness stream starts from exactly the old view.
proof fn lemma_empty_clock(st: GInterp)
    requires
        st.clock == Seq::<Option<u64>>::empty(),
    ensures
        with_clock(st, Seq::<Option<u64>>::empty()) == st,
{
    assert(with_clock(st, Seq::<Option<u64>>::empty()) =~~= st);
}

/// No readings: the ghost stream of a step that never read the clock.
fn no_ticks() -> (t: Ghost<Seq<Option<u64>>>)
    ensures
        t@ == Seq::<Option<u64>>::empty(),
{
    Ghost(Seq::empty())
}

/// The function value a declaration evaluates to, given the captured
/// environment.
pub open spec fn spec_function_value(d: crate::grammar::FunctionDecl, cap: int) -> GVal {
    GVal::Func(
        crate::function::GFunction::Custom(
            crate::function::GCustomFunction {
                name: d.name@.lexeme,
                arity: d.parameters@.len() as int,
                parameters: d.parameters@.map_values(|t: Token| t@),
                captured_environment: cap,
                body: *d.body,
            },
        ),
    )
}

/// The function value a method declaration evaluates to; the class
/// environment itself is the captured environment.
pub open spec fn spec_method_value(d: crate::grammar::ClassMethodDecl, env: int) -> GVal {
    GVal::Func(
        crate::function::GFunction::Custom(
            crate::function::GCustomFunction {
                name: d.name@.lexeme,
                arity: d.parameters@.len() as int,
                parameters: d.parameters@.map_values(|t: Token| t@),
                captured_environment: env,
                body: *d.body,
            },
        ),
    )
}

} // verus!
