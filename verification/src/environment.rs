//! Lexical environments.
//!
//! An interpreter owns an arena (`Vec<Environment>`) of scopes; an
//! environment names its enclosing scope by index, and an enclosing
//! scope always has a smaller index than the scopes it encloses.  A
//! scope maps names to values with `StringMap`, whose model is a
//! `Map<Seq<char>, GVal>`.
use crate::evaluation::{Evaluation, GVal};
use crate::function::native_functions;
use vstd::prelude::*;

verus! {

/// The model of an association list: later entries win.
pub open spec fn smap_of(s: Seq<(String, Evaluation)>) -> Map<Seq<char>, GVal>
    decreases s.len(),
{
    if s.len() == 0 {
        Map::empty()
    } else {
        smap_of(s.drop_last()).insert(s.last().0@, s.last().1@)
    }
}

/// `smap_of` of a prefix of the entries.
pub open spec fn smap_prefix(s: Seq<(String, Evaluation)>, j: int) -> Map<Seq<char>, GVal> {
    smap_of(s.subrange(0, j))
}

/// A map from names to values, keyed by the text of the name.
pub struct StringMap {
    entries: Vec<(String, Evaluation)>,
}

impl View for StringMap {
    type V = Map<Seq<char>, GVal>;

    closed spec fn view(&self) -> Map<Seq<char>, GVal> {
        smap_of(self.entries@)
    }
}

impl StringMap {
    pub fn new() -> (r: StringMap)
        ensures
            r@ == Map::<Seq<char>, GVal>::empty(),
    {
        StringMap { entries: Vec::new() }
    }

    /// Bind `name` to `value`; a later binding shadows an earlier one.
    pub fn insert(&mut self, name: String, value: Evaluation)
        ensures
            final(self)@ == old(self)@.insert(name@, value@),
    {
        let ghost s0 = self.entries@;
        let ghost p = (name, value);
        self.entries.push((name, value));
        proof {
            assert(self.entries@.drop_last() =~= s0);
            assert(self.entries@.last() == p);
        }
    }

    fn get_in_prefix(&self, j: usize, name: &String) -> (r: Option<&Evaluation>)
        requires
            j <= self.entries@.len(),
        ensures
            match r {
                Option::Some(v) => smap_prefix(self.entries@, j as int).contains_key(name@) && v@
                    == smap_prefix(self.entries@, j as int)[name@],
                Option::None => !smap_prefix(self.entries@, j as int).contains_key(name@),
            },
        decreases j,
    {
        if j == 0 {
            proof {
                assert(self.entries@.subrange(0, 0) =~= Seq::<(String, Evaluation)>::empty());
            }
            Option::None
        } else {
            proof {
                assert(self.entries@.subrange(0, j as int).drop_last() =~= self.entries@.subrange(
                    0,
                    j as int - 1,
                ));
                assert(self.entries@.subrange(0, j as int).last() == self.entries@[j as int - 1]);
            }
            if self.entries[j - 1].0 == *name {
                Option::Some(&self.entries[j - 1].1)
            } else {
                self.get_in_prefix(j - 1, name)
            }
        }
    }

    /// The value bound to `name`, if any: the latest binding wins.
    pub fn get(&self, name: &String) -> (r: Option<&Evaluation>)
        ensures
            match r {
                Option::Some(v) => self@.contains_key(name@) && v@ == self@[name@],
                Option::None => !self@.contains_key(name@),
            },
    {
        let n = self.entries.len();
        proof {
            assert(self.entries@.subrange(0, n as int) =~= self.entries@);
        }
        self.get_in_prefix(n, name)
    }

    /// A copy whose model is the same map.
    pub fn duplicate(&self) -> (r: StringMap)
        ensures
            r@ == self@,
    {
        let n = self.entries.len();
        let mut out: Vec<(String, Evaluation)> = Vec::new();
        for i in 0..n
            invariant
                n == self.entries@.len(),
                out@.len() == i,
                forall|j: int|
                    0 <= j < i ==> (#[trigger] out@[j]).0@ == self.entries@[j].0@ && out@[j].1@
                        == self.entries@[j].1@,
        {
            let name = self.entries[i].0.clone();
            let value = self.entries[i].1.clone();
            out.push((name, value));
        }
        proof {
            lemma_smap_congruent(out@, self.entries@);
        }
        StringMap { entries: out }
    }
}

proof fn lemma_smap_congruent(s1: Seq<(String, Evaluation)>, s2: Seq<(String, Evaluation)>)
    requires
        s1.len() == s2.len(),
        forall|i: int|
            0 <= i < s1.len() ==> (#[trigger] s1[i]).0@ == s2[i].0@ && s1[i].1@ == s2[i].1@,
    ensures
        smap_of(s1) == smap_of(s2),
    decreases s1.len(),
{
    if s1.len() > 0 {
        assert(forall|i: int|
            0 <= i < s1.drop_last().len() ==> (#[trigger] s1.drop_last()[i]).0@
                == s2.drop_last()[i].0@ && s1.drop_last()[i].1@ == s2.drop_last()[i].1@);
        lemma_smap_congruent(s1.drop_last(), s2.drop_last());
        assert(s1.last().0@ == s2.last().0@ && s1.last().1@ == s2.last().1@);
        assert(smap_of(s1) =~= smap_of(s2));
    } else {
        assert(smap_of(s1) =~= smap_of(s2));
    }
}

/// The model of one scope.
#[verifier::ext_equal]
pub struct GEnv {
    pub values: Map<Seq<char>, GVal>,
    pub functions: Map<Seq<char>, GVal>,
    pub enclosing: Option<int>,
    pub is_global: bool,
}

/// One scope: variable bindings, native bindings, and the index of the
/// enclosing scope.
pub struct Environment {
    values: StringMap,
    functions: StringMap,
    enclosing: Option<usize>,
    is_global_scope: bool,
}

impl View for Environment {
    type V = GEnv;

    closed spec fn view(&self) -> GEnv {
        GEnv {
            values: self.values@,
            functions: self.functions@,
            enclosing: match self.enclosing {
                Option::Some(p) => Option::Some(p as int),
                Option::None => Option::None,
            },
            is_global: self.is_global_scope,
        }
    }
}

/// The models of the scopes of an arena, in order.
pub open spec fn genvs_of(s: Seq<Environment>) -> Seq<GEnv> {
    s.map_values(|e: Environment| e@)
}

/// Every scope's enclosing scope sits earlier in the arena.
pub open spec fn envs_wf(envs: Seq<GEnv>) -> bool {
    forall|j: int|
        0 <= j < envs.len() ==> match (#[trigger] envs[j]).enclosing {
            Option::Some(p) => 0 <= p < j,
            Option::None => true,
        }
}

pub open spec fn genv_define(e: GEnv, name: Seq<char>, v: GVal) -> GEnv {
    GEnv { values: e.values.insert(name, v), ..e }
}

/// Name lookup along the scope chain: the scope's own variables first,
/// then its native bindings, then the enclosing scope.
pub open spec fn genv_lookup(envs: Seq<GEnv>, i: int, name: Seq<char>) -> Option<GVal>
    decreases i,
    when 0 <= i < envs.len() && envs_wf(envs)
{
    let e = envs[i];
    if e.values.contains_key(name) {
        Option::Some(e.values[name])
    } else if e.functions.contains_key(name) {
        Option::Some(e.functions[name])
    } else {
        match e.enclosing {
            Option::Some(p) => genv_lookup(envs, p, name),
            Option::None => Option::None,
        }
    }
}

/// Assignment along the scope chain: overwrite where the name is found;
/// a name found nowhere leaves every scope unchanged and answers false.
pub open spec fn genv_assign(envs: Seq<GEnv>, i: int, name: Seq<char>, v: GVal) -> (
    Seq<GEnv>,
    bool,
)
    decreases i,
    when 0 <= i < envs.len() && envs_wf(envs)
{
    let e = envs[i];
    if e.values.contains_key(name) {
        (envs.update(i, GEnv { values: e.values.insert(name, v), ..e }), true)
    } else {
        match e.enclosing {
            Option::Some(p) => genv_assign(envs, p, name, v),
            Option::None => (envs, false),
        }
    }
}

impl Default for Environment {
    /// A bare scope: nothing bound, no enclosing scope, not global.
    fn default() -> (r: Environment)
        ensures
            r@.values == Map::<Seq<char>, GVal>::empty(),
            r@.functions == Map::<Seq<char>, GVal>::empty(),
            r@.enclosing is None,
            !r@.is_global,
    {
        Environment {
            values: StringMap::new(),
            functions: StringMap::new(),
            enclosing: Option::None,
            is_global_scope: false,
        }
    }
}

impl Environment {
    /// The global scope: empty variables, the native bindings, no
    /// enclosing scope.
    pub fn root() -> (r: Environment)
        ensures
            r@.values == Map::<Seq<char>, GVal>::empty(),
            r@.functions == native_bindings(),
            r@.enclosing is None,
            r@.is_global,
    {
        Environment {
            values: StringMap::new(),
            functions: native_functions(),
            enclosing: Option::None,
            is_global_scope: true,
        }
    }

    /// A fresh scope nested in the scope at `enclosing`.
    pub fn new(enclosing: usize) -> (r: Environment)
        ensures
            r@.values == Map::<Seq<char>, GVal>::empty(),
            r@.functions == Map::<Seq<char>, GVal>::empty(),
            r@.enclosing == Option::Some(enclosing as int),
            !r@.is_global,
    {
        Environment {
            values: StringMap::new(),
            functions: StringMap::new(),
            enclosing: Option::Some(enclosing),
            is_global_scope: false,
        }
    }

    pub fn is_global_scope(&self) -> (r: bool)
        ensures
            r == self@.is_global,
    {
        self.is_global_scope
    }

    /// Bind `name` in this scope, overwriting unconditionally.
    pub fn define(&mut self, name: String, value: Evaluation)
        ensures
            final(self)@ == genv_define(old(self)@, name@, value@),
    {
        self.values.insert(name, value);
    }

    /// Look `name` up from the scope at `i` outwards.
    pub fn get(envs: &Vec<Environment>, i: usize, name: &String) -> (r: Option<Evaluation>)
        requires
            envs_wf(genvs_of(envs@)),
            i < envs@.len(),
        ensures
            match r {
                Option::Some(v) => genv_lookup(genvs_of(envs@), i as int, name@) == Option::Some(
                    v@,
                ),
                Option::None => genv_lookup(genvs_of(envs@), i as int, name@) is None,
            },
        decreases i,
    {
        let e = &envs[i];
        match e.values.get(name) {
            Option::Some(v) => Option::Some(v.clone()),
            Option::None => match e.functions.get(name) {
                Option::Some(v) => Option::Some(v.clone()),
                Option::None => match e.enclosing {
                    Option::Some(p) => Environment::get(envs, p, name),
                    Option::None => Option::None,
                },
            },
        }
    }

    /// Assign to `name` from the scope at `i` outwards; false if the
    /// name is bound nowhere, in which case nothing changes.
    pub fn set(envs: &mut Vec<Environment>, i: usize, name: &String, value: Evaluation) -> (r:
        bool)
        requires
            envs_wf(genvs_of(old(envs)@)),
            i < old(envs)@.len(),
        ensures
            genvs_of(final(envs)@) == genv_assign(
                genvs_of(old(envs)@),
                i as int,
                name@,
                value@,
            ).0,
            r == genv_assign(genvs_of(old(envs)@), i as int, name@, value@).1,
            final(envs)@.len() == old(envs)@.len(),
        decreases i,
    {
        let found = match envs[i].values.get(name) {
            Option::Some(_) => true,
            Option::None => false,
        };
        if found {
            let e = &mut envs[i];
            e.values.insert(name.clone(), value);
            proof {
                assert(genvs_of(final(envs)@) =~= genv_assign(
                    genvs_of(old(envs)@),
                    i as int,
                    name@,
                    value@,
                ).0);
            }
            true
        } else {
            let p = match envs[i].enclosing {
                Option::Some(p) => p,
                Option::None => {
                    return false;
                },
            };
            let r = Environment::set(envs, p, name, value);
            r
        }
    }
}

/// What the global scope's native bindings hold: the single `clock`.
pub open spec fn native_bindings() -> Map<Seq<char>, GVal> {
    Map::<Seq<char>, GVal>::empty().insert(
        "clock"@,
        GVal::Func(crate::function::GFunction::Native { name: "clock"@, arity: 0 }),
    )
}

/// The captured environment for a closure: the global scope is shared,
/// any other scope is copied as it stands, sharing its enclosing chain.
pub fn persist_environment(envs: &mut Vec<Environment>, environment: usize) -> (r: usize)
    requires
        envs_wf(genvs_of(old(envs)@)),
        environment < old(envs)@.len(),
    ensures
        envs_wf(genvs_of(final(envs)@)),
        r < final(envs)@.len(),
        genvs_of(final(envs)@).subrange(0, old(envs)@.len() as int) == genvs_of(old(envs)@),
        if genvs_of(old(envs)@)[environment as int].is_global {
            r == environment && final(envs)@ == old(envs)@
        } else {
            final(envs)@.len() == old(envs)@.len() + 1 && r == old(envs)@.len() && genvs_of(
                final(envs)@,
            )[r as int] == genvs_of(old(envs)@)[environment as int]
        },
{
    if envs[environment].is_global_scope() {
        proof {
            assert(genvs_of(envs@).subrange(0, envs@.len() as int) =~= genvs_of(envs@));
        }
        environment
    } else {
        let e = &envs[environment];
        let copied = Environment {
            values: e.values.duplicate(),
            functions: e.functions.duplicate(),
            enclosing: e.enclosing,
            is_global_scope: e.is_global_scope,
        };
        let r = envs.len();
        envs.push(copied);
        proof {
            assert(genvs_of(envs@).subrange(0, old(envs)@.len() as int) =~= genvs_of(old(envs)@));
            assert(genvs_of(envs@)[r as int] == genvs_of(old(envs)@)[environment as int]);
            assert forall|j: int| 0 <= j < genvs_of(envs@).len() implies match (#[trigger] genvs_of(
                envs@,
            )[j]).enclosing {
                Option::Some(p) => 0 <= p < j,
                Option::None => true,
            } by {
                if j < old(envs)@.len() {
                    assert(genvs_of(envs@)[j] == genvs_of(old(envs)@)[j]);
                    assert(envs_wf(genvs_of(old(envs)@)));
                } else {
                    assert(genvs_of(envs@)[j] == genvs_of(old(envs)@)[environment as int]);
                }
            }
            assert(envs_wf(genvs_of(envs@)));
        }
        r
    }
}

} // verus!
