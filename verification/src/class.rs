//! Classes and instances.
//!
//! A class holds its name, an optional superclass (always created
//! earlier, so its handle is smaller) and the class environment whose
//! entries are the methods.  An instance holds its class and its field
//! map.  Property lookup reads fields first, then the methods of the
//! class, then each ancestor class in order up the chain; a method is
//! handed back bound to the instance and to the environment it was
//! found in, which is what makes `super` resolve relative to the
//! declaring class.
use crate::environment::{envs_wf, genv_lookup, genvs_of, Environment, GEnv, StringMap};
use crate::evaluation::{ClassMethod, Evaluation, GMethod, GVal};
use crate::interruption::{RuntimeError, RuntimeErrorKind};
use vstd::prelude::*;

verus! {

pub struct Class {
    pub name: String,
    pub super_class: Option<usize>,
    pub class_environment: usize,
}

/// The mathematical shape of a class.
#[verifier::ext_equal]
pub struct GClass {
    pub name: Seq<char>,
    pub super_class: Option<int>,
    pub class_environment: int,
}

impl View for Class {
    type V = GClass;

    open spec fn view(&self) -> GClass {
        GClass {
            name: self.name@,
            super_class: match self.super_class {
                Option::Some(s) => Option::Some(s as int),
                Option::None => Option::None,
            },
            class_environment: self.class_environment as int,
        }
    }
}

pub open spec fn gclasses_of(s: Seq<Class>) -> Seq<GClass> {
    s.map_values(|c: Class| c@)
}

/// Each class's environment lies in the arena and each superclass was
/// created before the classes that inherit from it.
pub open spec fn classes_wf(classes: Seq<GClass>, envs_len: int) -> bool {
    forall|c: int|
        0 <= c < classes.len() ==> {
            &&& 0 <= (#[trigger] classes[c]).class_environment < envs_len
            &&& match classes[c].super_class {
                Option::Some(s) => 0 <= s < c,
                Option::None => true,
            }
        }
}

pub struct ClassInstance {
    class: usize,
    fields: StringMap,
}

/// The mathematical shape of an instance.
#[verifier::ext_equal]
pub struct GInst {
    pub class: int,
    pub fields: Map<Seq<char>, GVal>,
}

impl View for ClassInstance {
    type V = GInst;

    closed spec fn view(&self) -> GInst {
        GInst { class: self.class as int, fields: self.fields@ }
    }
}

pub open spec fn ginsts_of(s: Seq<ClassInstance>) -> Seq<GInst> {
    s.map_values(|i: ClassInstance| i@)
}

/// Method search up the superclass chain: the first ancestor whose
/// class environment resolves the name to a function yields that
/// function bound to the instance and to that ancestor's environment.
pub open spec fn spec_get_field_super(
    envs: Seq<GEnv>,
    classes: Seq<GClass>,
    inst: int,
    super_c: Option<int>,
    name: Seq<char>,
) -> Option<GVal>
    decreases (match super_c {
        Option::Some(c) => c + 1,
        Option::None => 0,
    }),
    when envs_wf(envs) && classes_wf(classes, envs.len() as int) && (match super_c {
        Option::Some(c) => 0 <= c < classes.len(),
        Option::None => true,
    })
{
    match super_c {
        Option::None => Option::None,
        Option::Some(c) => {
            let env_i = classes[c].class_environment;
            match genv_lookup(envs, env_i, name) {
                Option::Some(GVal::Func(f)) => Option::Some(
                    GVal::Method(
                        GMethod { func: f, class_instance: inst, method_environment: env_i },
                    ),
                ),
                _ => spec_get_field_super(envs, classes, inst, classes[c].super_class, name),
            }
        },
    }
}

/// Property lookup on an instance, starting at the given class: the
/// instance's own fields first, then that class's environment, then the
/// superclass chain of the instance's class.  `None` stands for the
/// undefined-property error.
pub open spec fn spec_get_field_for_class(
    envs: Seq<GEnv>,
    classes: Seq<GClass>,
    instances: Seq<GInst>,
    inst: int,
    cls: int,
    name: Seq<char>,
) -> Option<GVal> {
    let fields = instances[inst].fields;
    if fields.contains_key(name) {
        Option::Some(fields[name])
    } else {
        let env_i = classes[cls].class_environment;
        match genv_lookup(envs, env_i, name) {
            Option::Some(GVal::Func(f)) => Option::Some(
                GVal::Method(GMethod { func: f, class_instance: inst, method_environment: env_i }),
            ),
            _ => spec_get_field_super(
                envs,
                classes,
                inst,
                classes[instances[inst].class].super_class,
                name,
            ),
        }
    }
}

impl ClassInstance {
    /// A fresh instance of the class, with no fields yet.
    pub fn new_of_class(class: usize) -> (r: ClassInstance)
        ensures
            r@.class == class as int,
            r@.fields == Map::<Seq<char>, GVal>::empty(),
    {
        ClassInstance { class, fields: StringMap::new() }
    }

    pub fn class(&self) -> (r: usize)
        ensures
            r as int == self@.class,
    {
        self.class
    }

    /// Write a field; a field is created on first assignment.
    pub fn set_field(&mut self, name: String, value: Evaluation)
        ensures
            final(self)@.class == old(self)@.class,
            final(self)@.fields == old(self)@.fields.insert(name@, value@),
    {
        self.fields.insert(name, value);
    }

    fn get_field_super(
        instances: &Vec<ClassInstance>,
        classes: &Vec<Class>,
        envs: &Vec<Environment>,
        inst: usize,
        super_c: Option<usize>,
        name: &String,
    ) -> (r: Result<Evaluation, RuntimeError>)
        requires
            envs_wf(genvs_of(envs@)),
            classes_wf(gclasses_of(classes@), envs@.len() as int),
            inst < instances@.len(),
            match super_c {
                Option::Some(c) => c < classes@.len(),
                Option::None => true,
            },
        ensures
            match spec_get_field_super(
                genvs_of(envs@),
                gclasses_of(classes@),
                inst as int,
                match super_c {
                    Option::Some(c) => Option::Some(c as int),
                    Option::None => Option::None,
                },
                name@,
            ) {
                Option::Some(v) => r matches Result::Ok(e) && e@ == v,
                Option::None => r matches Result::Err(err) && err@.kind
                    == RuntimeErrorKind::UndefinedProperty && err@.detail == name@,
            },
        decreases (match super_c {
            Option::Some(c) => c + 1,
            Option::None => 0,
        }),
    {
        match super_c {
            Option::None => Result::Err(
                RuntimeError { kind: RuntimeErrorKind::UndefinedProperty, detail: name.clone() },
            ),
            Option::Some(c) => {
                let env_i = classes[c].class_environment;
                let found = Environment::get(envs, env_i, name);
                match found {
                    Option::Some(Evaluation::Func(f)) => Result::Ok(
                        Evaluation::ClassMethod(
                            ClassMethod {
                                func: f,
                                class_instance: inst,
                                method_environment: env_i,
                            },
                        ),
                    ),
                    _ => ClassInstance::get_field_super(
                        instances,
                        classes,
                        envs,
                        inst,
                        classes[c].super_class,
                        name,
                    ),
                }
            },
        }
    }

    /// Property lookup starting at the given class, as
    /// `spec_get_field_for_class` describes it.
    pub fn get_filed_for_class(
        instances: &Vec<ClassInstance>,
        classes: &Vec<Class>,
        envs: &Vec<Environment>,
        inst: usize,
        class: usize,
        name: &String,
    ) -> (r: Result<Evaluation, RuntimeError>)
        requires
            envs_wf(genvs_of(envs@)),
            classes_wf(gclasses_of(classes@), envs@.len() as int),
            inst < instances@.len(),
            class < classes@.len(),
            ginsts_of(instances@)[inst as int].class < classes@.len(),
            0 <= ginsts_of(instances@)[inst as int].class,
        ensures
            match spec_get_field_for_class(
                genvs_of(envs@),
                gclasses_of(classes@),
                ginsts_of(instances@),
                inst as int,
                class as int,
                name@,
            ) {
                Option::Some(v) => r matches Result::Ok(e) && e@ == v,
                Option::None => r matches Result::Err(err) && err@.kind
                    == RuntimeErrorKind::UndefinedProperty && err@.detail == name@,
            },
    {
        let found = instances[inst].fields.get(name);
        match found {
            Option::Some(v) => Result::Ok(v.clone()),
            Option::None => {
                let env_i = classes[class].class_environment;
                let in_env = Environment::get(envs, env_i, name);
                match in_env {
                    Option::Some(Evaluation::Func(f)) => Result::Ok(
                        Evaluation::ClassMethod(
                            ClassMethod {
                                func: f,
                                class_instance: inst,
                                method_environment: env_i,
                            },
                        ),
                    ),
                    _ => {
                        let ic = instances[inst].class;
                        ClassInstance::get_field_super(
                            instances,
                            classes,
                            envs,
                            inst,
                            classes[ic].super_class,
                            name,
                        )
                    },
                }
            },
        }
    }

    /// Property lookup starting at the instance's own class.
    pub fn get_field(
        instances: &Vec<ClassInstance>,
        classes: &Vec<Class>,
        envs: &Vec<Environment>,
        inst: usize,
        name: &String,
    ) -> (r: Result<Evaluation, RuntimeError>)
        requires
            envs_wf(genvs_of(envs@)),
            classes_wf(gclasses_of(classes@), envs@.len() as int),
            inst < instances@.len(),
            ginsts_of(instances@)[inst as int].class < classes@.len(),
            0 <= ginsts_of(instances@)[inst as int].class,
        ensures
            match spec_get_field_for_class(
                genvs_of(envs@),
                gclasses_of(classes@),
                ginsts_of(instances@),
                inst as int,
                ginsts_of(instances@)[inst as int].class,
                name@,
            ) {
                Option::Some(v) => r matches Result::Ok(e) && e@ == v,
                Option::None => r matches Result::Err(err) && err@.kind
                    == RuntimeErrorKind::UndefinedProperty && err@.detail == name@,
            },
    {
        let ic = instances[inst].class;
        ClassInstance::get_filed_for_class(instances, classes, envs, inst, ic, name)
    }

    /// The bound `init` method, where the class hierarchy defines one.
    pub fn get_constructor(
        instances: &Vec<ClassInstance>,
        classes: &Vec<Class>,
        envs: &Vec<Environment>,
        inst: usize,
    ) -> (r: Result<Evaluation, RuntimeError>)
        requires
            envs_wf(genvs_of(envs@)),
            classes_wf(gclasses_of(classes@), envs@.len() as int),
            inst < instances@.len(),
            ginsts_of(instances@)[inst as int].class < classes@.len(),
            0 <= ginsts_of(instances@)[inst as int].class,
        ensures
            match spec_get_field_for_class(
                genvs_of(envs@),
                gclasses_of(classes@),
                ginsts_of(instances@),
                inst as int,
                ginsts_of(instances@)[inst as int].class,
                "init"@,
            ) {
                Option::Some(v) => r matches Result::Ok(e) && e@ == v,
                Option::None => r matches Result::Err(err) && err@.kind
                    == RuntimeErrorKind::UndefinedProperty && err@.detail == "init"@,
            },
    {
        let name = String::from_str("init");
        ClassInstance::get_field(instances, classes, envs, inst, &name)
    }
}

impl ClassMethod {
    /// Whether this method is the class initializer.
    pub fn is_constructor(&self) -> (r: bool)
        ensures
            r == (crate::function::gfunction_name(self@.func) == "init"@),
    {
        *self.func.name() == String::from_str("init")
    }
}

} // verus!
