//! Commands that run as a user: a program, its arguments, and the environment it gets.

use vstd::prelude::*;
use vstd::string::*;
use crate::text::same_text;

verus! {

/// A variable of an environment.
#[derive(Debug)]
pub struct EnvVar {
    /// The name.
    pub name: String,
    /// The value.
    pub value: String,
}

impl View for EnvVar {
    type V = (Seq<char>, Seq<char>);

    open spec fn view(&self) -> (Seq<char>, Seq<char>) {
        (self.name@, self.value@)
    }
}

/// Variables as names and values.
pub open spec fn env_view(vars: Seq<EnvVar>) -> Seq<(Seq<char>, Seq<char>)> {
    vars.map_values(|v: EnvVar| v@)
}

/// No two variables have the same name.
pub open spec fn distinct_names(vars: Seq<(Seq<char>, Seq<char>)>) -> bool {
    forall|i: int, j: int|
        0 <= i < j < vars.len() ==> (#[trigger] vars[i]).0 != (#[trigger] vars[j]).0
}

/// What setting the given variables one after the other comes to.
pub open spec fn env_map(vars: Seq<(Seq<char>, Seq<char>)>) -> Map<Seq<char>, Seq<char>>
    decreases vars.len(),
{
    if vars.len() == 0 {
        Map::empty()
    } else {
        env_map(vars.drop_last()).insert(vars.last().0, vars.last().1)
    }
}

/// An environment: each variable in it has one value.
#[derive(Debug)]
pub struct Env {
    vars: Vec<EnvVar>,
}

impl View for Env {
    type V = Map<Seq<char>, Seq<char>>;

    closed spec fn view(&self) -> Map<Seq<char>, Seq<char>> {
        env_map(env_view(self.vars@))
    }
}

proof fn lemma_env_map_update(
    vars: Seq<(Seq<char>, Seq<char>)>,
    i: int,
    name: Seq<char>,
    value: Seq<char>,
)
    requires
        distinct_names(vars),
        0 <= i < vars.len(),
        vars[i].0 == name,
    ensures
        env_map(vars.update(i, (name, value))) == env_map(vars).insert(name, value),
    decreases vars.len(),
{
    let changed = vars.update(i, (name, value));
    if i == vars.len() - 1 {
        assert(changed.drop_last() == vars.drop_last());
        assert(env_map(changed) == env_map(vars).insert(name, value));
    } else {
        assert(changed.drop_last() == vars.drop_last().update(i, (name, value)));
        assert(vars.drop_last()[i] == vars[i]);
        lemma_env_map_update(vars.drop_last(), i, name, value);
        assert(env_map(changed) == env_map(vars).insert(name, value));
    }
}

impl Env {
    #[verifier::type_invariant]
    spec fn has_distinct_names(self) -> bool {
        distinct_names(env_view(self.vars@))
    }

    /// An environment without variables.
    pub fn new() -> (r: Env)
        ensures
            r@ == Map::<Seq<char>, Seq<char>>::empty(),
    {
        Env { vars: Vec::new() }
    }

    /// The environment with the given variable set; a value that it had before is gone.
    pub fn with(self, name: &str, value: String) -> (r: Env)
        ensures
            r@ == self@.insert(name@, value@),
    {
        proof {
            use_type_invariant(&self);
        }
        let ghost before = env_view(self.vars@);
        let mut vars = self.vars;
        let n: usize = vars.len();
        let mut i: usize = 0;
        while i < n && !same_text(vars[i].name.as_str(), name)
            invariant
                i <= n,
                n == vars.len(),
                env_view(vars@) == before,
                forall|j: int| 0 <= j < i ==> (#[trigger] before[j]).0 != name@,
            decreases n - i,
        {
            assert(before[i as int].0 == vars[i as int].name@);
            i += 1;
        }
        let ghost pair = (name@, value@);
        if i < n {
            assert(before[i as int].0 == vars[i as int].name@);
            vars.set(i, EnvVar { name: name.to_owned(), value });
            proof {
                assert(env_view(vars@) == before.update(i as int, pair));
                lemma_env_map_update(before, i as int, name@, pair.1);
            }
        } else {
            vars.push(EnvVar { name: name.to_owned(), value });
            proof {
                assert(env_view(vars@) == before.push(pair));
                assert(before.push(pair).drop_last() == before);
            }
        }
        Env { vars }
    }

    /// The variables, each named once.
    pub fn vars(&self) -> (r: &Vec<EnvVar>)
        ensures
            env_map(env_view(r@)) == self@,
            distinct_names(env_view(r@)),
    {
        proof {
            use_type_invariant(self);
        }
        &self.vars
    }

    /// A copy of the environment.
    pub fn copy(&self) -> (r: Env)
        ensures
            r@ == self@,
    {
        proof {
            use_type_invariant(self);
        }
        let n: usize = self.vars.len();
        let mut vars: Vec<EnvVar> = Vec::new();
        let mut i: usize = 0;
        while i < n
            invariant
                i <= n,
                n == self.vars.len(),
                vars.len() == i,
                forall|j: int| 0 <= j < i ==> (#[trigger] vars[j])@ == self.vars[j]@,
            decreases n - i,
        {
            vars.push(
                EnvVar { name: self.vars[i].name.clone(), value: self.vars[i].value.clone() },
            );
            i += 1;
        }
        assert(env_view(vars@) == env_view(self.vars@));
        Env { vars }
    }
}

/// A command to run as a user.
#[derive(Debug)]
pub struct UserCommand {
    /// The program.
    pub program: String,
    /// Its arguments.
    pub args: Vec<String>,
    /// The user to run it as.
    pub uid: u32,
    /// The group to run it as.
    pub gid: u32,
    /// The variables to set in its environment.
    pub envs: Env,
}

/// A command over plain sequences.
pub struct UserCommandView {
    pub program: Seq<char>,
    pub args: Seq<Seq<char>>,
    pub uid: u32,
    pub gid: u32,
    pub envs: Map<Seq<char>, Seq<char>>,
}

impl View for UserCommand {
    type V = UserCommandView;

    open spec fn view(&self) -> UserCommandView {
        UserCommandView {
            program: self.program@,
            args: crate::text::views(self.args@),
            uid: self.uid,
            gid: self.gid,
            envs: self.envs@,
        }
    }
}

/// An environment has exactly the variables that are listed, each with the value that is listed
/// with its name.
pub proof fn law_environment_is_what_is_listed(vars: Seq<(Seq<char>, Seq<char>)>)
    requires
        forall|i: int, j: int|
            0 <= i < j < vars.len() ==> (#[trigger] vars[i]).0 != (#[trigger] vars[j]).0,
    ensures
        forall|i: int| 0 <= i < vars.len() ==> env_map(vars).dom().contains((#[trigger] vars[i]).0)
            && env_map(vars)[vars[i].0] == vars[i].1,
        forall|name: Seq<char>| #[trigger] env_map(vars).dom().contains(name) ==> exists|i: int|
            0 <= i < vars.len() && (#[trigger] vars[i]).0 == name,
    decreases vars.len(),
{
    if vars.len() > 0 {
        let rest = vars.drop_last();
        assert forall|i: int, j: int| 0 <= i < j < rest.len() implies (#[trigger] rest[i]).0 != (
        #[trigger] rest[j]).0 by {
            assert(vars[i].0 != vars[j].0);
        }
        law_environment_is_what_is_listed(rest);
        assert forall|i: int| 0 <= i < vars.len() implies env_map(vars).dom().contains(
            (#[trigger] vars[i]).0,
        ) && env_map(vars)[vars[i].0] == vars[i].1 by {
            if i < rest.len() {
                assert(rest[i] == vars[i]);
                assert(vars[i].0 != vars[vars.len() - 1].0);
            }
        }
        assert forall|name: Seq<char>| #[trigger]
            env_map(vars).dom().contains(name) implies exists|i: int|
            0 <= i < vars.len() && (#[trigger] vars[i]).0 == name by {
            if name == vars.last().0 {
                assert(vars[vars.len() - 1].0 == name);
            } else {
                assert(env_map(rest).dom().contains(name));
                let i = choose|i: int| 0 <= i < rest.len() && (#[trigger] rest[i]).0 == name;
                assert(vars[i].0 == name);
            }
        }
    }
}

/// A fresh environment is empty. Setting a variable gives it that value and leaves every other
/// variable as it was, and a copy has the same variables.
pub proof fn law_variable_is_set(
    fresh: Env,
    env: Env,
    name: &str,
    value: String,
    r: Env,
    same: Env,
)
    requires
        call_ensures(Env::new, (), fresh),
        call_ensures(Env::with, (env, name, value), r),
        call_ensures(Env::copy, (&env,), same),
    ensures
        fresh@.dom() == Set::<Seq<char>>::empty(),
        r@.dom().contains(name@) && r@[name@] == value@,
        forall|other: Seq<char>|
            other != name@ ==> (#[trigger] r@.dom().contains(other) <==> env@.dom().contains(other))
                && (env@.dom().contains(other) ==> r@[other] == env@[other]),
        same@ == env@,
{
}

/// The variables that an environment lists are exactly those that it has, each once and with its
/// value.
pub proof fn law_variables_are_listed(env: Env, vars: &Vec<EnvVar>)
    requires
        call_ensures(Env::vars, (&env,), vars),
    ensures
        forall|i: int|
            0 <= i < vars@.len() ==> env@.dom().contains((#[trigger] vars@[i]).name@)
                && env@[vars@[i].name@] == vars@[i].value@,
        forall|name: Seq<char>| #[trigger] env@.dom().contains(name) ==> exists|i: int|
            0 <= i < vars@.len() && (#[trigger] vars@[i]).name@ == name,
        forall|i: int, j: int|
            0 <= i < j < vars@.len() ==> (#[trigger] vars@[i]).name@ != (#[trigger] vars@[j]).name@,
{
    let listed = env_view(vars@);
    assert(listed.len() == vars@.len());
    assert forall|i: int| 0 <= i < vars@.len() implies listed[i] == (
        (#[trigger] vars@[i]).name@,
        vars@[i].value@,
    ) by {}
    law_environment_is_what_is_listed(listed);
    assert forall|i: int| 0 <= i < vars@.len() implies env@.dom().contains(
        (#[trigger] vars@[i]).name@,
    ) && env@[vars@[i].name@] == vars@[i].value@ by {
        assert(env_map(listed).dom().contains(listed[i].0));
    }
    assert forall|name: Seq<char>| #[trigger] env@.dom().contains(name) implies exists|i: int|
        0 <= i < vars@.len() && (#[trigger] vars@[i]).name@ == name by {
        let i = choose|i: int| 0 <= i < listed.len() && (#[trigger] listed[i]).0 == name;
        assert(vars@[i].name@ == name);
    }
    assert forall|i: int, j: int| 0 <= i < j < vars@.len() implies (#[trigger] vars@[i]).name@ != (
    #[trigger] vars@[j]).name@ by {
        assert(listed[i].0 != listed[j].0);
    }
}

} // verus!
