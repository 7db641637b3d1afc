//! A snapshot of environment variables, handed in by the caller.
//!
//! What a build inherits is a value of [`Environment`], so every decision that depends on a
//! variable is a function of its arguments, and the compiler probe is handed the snapshot as
//! its environment. One thing is still read from the process itself: the search for
//! executables goes by the search path that the process has at that moment. A caller who
//! hands in a snapshot that differs from the environment of the process gets a plan for the
//! snapshot with tools found on the search path of the process.

use vstd::prelude::*;
use vstd::string::*;
use crate::text::same_text;

verus! {

/// One variable: its name and its value.
#[derive(Debug, Clone, PartialEq, Eq)]
pub struct EnvVar {
    pub name: String,
    pub value: String,
}

impl View for EnvVar {
    type V = (Seq<char>, Seq<char>);

    open spec fn view(&self) -> (Seq<char>, Seq<char>) {
        (self.name@, self.value@)
    }
}

/// Each variable of `vars` as a pair of name and value.
pub open spec fn spec_vars(vars: Seq<EnvVar>) -> Seq<(Seq<char>, Seq<char>)> {
    Seq::new(vars.len(), |i: int| vars[i]@)
}

/// The value that `vars` gives `name`: that of the last entry of that name.
pub open spec fn spec_lookup(vars: Seq<(Seq<char>, Seq<char>)>, name: Seq<char>) -> Option<
    Seq<char>,
>
    decreases vars.len(),
{
    if vars.len() == 0 {
        None
    } else if vars.last().0 == name {
        Some(vars.last().1)
    } else {
        spec_lookup(vars.drop_last(), name)
    }
}

/// Whether `vars` gives `name` a value.
pub open spec fn spec_is_set(vars: Seq<(Seq<char>, Seq<char>)>, name: Seq<char>) -> bool {
    spec_lookup(vars, name) is Some
}

/// The environment of a process that inherits `env` and has `extra` set on top of it.
pub open spec fn spec_build_env(
    env: Seq<(Seq<char>, Seq<char>)>,
    extra: Seq<(Seq<char>, Seq<char>)>,
) -> Seq<(Seq<char>, Seq<char>)> {
    env + extra
}

/// The characters of an optional text.
pub open spec fn spec_opt_text(text: Option<String>) -> Option<Seq<char>> {
    match text {
        Some(t) => Some(t@),
        None => None,
    }
}

/// Pushing a variable onto a list pushes its pair onto the list's pairs.
pub proof fn lemma_vars_push(vars: Seq<EnvVar>, last: EnvVar)
    ensures
        spec_vars(vars.push(last)) == spec_vars(vars).push(last@),
{
    assert(spec_vars(vars.push(last)) =~= spec_vars(vars).push(last@));
}

/// The variables a build inherits.
#[derive(Debug, Clone, PartialEq, Eq)]
pub struct Environment {
    pub vars: Vec<EnvVar>,
}

impl View for Environment {
    type V = Seq<(Seq<char>, Seq<char>)>;

    open spec fn view(&self) -> Seq<(Seq<char>, Seq<char>)> {
        spec_vars(self.vars@)
    }
}

impl EnvVar {
    /// The variable `name` with the value `value`.
    pub fn new(name: &str, value: &str) -> (r: EnvVar)
        ensures
            r@ == (name@, value@),
    {
        EnvVar { name: name.to_owned(), value: value.to_owned() }
    }
}

impl Environment {
    /// The environment without any variable.
    pub fn new() -> (r: Environment)
        ensures
            r@ == Seq::<(Seq<char>, Seq<char>)>::empty(),
    {
        let r = Environment { vars: Vec::new() };
        assert(r@ =~= Seq::<(Seq<char>, Seq<char>)>::empty());
        r
    }

    /// Gives `name` the value `value`, whatever it had before.
    pub fn set(&mut self, name: &str, value: &str)
        ensures
            final(self)@ == old(self)@.push((name@, value@)),
            spec_lookup(final(self)@, name@) == Some(value@),
    {
        let var = EnvVar::new(name, value);
        proof {
            lemma_vars_push(self.vars@, var);
        }
        self.vars.push(var);
    }

    /// The value of `name`, if it has one.
    pub fn get(&self, name: &str) -> (r: Option<String>)
        ensures
            spec_opt_text(r) == spec_lookup(self@, name@),
    {
        let mut i: usize = self.vars.len();
        assert(self@.subrange(0, i as int) =~= self@);
        while i > 0
            invariant
                i <= self.vars.len(),
                spec_lookup(self@, name@) == spec_lookup(self@.subrange(0, i as int), name@),
            decreases i,
        {
            let ghost head = self@.subrange(0, i as int);
            assert(head.last() == self.vars@[i - 1]@);
            assert(head.drop_last() =~= self@.subrange(0, i - 1));
            if same_text(self.vars[i - 1].name.as_str(), name) {
                return Some(self.vars[i - 1].value.clone());
            }
            i = i - 1;
        }
        None
    }

    /// A copy of this environment.
    pub fn duplicate(&self) -> (r: Environment)
        ensures
            r@ == self@,
    {
        let mut vars: Vec<EnvVar> = Vec::new();
        let mut i: usize = 0;
        while i < self.vars.len()
            invariant
                i <= self.vars.len(),
                spec_vars(vars@) == self@.subrange(0, i as int),
            decreases self.vars.len() - i,
        {
            let var = EnvVar { name: self.vars[i].name.clone(), value: self.vars[i].value.clone() };
            proof {
                lemma_vars_push(vars@, var);
            }
            vars.push(var);
            assert(spec_vars(vars@) =~= self@.subrange(0, i + 1));
            i = i + 1;
        }
        assert(self@.subrange(0, self.vars@.len() as int) =~= self@);
        Environment { vars }
    }

    /// The environment of a process that inherits this one and has `extra` set on top of it.
    pub fn overlaid(&self, extra: &Vec<EnvVar>) -> (r: Environment)
        ensures
            r@ == spec_build_env(self@, spec_vars(extra@)),
    {
        let mut all = self.duplicate();
        let mut i: usize = 0;
        while i < extra.len()
            invariant
                i <= extra.len(),
                all@ == self@ + spec_vars(extra@).subrange(0, i as int),
            decreases extra.len() - i,
        {
            all.set(extra[i].name.as_str(), extra[i].value.as_str());
            assert(all@ =~= self@ + spec_vars(extra@).subrange(0, i + 1));
            i = i + 1;
        }
        assert(spec_vars(extra@).subrange(0, extra@.len() as int) =~= spec_vars(extra@));
        all
    }

    /// Whether `name` has a value.
    pub fn is_set(&self, name: &str) -> (r: bool)
        ensures
            r == spec_is_set(self@, name@),
    {
        self.get(name).is_some()
    }
}

} // verus!
