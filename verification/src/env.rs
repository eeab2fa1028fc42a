//! The environment that the programs in a terminal run in.
use crate::text::str_eq;
use vstd::prelude::*;

verus! {

/// Variables by name, each name once.
pub struct Env {
    pub vars: Vec<(String, String)>,
}

/// What variables, given one after the other, come to: a later one takes the place of an earlier
/// one of the same name.
pub open spec fn env_map(vars: Seq<(String, String)>) -> Map<Seq<char>, Seq<char>>
    decreases vars.len(),
{
    if vars.len() == 0 {
        Map::empty()
    } else {
        env_map(vars.drop_last()).insert(vars.last().0@, vars.last().1@)
    }
}

/// Whether no name is given twice.
pub open spec fn names_differ(vars: Seq<(String, String)>) -> bool {
    forall|i: int, j: int|
        0 <= i < j < vars.len() ==> (#[trigger] vars[i]).0@ != (#[trigger] vars[j]).0@
}

/// What a terminal sets for its programs: the language, where neither the process that it runs in
/// nor the caller has set one, and what it is.
pub open spec fn terminal_env(
    given: Map<Seq<char>, Seq<char>>,
    lang_is_set: bool,
    version: Seq<char>,
) -> Map<Seq<char>, Seq<char>> {
    (if !lang_is_set && !given.dom().contains("LANG"@) {
        given.insert("LANG"@, "en_US.UTF-8"@)
    } else {
        given
    }).insert("ZED_TERM"@, "true"@).insert("TERM_PROGRAM"@, "zed"@).insert(
        "TERM"@,
        "xterm-256color"@,
    ).insert("TERM_PROGRAM_VERSION"@, version)
}

proof fn env_map_has(vars: Seq<(String, String)>, name: Seq<char>)
    ensures
        env_map(vars).dom().contains(name) <==> exists|i: int|
            0 <= i < vars.len() && (#[trigger] vars[i]).0@ == name,
    decreases vars.len(),
{
    if vars.len() > 0 {
        env_map_has(vars.drop_last(), name);
        if vars.last().0@ == name {
            assert(vars[vars.len() - 1].0@ == name);
        } else if env_map(vars).dom().contains(name) {
            let i = choose|i: int|
                0 <= i < vars.drop_last().len() && (#[trigger] vars.drop_last()[i]).0@ == name;
            assert(vars[i].0@ == name);
        } else if exists|i: int| 0 <= i < vars.len() && (#[trigger] vars[i]).0@ == name {
            let i = choose|i: int| 0 <= i < vars.len() && (#[trigger] vars[i]).0@ == name;
            assert(vars.drop_last()[i].0@ == name);
        }
    }
}

proof fn env_map_updated(vars: Seq<(String, String)>, i: int, var: (String, String))
    requires
        0 <= i < vars.len(),
        names_differ(vars),
        var.0@ == vars[i].0@,
    ensures
        env_map(vars.update(i, var)) == env_map(vars).insert(var.0@, var.1@),
        names_differ(vars.update(i, var)),
    decreases vars.len(),
{
    let after = vars.update(i, var);
    let last = vars.last();
    if i == vars.len() - 1 {
        assert(after.drop_last() =~= vars.drop_last());
        assert(env_map(after) =~= env_map(vars).insert(var.0@, var.1@));
    } else {
        assert(after.drop_last() =~= vars.drop_last().update(i, var));
        env_map_updated(vars.drop_last(), i, var);
        assert(vars[i].0@ != vars[vars.len() - 1].0@);
        assert(env_map(after) =~= env_map(vars).insert(var.0@, var.1@));
    }
    assert forall|a: int, b: int| 0 <= a < b < after.len() implies (#[trigger] after[a]).0@ != (
    #[trigger] after[b]).0@ by {
        assert(after[a].0@ == vars[a].0@);
        assert(after[b].0@ == vars[b].0@);
    }
}

impl View for Env {
    type V = Map<Seq<char>, Seq<char>>;

    open spec fn view(&self) -> Map<Seq<char>, Seq<char>> {
        env_map(self.vars@)
    }
}

impl Env {
    /// Whether each name is there once.
    pub open spec fn well_formed(self) -> bool {
        names_differ(self.vars@)
    }

    /// No variables.
    pub fn new() -> (env: Env)
        ensures
            env.well_formed(),
            env@ == Map::<Seq<char>, Seq<char>>::empty(),
    {
        Env { vars: Vec::new() }
    }

    /// Where a variable is, if it is there.
    fn position(&self, name: &str) -> (at: Option<usize>)
        ensures
            match at {
                Some(i) => i < self.vars@.len() && self.vars@[i as int].0@ == name@,
                None => forall|i: int|
                    0 <= i < self.vars@.len() ==> (#[trigger] self.vars@[i]).0@ != name@,
            },
    {
        for i in 0..self.vars.len()
            invariant
                forall|j: int| 0 <= j < i ==> (#[trigger] self.vars@[j]).0@ != name@,
        {
            if str_eq(self.vars[i].0.as_str(), name) {
                return Some(i);
            }
        }
        None
    }

    /// Whether a variable is there.
    pub fn contains(&self, name: &str) -> (r: bool)
        ensures
            r == self@.dom().contains(name@),
    {
        proof {
            env_map_has(self.vars@, name@);
        }
        match self.position(name) {
            Some(i) => {
                assert(self.vars@[i as int].0@ == name@);
                true
            },
            None => false,
        }
    }

    /// Sets a variable.
    pub fn insert(&mut self, name: String, value: String)
        requires
            old(self).well_formed(),
        ensures
            final(self).well_formed(),
            final(self)@ == old(self)@.insert(name@, value@),
    {
        match self.position(name.as_str()) {
            Some(i) => {
                proof {
                    env_map_updated(self.vars@, i as int, (name, value));
                }
                self.vars.set(i, (name, value));
            },
            None => {
                let ghost before = self.vars@;
                self.vars.push((name, value));
                assert(self.vars@.drop_last() =~= before);
                assert(self.well_formed());
            },
        }
    }

    /// The variables, of which a later one takes the place of an earlier one of the same name.
    pub fn of(vars: Vec<(String, String)>) -> (env: Env)
        ensures
            env.well_formed(),
            env@ == env_map(vars@),
    {
        let mut env = Env::new();
        assert(vars@.take(0) =~= Seq::<(String, String)>::empty());
        for i in 0..vars.len()
            invariant
                env.well_formed(),
                env@ == env_map(vars@.take(i as int)),
        {
            assert(vars@.take(i + 1).drop_last() =~= vars@.take(i as int));
            env.insert(vars[i].0.clone(), vars[i].1.clone());
        }
        assert(vars@.take(vars@.len() as int) =~= vars@);
        env
    }

    /// Sets what a terminal sets for its programs. `lang_is_set` tells whether the process that it
    /// runs in has a language set.
    pub fn set_up(&mut self, lang_is_set: bool, version: &str)
        requires
            old(self).well_formed(),
        ensures
            final(self).well_formed(),
            final(self)@ == terminal_env(old(self)@, lang_is_set, version@),
    {
        if !lang_is_set && !self.contains("LANG") {
            self.insert("LANG".to_owned(), "en_US.UTF-8".to_owned());
        }
        self.insert("ZED_TERM".to_owned(), "true".to_owned());
        self.insert("TERM_PROGRAM".to_owned(), "zed".to_owned());
        self.insert("TERM".to_owned(), "xterm-256color".to_owned());
        self.insert("TERM_PROGRAM_VERSION".to_owned(), version.to_owned());
    }
}

} // verus!
