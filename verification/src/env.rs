use vstd::prelude::*;

use crate::model;
use crate::model::EnvModel;


verus! {

/// An abstract interface to the environment functionality of a
/// platform: command-line arguments, environment variables and the
/// current directory.
pub trait Env {
    /// The abstract state of this environment.
    spec fn env_model(&self) -> EnvModel;

    /// Returns the command-line arguments.
    fn args(&self) -> (args: &[String])
        ensures
            model::strings_view(args@) == self.env_model().args,
    ;

    /// Returns the current directory.
    fn current_dir(&self) -> (dir: &str)
        ensures
            dir@ == self.env_model().current_dir,
    ;

    /// Removes the environment variable with the given key and returns its
    /// value if it existed.
    fn remove_var(&mut self, key: &str) -> (removed: Option<String>)
        ensures
            model::opt_string_view(removed) == model::lookup(old(self).env_model().vars, key@),
            final(self).env_model().vars == model::remove_entry(old(self).env_model().vars, key@),
            final(self).env_model().args == old(self).env_model().args,
            final(self).env_model().current_dir == old(self).env_model().current_dir,
    ;

    /// Sets the current directory to the given path and returns the
    /// previous current directory.
    fn set_current_dir(&mut self, path: &str) -> (previous: String)
        ensures
            previous@ == old(self).env_model().current_dir,
            final(self).env_model().current_dir == path@,
            final(self).env_model().args == old(self).env_model().args,
            final(self).env_model().vars == old(self).env_model().vars,
    ;

    /// Sets the environment variable with the given key to the given value
    /// and returns the previous value if it existed.
    fn set_var(&mut self, key: &str, value: &str) -> (previous: Option<String>)
        ensures
            model::opt_string_view(previous) == model::lookup(old(self).env_model().vars, key@),
            final(self).env_model().vars == model::set_entry(
                old(self).env_model().vars,
                key@,
                value@,
            ),
            final(self).env_model().args == old(self).env_model().args,
            final(self).env_model().current_dir == old(self).env_model().current_dir,
    ;

    /// Returns the value of the environment variable with the given key,
    /// if it exists.
    fn var(&self, key: &str) -> (value: Option<&str>)
        ensures
            model::opt_str_view(value) == model::lookup(self.env_model().vars, key@),
    ;

    /// Returns all environment variables as key-value pairs, in order.
    fn vars(&self) -> (vars: &[(String, String)])
        ensures
            model::pairs_view(vars@) == self.env_model().vars,
    ;
}

/// In-process, memory-only environment. Its values are loaded once when it
/// is created and then used throughout its lifetime.
pub struct EnvImpl {
    pub(crate) args: Vec<String>,
    pub(crate) vars: Vec<(String, String)>,
    pub(crate) current_dir: String,
}

impl EnvImpl {
    /// Creates an environment with no arguments, no variables and an empty
    /// current directory.
    pub fn new() -> (env: Self)
        ensures
            env.env_model() == model::empty_env_model(),
    {
        let env = EnvImpl { args: Vec::new(), vars: Vec::new(), current_dir: String::new() };
        assert(model::strings_view(env.args@) =~= Seq::empty());
        assert(model::pairs_view(env.vars@) =~= Seq::empty());
        env
    }

    /// Creates an environment holding exactly the given arguments,
    /// variables and current directory.
    pub fn from_parts(args: Vec<String>, vars: Vec<(String, String)>, current_dir: String) -> (env:
        Self)
        ensures
            env.env_model() == (EnvModel {
                args: model::strings_view(args@),
                vars: model::pairs_view(vars@),
                current_dir: current_dir@,
            }),
    {
        EnvImpl { args, vars, current_dir }
    }

    /// Replaces the command-line arguments.
    pub(crate) fn replace_args(&mut self, args: Vec<String>)
        ensures
            final(self).env_model() == (EnvModel {
                args: model::strings_view(args@),
                ..old(self).env_model()
            }),
    {
        self.args = args;
    }

    /// Replaces the environment variables.
    pub(crate) fn replace_vars(&mut self, vars: Vec<(String, String)>)
        ensures
            final(self).env_model() == (EnvModel {
                vars: model::pairs_view(vars@),
                ..old(self).env_model()
            }),
    {
        self.vars = vars;
    }

    /// The position of the first variable whose key is `key`, if any.
    fn position(&self, key: &String) -> (pos: Option<usize>)
        ensures
            match pos {
                Some(i) => model::is_first_index(self.env_model().vars, key@, i as int),
                None => !model::has_key(self.env_model().vars, key@),
            },
    {
        let ghost model = self.env_model().vars;
        let mut i: usize = 0;
        while i < self.vars.len()
            invariant
                i <= self.vars@.len(),
                model == model::pairs_view(self.vars@),
                forall|j: int| 0 <= j < i ==> model[j].0 != key@,
            decreases self.vars@.len() - i,
        {
            if self.vars[i].0 == *key {
                return Some(i);
            }
            i = i + 1;
        }
        None
    }
}

impl Env for EnvImpl {
    closed spec fn env_model(&self) -> EnvModel {
        EnvModel {
            args: model::strings_view(self.args@),
            vars: model::pairs_view(self.vars@),
            current_dir: self.current_dir@,
        }
    }

    fn args(&self) -> (args: &[String]) {
        self.args.as_slice()
    }

    fn current_dir(&self) -> (dir: &str) {
        self.current_dir.as_str()
    }

    fn remove_var(&mut self, key: &str) -> (removed: Option<String>) {
        let key = key.to_owned();
        let ghost old_vars = model::pairs_view(self.vars@);
        match self.position(&key) {
            Some(pos) => {
                proof {
                    model::lemma_key_index_is(old_vars, key@, pos as int);
                }
                let (_, value) = self.vars.remove(pos);
                assert(model::pairs_view(self.vars@) =~= old_vars.remove(pos as int));
                Some(value)
            },
            None => {
                proof {
                    model::lemma_key_index(old_vars, key@);
                }
                None
            },
        }
    }

    fn set_current_dir(&mut self, path: &str) -> (previous: String) {
        let mut new_dir = path.to_owned();
        std::mem::swap(&mut self.current_dir, &mut new_dir);
        new_dir
    }

    fn set_var(&mut self, key: &str, value: &str) -> (previous: Option<String>) {
        let key = key.to_owned();
        let value = value.to_owned();
        let ghost old_vars = model::pairs_view(self.vars@);
        match self.position(&key) {
            Some(pos) => {
                proof {
                    model::lemma_key_index_is(old_vars, key@, pos as int);
                }
                let (old_key, old_value) = self.vars.remove(pos);
                self.vars.insert(pos, (old_key, value));
                assert(model::pairs_view(self.vars@) =~= old_vars.update(pos as int, (key@, value@)));
                Some(old_value)
            },
            None => {
                proof {
                    model::lemma_key_index(old_vars, key@);
                }
                self.vars.push((key, value));
                assert(model::pairs_view(self.vars@) =~= old_vars.push((key@, value@)));
                None
            },
        }
    }

    fn var(&self, key: &str) -> (value: Option<&str>) {
        let key = key.to_owned();
        let ghost vars = model::pairs_view(self.vars@);
        match self.position(&key) {
            Some(pos) => {
                proof {
                    model::lemma_key_index_is(vars, key@, pos as int);
                }
                Some(self.vars[pos].1.as_str())
            },
            None => {
                proof {
                    model::lemma_key_index(vars, key@);
                }
                None
            },
        }
    }

    fn vars(&self) -> (vars: &[(String, String)]) {
        self.vars.as_slice()
    }
}

} // verus!
