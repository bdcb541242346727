use vstd::prelude::*;

use crate::env::Env;
use crate::env::EnvImpl;
use crate::model;
use crate::model::EnvModel;

verus! {

/// A memory-only environment for tests. Use [`Self::new`] together with
/// [`Self::with_args`], [`Self::with_vars`] and [`Self::with_current_dir`]
/// to seed arguments, variables and the current directory.
pub struct TestEnv(EnvImpl);

impl TestEnv {
    /// Creates a new empty test environment.
    pub fn new() -> (env: Self)
        ensures
            env.env_model() == model::empty_env_model(),
    {
        TestEnv(EnvImpl::new())
    }

    /// Sets the command-line arguments of this test environment.
    pub fn with_args(self, args: Vec<&str>) -> (env: Self)
        ensures
            env.env_model() == (EnvModel { args: model::strs_view(args@), ..self.env_model() }),
    {
        let mut owned: Vec<String> = Vec::new();
        let mut i: usize = 0;
        while i < args.len()
            invariant
                i <= args@.len(),
                owned@.len() == i,
                forall|j: int| 0 <= j < i ==> #[trigger] owned@[j]@ == args@[j]@,
            decreases args@.len() - i,
        {
            owned.push(args[i].to_owned());
            i = i + 1;
        }
        assert(model::strings_view(owned@) =~= model::strs_view(args@));
        let mut inner = self.0;
        inner.replace_args(owned);
        TestEnv(inner)
    }

    /// Sets the environment variables of this test environment.
    pub fn with_vars(self, vars: Vec<(&str, &str)>) -> (env: Self)
        ensures
            env.env_model() == (EnvModel { vars: model::str_pairs_view(vars@), ..self.env_model() }),
    {
        let mut owned: Vec<(String, String)> = Vec::new();
        let mut i: usize = 0;
        while i < vars.len()
            invariant
                i <= vars@.len(),
                owned@.len() == i,
                forall|j: int|
                    0 <= j < i ==> #[trigger] owned@[j].0@ == vars@[j].0@ && owned@[j].1@
                        == vars@[j].1@,
            decreases vars@.len() - i,
        {
            let (k, v) = vars[i];
            owned.push((k.to_owned(), v.to_owned()));
            i = i + 1;
        }
        assert(model::pairs_view(owned@) =~= model::str_pairs_view(vars@));
        let mut inner = self.0;
        inner.replace_vars(owned);
        TestEnv(inner)
    }

    /// Sets the current directory of this test environment.
    pub fn with_current_dir(self, current_dir: &str) -> (env: Self)
        ensures
            env.env_model() == (EnvModel { current_dir: current_dir@, ..self.env_model() }),
    {
        let mut inner = self.0;
        let _previous = inner.set_current_dir(current_dir);
        TestEnv(inner)
    }
}

impl Env for TestEnv {
    closed spec fn env_model(&self) -> EnvModel {
        self.0.env_model()
    }

    fn args(&self) -> (args: &[String]) {
        self.0.args()
    }

    fn vars(&self) -> (vars: &[(String, String)]) {
        self.0.vars()
    }

    fn current_dir(&self) -> (dir: &str) {
        self.0.current_dir()
    }

    fn remove_var(&mut self, key: &str) -> (removed: Option<String>) {
        self.0.remove_var(key)
    }

    fn set_current_dir(&mut self, path: &str) -> (previous: String) {
        self.0.set_current_dir(path)
    }

    fn set_var(&mut self, key: &str, value: &str) -> (previous: Option<String>) {
        self.0.set_var(key, value)
    }

    fn var(&self, key: &str) -> (value: Option<&str>) {
        self.0.var(key)
    }
}

} // verus!
