use vstd::prelude::*;

pub mod test_env;
pub mod test_fs;

use crate::Env;
use crate::Platform;
use crate::test_platform::test_env::TestEnv;
use crate::test_platform::test_fs::TestFs;

verus! {

/// A memory-only platform for tests, to be passed where a platform is
/// expected.
pub struct TestPlatform {
    pub env: TestEnv,
    pub fs: TestFs,
}

impl TestPlatform {
    /// Replaces the test environment of this platform.
    pub fn with_env(self, env: TestEnv) -> (p: Self)
        ensures
            p.env == env,
            p.fs == self.fs,
    {
        let mut p = self;
        p.env = env;
        p
    }

    /// Replaces the test file system of this platform.
    pub fn with_fs(self, fs: TestFs) -> (p: Self)
        ensures
            p.env == self.env,
            p.fs == fs,
    {
        let mut p = self;
        p.fs = fs;
        p
    }
}

impl Platform for TestPlatform {
    type E = TestEnv;

    type F = TestFs;

    open spec fn env_part(&self) -> TestEnv {
        self.env
    }

    open spec fn fs_part(&self) -> TestFs {
        self.fs
    }

    fn env(&self) -> (env: &TestEnv) {
        &self.env
    }

    fn env_mut(&mut self) -> (env: &mut TestEnv) {
        &mut self.env
    }

    fn fs(&self) -> (fs: &TestFs) {
        &self.fs
    }

    fn fs_mut(&mut self) -> (fs: &mut TestFs) {
        &mut self.fs
    }
}

/// Returns a test platform with an empty test environment and a test file
/// system.
pub fn test_platform() -> (p: TestPlatform)
    ensures
        p.env.env_model() == crate::model::empty_env_model(),
        p.fs == TestFs,
{
    TestPlatform { env: TestEnv::new(), fs: TestFs::new() }
}

} // verus!
