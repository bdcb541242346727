use vstd::prelude::*;

pub mod env;
pub mod error;
pub mod fs;
pub mod model;
pub mod test_platform;
pub mod utils;

pub use env::Env;
pub use env::EnvImpl;
pub use error::Error;
pub use error::ErrorKind;
pub use fs::Fs;
pub use fs::FsImpl;
pub use test_platform::test_env::TestEnv;
pub use test_platform::test_fs::TestFs;

verus! {

/// An abstract interface to a platform implementing environment and file
/// system functionality. [`platform`] gives the default implementation;
/// [`test_platform::test_platform`] gives a memory-only one for tests.
pub trait Platform {
    /// The environment interface of this platform.
    type E: Env;

    /// The file system interface of this platform.
    type F: Fs;

    /// The environment held by this platform.
    spec fn env_part(&self) -> Self::E;

    /// The file system held by this platform.
    spec fn fs_part(&self) -> Self::F;

    /// Returns a reference to the environment interface.
    fn env(&self) -> (env: &Self::E)
        ensures
            *env == self.env_part(),
    ;

    /// Returns a mutable reference to the environment interface.
    fn env_mut(&mut self) -> (env: &mut Self::E)
        ensures
            *env == old(self).env_part(),
            final(self).env_part() == *final(env),
            final(self).fs_part() == old(self).fs_part(),
    ;

    /// Returns a reference to the file system interface.
    fn fs(&self) -> (fs: &Self::F)
        ensures
            *fs == self.fs_part(),
    ;

    /// Returns a mutable reference to the file system interface.
    fn fs_mut(&mut self) -> (fs: &mut Self::F)
        ensures
            *fs == old(self).fs_part(),
            final(self).fs_part() == *final(fs),
            final(self).env_part() == old(self).env_part(),
    ;
}

/// The default platform: an in-process environment and the default file
/// system.
pub struct PlatformImpl {
    env: EnvImpl,
    fs: FsImpl,
}

impl Platform for PlatformImpl {
    type E = EnvImpl;

    type F = FsImpl;

    closed spec fn env_part(&self) -> EnvImpl {
        self.env
    }

    closed spec fn fs_part(&self) -> FsImpl {
        self.fs
    }

    fn env(&self) -> (env: &EnvImpl) {
        &self.env
    }

    fn env_mut(&mut self) -> (env: &mut EnvImpl) {
        &mut self.env
    }

    fn fs(&self) -> (fs: &FsImpl) {
        &self.fs
    }

    fn fs_mut(&mut self) -> (fs: &mut FsImpl) {
        &mut self.fs
    }
}

/// Returns the default platform over the given environment (the program
/// loads it from the process environment once, at start).
pub fn platform(env: EnvImpl) -> (p: PlatformImpl)
    ensures
        p.env_part() == env,
        p.fs_part() == FsImpl,
{
    PlatformImpl { env, fs: FsImpl::new() }
}

} // verus!
