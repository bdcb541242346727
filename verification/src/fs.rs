use vstd::prelude::*;

verus! {

/// A file system interface.
pub trait Fs {}

/// The default file system implementation.
pub struct FsImpl;

impl FsImpl {
    /// Creates a new instance of the default file system implementation.
    pub fn new() -> (fs: Self)
        ensures
            fs == FsImpl,
    {
        FsImpl
    }
}

impl Fs for FsImpl {}

} // verus!
