use vstd::prelude::*;

use crate::fs::Fs;

verus! {

/// A memory-only file system for tests, to be passed where a file system
/// interface is expected.
pub struct TestFs;

impl TestFs {
    /// Creates a new instance of the test file system.
    pub fn new() -> (fs: Self)
        ensures
            fs == TestFs,
    {
        TestFs
    }
}

impl Fs for TestFs {}

} // verus!
