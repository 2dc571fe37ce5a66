//! Sizes of files in bytes.

use vstd::prelude::*;

verus! {

/// A size in bytes
#[derive(Debug, Copy, Clone, PartialEq, Eq, Structural)]
pub struct Size {
    bytes: u64,
}

impl Size {
    /// The number of bytes.
    pub closed spec fn spec_bytes(self) -> nat {
        self.bytes as nat
    }

    /// A size of the given number of bytes
    pub fn new(bytes: u64) -> (s: Size)
        ensures
            s.spec_bytes() == bytes,
    {
        Size { bytes }
    }

    /// The number of bytes
    pub fn bytes(&self) -> (b: u64)
        ensures
            b == self.spec_bytes(),
    {
        self.bytes
    }

    /// The sum of two sizes
    pub fn plus(self, other: Size) -> (s: Size)
        requires
            self.spec_bytes() + other.spec_bytes() <= u64::MAX,
        ensures
            s.spec_bytes() == self.spec_bytes() + other.spec_bytes(),
    {
        Size { bytes: self.bytes + other.bytes }
    }
}

} // verus!
