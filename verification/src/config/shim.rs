//! Scoop shim handler

use vstd::prelude::*;

verus! {

/// Scoop shim builds
#[derive(Debug, Copy, Clone, PartialEq, Eq, Structural)]
pub enum ScoopShim {
    /// Use the kiennq shim
    Kiennq,
    /// Use the scoopcs shim
    Scoopcs,
    /// Use the 71 shim
    SeventyOne,
}

impl Default for ScoopShim {
    fn default() -> (s: ScoopShim)
        ensures
            s == ScoopShim::Kiennq,
    {
        ScoopShim::Kiennq
    }
}

} // verus!
