//! Scoop context adapters

use vstd::prelude::*;

verus! {

/// An empty config struct for when your implementation does not have a config
#[derive(Debug, Copy, Clone, PartialEq, Eq, Structural)]
pub struct EmptyConfig;

} // verus!
