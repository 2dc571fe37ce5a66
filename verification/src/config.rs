//! Scoop's configuration, as its `config.json` holds it.

pub mod shim;

use vstd::prelude::*;

verus! {

/// Scoop's configuration
#[derive(Debug)]
pub struct Scoop {
    /// The timestamp of the last scoop update
    pub last_update: Option<String>,
    /// The repository Scoop updates itself from
    pub scoop_repo: Option<String>,
    /// The branch Scoop updates itself from ("master" unless configured)
    pub scoop_branch: String,
    /// Scoop path
    pub root_path: Option<String>,
}

} // verus!
