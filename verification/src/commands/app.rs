//! Commands for managing apps.

pub mod cleanup;
pub mod list;
pub mod purge;
