//! Verified core of sfsu, a fast companion to the Scoop package manager:
//! architecture names, command hooks for shells, cache file names, the Scoop
//! configuration and its editing, and the small decisions that the command
//! line front end takes.

pub mod arch;
pub mod cache;
pub mod listing;
pub mod order;
pub mod pattern;
pub mod sizes;
pub mod text;
pub mod commands;
pub mod config;
pub mod contexts;
