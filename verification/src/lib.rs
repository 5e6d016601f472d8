//! Core of a dotfiles package manager: a catalog of packages and
//! collections, a dependency resolver that expands a requested set of
//! names into the closure of packages to synchronize, and a per-package
//! synchronization state machine that a thin shell drives against a
//! source-control client and a hook runner.

pub mod cli;
pub mod commands;
pub mod config;
pub mod errors;
pub mod gitactions;
pub mod package;
pub mod print;
pub mod remote;
pub mod repo;
pub mod required_packages;
pub mod source;
pub mod sync;
pub mod text;
pub mod utils;
