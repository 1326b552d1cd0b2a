//! A verified installation-manifest compiler.
//!
//! The crate turns a declarative description of a package's installable
//! artifacts into a concrete, ordered list of install targets, resolved
//! against a scope-dependent set of directory variables.

pub mod config;
pub mod entry;
pub mod laws;
pub mod package;
pub mod project;
pub mod strutil;
pub mod version;
