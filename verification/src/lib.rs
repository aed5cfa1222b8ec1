//! Bootstrap core and data model for a local file/workspace manager.
//!
//! The library provides the idempotent first-run provisioning pipeline
//! (directory skeleton, embedded store schema, default account, default
//! workspace) as a verified decision core over a model of the environment,
//! together with the hierarchical file-tree data model and its invariants.
//! The surrounding application performs the actual filesystem and store
//! calls and feeds their outcomes back into this core.

pub mod bootstrap;
pub mod dto;
pub mod file;
pub mod names;
