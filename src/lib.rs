//! Scaffolds a fixed catalog of assistant workflow files into a git repository,
//! checks and repairs them, removes them, and decides self-upgrades.
//!
//! Everything here is pure decision logic over plain values; the filesystem,
//! terminal prompts and the network are driven by the caller.
pub mod text;
pub mod errors;
pub mod templates;
pub mod catalog;
pub mod gitignore;
pub mod sync;
pub mod install;
pub mod removal;
pub mod repo;
pub mod version;
pub mod upgrade;
