//! A pluggable strategy for locating and materializing submodules — nested
//! repositories referenced by a parent repository — independent of the
//! parent's storage engine.
//!
//! The [`submodule_store::SubmoduleStore`] capability contract has two
//! concrete strategies: a filesystem-rooted default backend
//! ([`default_submodule_store::DefaultSubmoduleStore`]), which keys each
//! submodule under a root directory by a collision-free encoding of its
//! logical name, and a null backend
//! ([`empty_submodule_store::EmptySubmoduleStore`]), which disables submodule
//! materialization entirely.

pub mod bootstrap;
pub mod default_submodule_store;
pub mod empty_submodule_store;
pub mod encoding;
pub mod paths;
pub mod settings;
pub mod submodule_store;
