//! The nested-repository bootstrap collaborator, seen from this crate.
//!
//! Opening or creating a plain repository at a filesystem path is the job of
//! an external collaborator; the store never performs it itself. The caller
//! runs the bootstrap and hands its outcome — a repository handle, or the
//! collaborator's error — to [`load_submodule`], which propagates it
//! unchanged.
//!
//! [`load_submodule`]: crate::submodule_store::SubmoduleStore::load_submodule

use vstd::prelude::*;

verus! {

/// A handle to a nested repository, identified by the directory it lives
/// at. Produced by the bootstrap collaborator; never inspected here beyond
/// being wrapped into a [`crate::submodule_store::Submodule`].
#[derive(Clone, Debug)]
pub struct RepoHandle {
    /// The directory the nested repository was opened or created at.
    pub path: String,
}

/// Why the nested-repository bootstrap failed. Raised only by the
/// collaborator and propagated unchanged — never wrapped, retried or
/// recovered from at this layer.
#[derive(Clone, Copy, Debug, PartialEq, Eq, Structural)]
pub enum InitializationFailure {
    /// The filesystem refused the operation.
    IoFailure,
    /// A repository already exists at the path but cannot be read.
    CorruptRepository,
    /// The settings handed to the collaborator are unusable.
    InvalidSettings,
}

} // verus!
