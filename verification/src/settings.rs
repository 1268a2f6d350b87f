//! User settings, as seen by the submodule store.
//!
//! Settings are owned by the wider repository lifecycle and are only passed
//! through to the nested-repository bootstrap collaborator; no backend in
//! this crate reads anything out of them. They are therefore represented by
//! a carrier type with no observable content of its own.

use vstd::prelude::*;

verus! {

/// Settings handed through to the nested-repository bootstrap collaborator.
#[derive(Clone, Copy, Debug)]
pub struct UserSettings {}

} // verus!
