//! The null backend: submodules are disabled.
//!
//! For repositories that never materialize nested repositories. It creates
//! no filesystem state, asks for no bootstrap, and answers every load with
//! `Ok(None)` — "this backend does not manage submodule content", which is
//! a normal outcome, not an error.

use crate::bootstrap::InitializationFailure;
use crate::bootstrap::RepoHandle;
use crate::settings::UserSettings;
use crate::submodule_store::Submodule;
use crate::submodule_store::SubmoduleStore;
use vstd::prelude::*;

verus! {

/// The backend that disables submodule materialization.
#[derive(Clone, Copy, Debug)]
pub struct EmptySubmoduleStore {}

impl EmptySubmoduleStore {
    pub fn new() -> (s: Self)
        ensures
            !s.spec_materializes(),
    {
        EmptySubmoduleStore {}
    }
}

impl SubmoduleStore for EmptySubmoduleStore {
    open spec fn spec_name(&self) -> Seq<char> {
        "empty"@
    }

    open spec fn spec_submodule_path(&self, submodule: Seq<char>) -> Seq<char> {
        Seq::<char>::empty()
    }

    open spec fn spec_materializes(&self) -> bool {
        false
    }

    fn name(&self) -> (r: &str) {
        "empty"
    }

    /// A neutral, empty path for every input: this backend's
    /// `load_submodule` never touches the filesystem, so the path is never
    /// used for actual I/O.
    fn get_submodule_path(&self, _submodule: &str) -> (r: String) {
        String::new()
    }

    fn materializes(&self) -> (r: bool) {
        false
    }

    fn load_submodule(
        &self,
        _user_settings: &UserSettings,
        _submodule: &str,
        _bootstrap: Option<Result<RepoHandle, InitializationFailure>>,
    ) -> (r: Result<Option<Submodule>, InitializationFailure>) {
        Ok(None)
    }
}

} // verus!
