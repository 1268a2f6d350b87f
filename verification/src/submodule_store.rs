//! The capability contract implemented by submodule-store backends.
//!
//! A caller holds one backend for the lifetime of a repository. For each
//! submodule name it discovers it asks where that submodule would live
//! ([`SubmoduleStore::get_submodule_path`], a pure function of the backend
//! and the name), and obtains a usable handle once content exists there
//! ([`SubmoduleStore::load_submodule`]).

use crate::bootstrap::InitializationFailure;
use crate::bootstrap::RepoHandle;
use crate::settings::UserSettings;
use vstd::prelude::*;

verus! {

/// The result of successfully loading a submodule: the logical name exactly
/// as the caller supplied it — unencoded — together with the handle to the
/// nested repository. Never mutated after construction.
#[derive(Clone, Debug)]
pub struct Submodule {
    /// The nested repository's handle.
    pub repo: RepoHandle,
    /// The submodule's logical name, preserved unencoded.
    pub name: String,
}

/// The submodule-store capability: identify, locate, load.
///
/// Every backend is an immutable value after construction; each operation
/// is a pure function of the backend and its arguments, so repeated calls
/// with equal inputs give equal results.
pub trait SubmoduleStore: Sized {
    /// The backend's stable identifier, as persisted in a repository's
    /// configuration.
    spec fn spec_name(&self) -> Seq<char>;

    /// The directory a submodule with this logical name would occupy.
    spec fn spec_submodule_path(&self, submodule: Seq<char>) -> Seq<char>;

    /// Whether this backend materializes submodule content at all. The null
    /// backend does not; it answers every load with "nothing here".
    spec fn spec_materializes(&self) -> bool;

    /// A stable, backend-unique identifier. It is persisted in a
    /// repository's configuration to record which backend created the
    /// repository, so that reopening selects the matching backend; it must
    /// never change once shipped.
    fn name(&self) -> (r: &str)
        ensures
            r@ == self.spec_name(),
    ;

    /// Computes, without any filesystem access, the directory a submodule
    /// with this logical name would occupy. Total: every name has a path,
    /// and equal inputs give equal paths on every call.
    fn get_submodule_path(&self, submodule: &str) -> (r: String)
        ensures
            r@ == self.spec_submodule_path(submodule@),
    ;

    /// Whether [`Self::load_submodule`] needs the outcome of a
    /// nested-repository bootstrap at the submodule's path. A backend that
    /// does not materialize submodules must not be handed one: it performs
    /// no filesystem work and asks for none.
    fn materializes(&self) -> (r: bool)
        ensures
            r == self.spec_materializes(),
    ;

    /// Attempts to produce a usable handle for the submodule.
    ///
    /// Opening or creating the nested repository at the submodule's path is
    /// the job of the external bootstrap collaborator; the caller runs it
    /// and hands its outcome in as `bootstrap` (`None` for a backend that
    /// does not materialize submodules).
    ///
    /// A backend that intentionally has no storage for submodules returns
    /// `Ok(None)` — a normal outcome, not an error. A backend that is
    /// supposed to materialize something wraps the bootstrapped handle
    /// together with the original, unencoded name on success, and on
    /// failure propagates the collaborator's error unchanged.
    fn load_submodule(
        &self,
        user_settings: &UserSettings,
        submodule: &str,
        bootstrap: Option<Result<RepoHandle, InitializationFailure>>,
    ) -> (r: Result<Option<Submodule>, InitializationFailure>)
        requires
            self.spec_materializes() ==> bootstrap is Some,
        ensures
            !self.spec_materializes() ==> r matches Ok(None),
            self.spec_materializes() ==> (match bootstrap {
                Some(Ok(repo)) => r matches Ok(Some(sub)) && sub.repo == repo && sub.name@
                    == submodule@,
                Some(Err(e)) => r matches Err(out) && out == e,
                None => true,
            }),
    ;
}

} // verus!
