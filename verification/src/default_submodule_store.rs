//! The default backend: submodules under a root directory.
//!
//! Each submodule lives under the store's root, keyed by the hexadecimal
//! encoding of its logical name, so that an arbitrary name — slashes, null
//! bytes and all — becomes a single safe path component and distinct names
//! can never collide.

use crate::bootstrap::InitializationFailure;
use crate::bootstrap::RepoHandle;
use crate::encoding::hex_encode;
use crate::encoding::lemma_hex_encode_len;
use crate::encoding::lemma_name_encoding_injective;
use crate::encoding::spec_hex_encode;
use crate::paths::lemma_join_component_injective;
use crate::paths::path_join;
use crate::paths::spec_join;
use crate::settings::UserSettings;
use crate::submodule_store::Submodule;
use crate::submodule_store::SubmoduleStore;
use vstd::prelude::*;
use vstd::utf8::encode_utf8;

verus! {

/// The backend that stores each submodule under a root directory.
#[derive(Clone, Debug)]
pub struct DefaultSubmoduleStore {
    path: String,
}

impl DefaultSubmoduleStore {
    /// The root directory all submodules of this store live under.
    pub closed spec fn root(&self) -> Seq<char> {
        self.path@
    }

    /// Reopens the store for an existing root. Today this is behaviorally
    /// identical to [`Self::init`]: no on-disk store manifest exists yet,
    /// and this constructor reserves the option of reading persisted
    /// backend state later without changing the public contract.
    pub fn load(store_path: &str) -> (s: Self)
        ensures
            s.root() == store_path@,
    {
        DefaultSubmoduleStore { path: store_path.to_owned() }
    }

    /// Creates fresh store state pointing at `store_path`.
    pub fn init(store_path: &str) -> (s: Self)
        ensures
            s.root() == store_path@,
    {
        DefaultSubmoduleStore { path: store_path.to_owned() }
    }

    /// The identifier persisted in a repository's configuration to record
    /// that this backend created it. Must never change once shipped, or
    /// existing repositories become unreadable.
    pub fn name() -> (r: &'static str)
        ensures
            r@ == "default"@,
    {
        "default"
    }
}

impl SubmoduleStore for DefaultSubmoduleStore {
    open spec fn spec_name(&self) -> Seq<char> {
        "default"@
    }

    open spec fn spec_submodule_path(&self, submodule: Seq<char>) -> Seq<char> {
        spec_join(self.root(), spec_hex_encode(encode_utf8(submodule)))
    }

    open spec fn spec_materializes(&self) -> bool {
        true
    }

    fn name(&self) -> (r: &str) {
        DefaultSubmoduleStore::name()
    }

    /// The root, then one component: the hexadecimal encoding of the
    /// name's UTF-8 bytes.
    fn get_submodule_path(&self, submodule: &str) -> (r: String) {
        let encoded = hex_encode(submodule.as_bytes());
        path_join(self.path.as_str(), encoded.as_str())
    }

    fn materializes(&self) -> (r: bool) {
        true
    }

    /// Always attempts to use a bootstrap outcome for the submodule's
    /// path; it deliberately does not distinguish "already present" from
    /// "freshly initialized".
    fn load_submodule(
        &self,
        _user_settings: &UserSettings,
        submodule: &str,
        bootstrap: Option<Result<RepoHandle, InitializationFailure>>,
    ) -> (r: Result<Option<Submodule>, InitializationFailure>) {
        match bootstrap.unwrap() {
            Ok(repo) => Ok(Some(Submodule { repo, name: submodule.to_owned() })),
            Err(e) => Err(e),
        }
    }
}

/// Distinct names occupy distinct paths under one default store: the
/// encoding of names is injective, and joining distinct components onto
/// the same root keeps them distinct.
pub proof fn lemma_distinct_names_distinct_paths(
    store: DefaultSubmoduleStore,
    s1: Seq<char>,
    s2: Seq<char>,
)
    requires
        s1 != s2,
    ensures
        store.spec_submodule_path(s1) != store.spec_submodule_path(s2),
{
    lemma_name_encoding_injective(s1, s2);
    lemma_join_component_injective(
        store.root(),
        spec_hex_encode(encode_utf8(s1)),
        spec_hex_encode(encode_utf8(s2)),
    );
}

/// A default store's submodule path ends in a path component equal to the
/// two-digit-per-byte hexadecimal encoding of the name's UTF-8 bytes.
pub proof fn lemma_path_ends_in_encoding(store: DefaultSubmoduleStore, submodule: Seq<char>)
    ensures
        ({
            let p = store.spec_submodule_path(submodule);
            let e = spec_hex_encode(encode_utf8(submodule));
            &&& e.len() == 2 * encode_utf8(submodule).len()
            &&& p.len() >= e.len()
            &&& p.subrange(p.len() - e.len(), p.len() as int) == e
        }),
{
    lemma_hex_encode_len(encode_utf8(submodule));
    let p = store.spec_submodule_path(submodule);
    let e = spec_hex_encode(encode_utf8(submodule));
    assert(p.subrange(p.len() - e.len(), p.len() as int) =~= e);
}

/// Stores rooted at the same directory — whether constructed by
/// [`DefaultSubmoduleStore::init`] or by [`DefaultSubmoduleStore::load`] —
/// compute identical submodule paths for identical names.
pub proof fn lemma_same_root_same_paths(
    a: DefaultSubmoduleStore,
    b: DefaultSubmoduleStore,
    submodule: Seq<char>,
)
    requires
        a.root() == b.root(),
    ensures
        a.spec_submodule_path(submodule) == b.spec_submodule_path(submodule),
{
}

} // verus!
