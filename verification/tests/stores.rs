use submodules::bootstrap::InitializationFailure;
use submodules::bootstrap::RepoHandle;
use submodules::default_submodule_store::DefaultSubmoduleStore;
use submodules::empty_submodule_store::EmptySubmoduleStore;
use submodules::settings::UserSettings;
use submodules::submodule_store::SubmoduleStore;

#[test]
fn default_store_name() {
    assert_eq!(DefaultSubmoduleStore::name(), "default");
    assert_eq!(DefaultSubmoduleStore::name(), "default");
    let store = DefaultSubmoduleStore::init("/repo/.store");
    assert_eq!(store.name(), "default");
    assert_eq!(store.name(), "default");
}

#[test]
fn empty_store_name() {
    let store = EmptySubmoduleStore::new();
    assert_eq!(store.name(), "empty");
    assert_eq!(store.name(), "empty");
}

#[test]
fn default_path_example() {
    // No directory named here exists; the path is computed all the same.
    let store = DefaultSubmoduleStore::init("/repo/.store");
    assert_eq!(
        store.get_submodule_path("with/slashes/"),
        "/repo/.store/776974682f736c61736865732f"
    );
}

#[test]
fn default_path_awkward_names() {
    let store = DefaultSubmoduleStore::init("/repo/.store");
    assert_eq!(store.get_submodule_path(""), "/repo/.store/");
    assert_eq!(store.get_submodule_path("\0"), "/repo/.store/00");
    assert_eq!(store.get_submodule_path("\\"), "/repo/.store/5c");
    assert_eq!(store.get_submodule_path("sub"), "/repo/.store/737562");
}

#[test]
fn default_path_join_edges() {
    assert_eq!(
        DefaultSubmoduleStore::init("").get_submodule_path("sub"),
        "737562"
    );
    assert_eq!(
        DefaultSubmoduleStore::init("store/").get_submodule_path("sub"),
        "store/737562"
    );
    assert_eq!(
        DefaultSubmoduleStore::init("store").get_submodule_path("sub"),
        "store/737562"
    );
}

#[test]
fn default_path_distinct_names() {
    let store = DefaultSubmoduleStore::init("/repo/.store");
    let names = [
        "",
        "\0",
        "a",
        "b",
        "ab",
        "a/b",
        "a\\b",
        "with/slashes/",
        "with\\slashes\\",
    ];
    for (i, n1) in names.iter().enumerate() {
        for (j, n2) in names.iter().enumerate() {
            assert_eq!(
                i == j,
                store.get_submodule_path(n1) == store.get_submodule_path(n2)
            );
        }
    }
}

#[test]
fn default_path_deterministic() {
    // Purely computed: repeated calls agree, with no filesystem state
    // anywhere under the named root.
    let store = DefaultSubmoduleStore::init("/nowhere/at/all");
    let first = store.get_submodule_path("sub");
    let second = store.get_submodule_path("sub");
    assert_eq!(first, second);
}

#[test]
fn init_and_load_agree() {
    let initialized = DefaultSubmoduleStore::init("/repo/.store");
    let loaded = DefaultSubmoduleStore::load("/repo/.store");
    for name in ["", "sub", "with/slashes/"] {
        assert_eq!(
            initialized.get_submodule_path(name),
            loaded.get_submodule_path(name)
        );
    }
}

#[test]
fn empty_store_path_is_neutral() {
    let store = EmptySubmoduleStore::new();
    assert_eq!(store.get_submodule_path(""), "");
    assert_eq!(store.get_submodule_path("sub"), "");
    assert_eq!(store.get_submodule_path("with/slashes/"), "");
}

#[test]
fn empty_store_loads_nothing() {
    let store = EmptySubmoduleStore::new();
    let settings = UserSettings {};
    assert!(!store.materializes());
    for name in ["", "sub", "with/slashes/"] {
        let loaded = store.load_submodule(&settings, name, None);
        assert!(matches!(loaded, Ok(None)));
    }
    // Even a bootstrap outcome forced on it changes nothing.
    let handle = RepoHandle {
        path: "/somewhere".to_string(),
    };
    let loaded = store.load_submodule(&settings, "sub", Some(Ok(handle)));
    assert!(matches!(loaded, Ok(None)));
    let loaded = store.load_submodule(
        &settings,
        "sub",
        Some(Err(InitializationFailure::IoFailure)),
    );
    assert!(matches!(loaded, Ok(None)));
}

#[test]
fn default_store_load_wraps_handle() {
    let store = DefaultSubmoduleStore::init("/repo/.store");
    let settings = UserSettings {};
    assert!(store.materializes());
    let path = store.get_submodule_path("sub");
    assert_eq!(path, "/repo/.store/737562");
    let handle = RepoHandle { path: path.clone() };
    let loaded = store.load_submodule(&settings, "sub", Some(Ok(handle)));
    match loaded {
        Ok(Some(submodule)) => {
            assert_eq!(submodule.name, "sub");
            assert_eq!(submodule.repo.path, path);
        }
        other => panic!("expected a loaded submodule, got {:?}", other),
    }
}

#[test]
fn default_store_keeps_name_unencoded() {
    let store = DefaultSubmoduleStore::init("/repo/.store");
    let settings = UserSettings {};
    let path = store.get_submodule_path("with/slashes/");
    let handle = RepoHandle { path };
    let loaded = store.load_submodule(&settings, "with/slashes/", Some(Ok(handle)));
    match loaded {
        Ok(Some(submodule)) => assert_eq!(submodule.name, "with/slashes/"),
        other => panic!("expected a loaded submodule, got {:?}", other),
    }
}

#[test]
fn default_store_propagates_failures() {
    let store = DefaultSubmoduleStore::init("/repo/.store");
    let settings = UserSettings {};
    for failure in [
        InitializationFailure::IoFailure,
        InitializationFailure::CorruptRepository,
        InitializationFailure::InvalidSettings,
    ] {
        let loaded = store.load_submodule(&settings, "sub", Some(Err(failure)));
        match loaded {
            Err(propagated) => assert_eq!(propagated, failure),
            other => panic!("expected the failure back, got {:?}", other),
        }
    }
}
