//! The state store's commit gate, document loading, the install
//! mutation, and link planning.

use toolup::model::package::{GeneratedDefinedPackage, InstalledPackageContainer};
use toolup::package::apply_install;
use toolup::state::{container_from_document, plan_links, prepare_commit, GlobalInstalledState,
    InstalledState, StateContainer, StateError, VersionedGlobalState};
use toolup::string_map::StringMap;

fn container_with(name: &str, version: &str, entrypoint: &str) -> InstalledPackageContainer {
    let mut entrypoints: StringMap<String> = StringMap::new();
    entrypoints.insert(entrypoint.to_string(), entrypoint.to_string());
    InstalledPackageContainer {
        package: GeneratedDefinedPackage {
            name: name.to_string(),
            entrypoints,
            version: version.to_string(),
            achived_at: 0,
            file_hashes: StringMap::new(),
        },
        path_to_root: format!("/tools/{}/{}", name, version),
        remote_name: None,
        etag: None,
    }
}

#[test]
fn missing_document_loads_empty() {
    let c = container_from_document(None);
    assert!(c.updated_at.is_none());
    assert_eq!(c.current_state.installed_packages.len(), 0);
}

#[test]
fn stored_document_keeps_token() {
    let doc = GlobalInstalledState {
        state: VersionedGlobalState::V1(InstalledState::default()),
        updated_at: 42,
    };
    let c = container_from_document(Some(doc));
    assert_eq!(c.updated_at, Some(42));
}

#[test]
fn first_commit_succeeds_second_is_refused() {
    // Two containers loaded from the same document, token 7.
    let c1 = StateContainer { updated_at: Some(7), current_state: InstalledState::default() };
    let c2 = StateContainer { updated_at: Some(7), current_state: InstalledState::default() };

    // The first writer sees token 7 on disk and commits, stamping 8.
    let committed = prepare_commit(c1, Some(7), 8).unwrap();
    assert_eq!(committed.updated_at, 8);

    // The second writer now finds token 8 on disk.
    let err = prepare_commit(c2, Some(8), 9).unwrap_err();
    match err {
        StateError::StateFileOutOfDate { expected, found } => {
            assert_eq!(expected, Some(7));
            assert_eq!(found, Some(8));
        }
        other => panic!("unexpected error: {:?}", other),
    }
}

#[test]
fn fresh_file_commit_requires_no_token() {
    let c = StateContainer { updated_at: None, current_state: InstalledState::default() };
    assert!(prepare_commit(c, None, 1).is_ok());

    let c = StateContainer { updated_at: None, current_state: InstalledState::default() };
    assert!(prepare_commit(c, Some(1), 2).is_err());
}

#[test]
fn install_publishes_every_entrypoint() {
    let mut container = StateContainer {
        updated_at: None,
        current_state: InstalledState::default(),
    };
    let install = container_with("clu", "1.0.0", "clu");
    apply_install(&mut container, &install).unwrap();

    assert_eq!(container.current_state.installed_packages.len(), 1);
    assert_eq!(container.current_state.current_binaries.len(), 1);
    let bin = container.current_state.current_binaries.get("clu").unwrap();
    assert_eq!(bin.path_to_exec, "/tools/clu/1.0.0/clu");
    assert_eq!(bin.id, "urn:package:toolup/clu/1.0.0/clu");
}

#[test]
fn second_install_replaces_current_set() {
    let mut container = StateContainer {
        updated_at: None,
        current_state: InstalledState::default(),
    };
    let v1 = container_with("foo", "1.2.3", "bin-1");

    let mut entrypoints: StringMap<String> = StringMap::new();
    entrypoints.insert("bin-1".to_string(), "bin-1".to_string());
    entrypoints.insert("bin-2".to_string(), "bin-2".to_string());
    entrypoints.insert("bin-3".to_string(), "sub/bin-3".to_string());
    let v2 = InstalledPackageContainer {
        package: GeneratedDefinedPackage {
            name: "foo".to_string(),
            entrypoints,
            version: "2.3.4".to_string(),
            achived_at: 0,
            file_hashes: StringMap::new(),
        },
        path_to_root: "/tools/foo/2.3.4".to_string(),
        remote_name: None,
        etag: None,
    };

    apply_install(&mut container, &v1).unwrap();
    apply_install(&mut container, &v2).unwrap();
    assert_eq!(container.current_state.current_binaries.len(), 3);
    for name in ["bin-1", "bin-2", "bin-3"] {
        let bin = container.current_state.current_binaries.get(name).unwrap();
        assert_eq!(bin.package_id, "urn:package:toolup/foo/2.3.4");
    }

    // Roll back to the first version.
    apply_install(&mut container, &v1).unwrap();
    assert_eq!(container.current_state.current_binaries.len(), 1);
    let cur = container.current_state.current_packages.get("foo").unwrap();
    assert_eq!(cur.id, "urn:package:toolup/foo/1.2.3");
}

#[test]
fn link_plan_covers_and_collects() {
    let mut container = StateContainer {
        updated_at: None,
        current_state: InstalledState::default(),
    };
    let install = container_with("clu", "1.0.0", "clu");
    apply_install(&mut container, &install).unwrap();

    let existing = vec!["stale".to_string(), "clu".to_string()];
    let plan = plan_links(&existing, &container.current_state);
    assert_eq!(plan.to_create, vec!["clu".to_string()]);
    assert_eq!(plan.to_remove, vec!["stale".to_string()]);
}

#[test]
fn remove_packages_empties_state() {
    let mut container = StateContainer {
        updated_at: None,
        current_state: InstalledState::default(),
    };
    let a = container_with("a", "1.0.0", "a-bin");
    let b = container_with("b", "2.0.0", "b-bin");
    apply_install(&mut container, &a).unwrap();
    apply_install(&mut container, &b).unwrap();

    let all = container.list_installed_packages();
    assert_eq!(all.len(), 2);
    container.remove_packages(all);

    assert_eq!(container.current_state.installed_packages.len(), 0);
    assert_eq!(container.current_state.installed_binaries.len(), 0);
    assert_eq!(container.current_state.current_binaries.len(), 0);
}

#[test]
fn state_error_messages() {
    let lock = StateError::UnableToObtainLock { path: "/tmp/l".to_string() };
    assert!(lock.message().ends_with("Please look at the lock located at /tmp/l to resolve the issue."));

    let stale = StateError::StateFileOutOfDate { expected: Some(7), found: None };
    assert!(stale.message().ends_with(
        "It was updated at None where we expected the last update to be Some(7).",
    ));
}
