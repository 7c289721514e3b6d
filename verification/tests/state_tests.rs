//! The installed-state mutation API, exercised on concrete packages.

use toolup::model::package::{GeneratedDefinedPackage, InstalledPackageContainer};
use toolup::state::{InstalledBinary, InstalledPackage, InstalledState};
use toolup::string_map::StringMap;

fn make_stub_package_container(
    package_name: &str,
    version: &str,
    number_of_binaries: u32,
) -> InstalledPackageContainer {
    let mut entrypoints: StringMap<String> = StringMap::new();
    for i in 1..(number_of_binaries + 1) {
        let path = if i % 3 == 0 {
            format!("sub/bin-{}", i)
        } else {
            format!("bin-{}", i)
        };
        entrypoints.insert(format!("bin-{}", i), path);
    }

    let package = GeneratedDefinedPackage {
        name: package_name.to_string(),
        entrypoints,
        version: version.to_string(),
        achived_at: 0,
        file_hashes: StringMap::new(),
    };

    InstalledPackageContainer {
        path_to_root: "/tmp/fake".to_string(),
        package,
        remote_name: None,
        etag: None,
    }
}

fn fake_binary(
    name: &str,
    _version: &str,
    is_sub: bool,
    package: &InstalledPackage,
) -> InstalledBinary {
    let path = if is_sub {
        format!("/tmp/fake/sub/{}", name)
    } else {
        format!("/tmp/fake/{}", name)
    };
    InstalledBinary::new(package, name.to_string(), path)
}

#[test]
fn add_package_one() {
    let mut installed_state = InstalledState::default();
    let container = make_stub_package_container("foo", "1.2.3", 1);
    installed_state.add_installed_package(&container);

    assert_eq!(installed_state.current_binaries.len(), 0);
    assert_eq!(installed_state.installed_binaries.len(), 1);
    assert_eq!(installed_state.installed_packages.len(), 1);

    installed_state.make_package_current(&container).unwrap();
    assert_eq!(installed_state.current_binaries.len(), 1);

    let bin = installed_state.current_binaries.get("bin-1").unwrap();
    assert_eq!(bin.name, "bin-1");
    assert_eq!(bin.version, "1.2.3");
    assert_eq!(bin.path_to_exec, "/tmp/fake/bin-1");
}

#[test]
fn handle_paths_moving() {
    let mut installed_state = InstalledState::default();
    let container = make_stub_package_container("foo", "1.2.3", 1);
    installed_state.add_installed_package(&container);
    installed_state.make_package_current(&container).unwrap();

    // Install the package again, at a different path.
    let mut container = make_stub_package_container("foo", "1.2.3", 1);
    container.path_to_root = "/tmp/foo/fake".to_owned();
    installed_state.add_installed_package(&container);
    installed_state.make_package_current(&container).unwrap();

    assert_eq!(installed_state.current_binaries.len(), 1);
    assert_eq!(installed_state.installed_binaries.len(), 1);
    assert_eq!(installed_state.installed_packages.len(), 1);

    let bin = installed_state.current_binaries.get("bin-1").unwrap();
    assert_eq!(bin.name, "bin-1");
    assert_eq!(bin.version, "1.2.3");
    assert_eq!(bin.path_to_exec, "/tmp/foo/fake/bin-1");
}

#[test]
fn add_overlapping_packages() {
    let mut installed_state = InstalledState::default();
    let container1 = make_stub_package_container("foo", "1.2.3", 1);
    installed_state.add_installed_package(&container1);

    let container2 = make_stub_package_container("foo", "2.3.4", 3);
    installed_state.add_installed_package(&container2);

    assert_eq!(installed_state.current_binaries.len(), 0);
    assert_eq!(installed_state.installed_binaries.len(), 4);
    assert_eq!(installed_state.installed_packages.len(), 2);

    // install version
    {
        installed_state.make_package_current(&container1).unwrap();
        let installed_package = InstalledPackage::from(&container1);
        assert_eq!(installed_state.current_binaries.len(), 1);

        let bin = installed_state.current_binaries.get("bin-1").unwrap();
        assert_eq!(
            bin,
            &fake_binary("bin-1", "1.2.3", false, &installed_package)
        );
    }

    // install new version
    {
        installed_state.make_package_current(&container2).unwrap();
        let installed_package = InstalledPackage::from(&container2);
        assert_eq!(installed_state.current_binaries.len(), 3);

        let bin = installed_state.current_binaries.get("bin-1").unwrap();
        assert_eq!(
            bin,
            &fake_binary("bin-1", "2.3.4", false, &installed_package)
        );

        let bin = installed_state.current_binaries.get("bin-2").unwrap();
        assert_eq!(
            bin,
            &fake_binary("bin-2", "2.3.4", false, &installed_package)
        );

        let bin = installed_state.current_binaries.get("bin-3").unwrap();
        assert_eq!(
            bin,
            &fake_binary("bin-3", "2.3.4", true, &installed_package)
        );
    }

    // Roll back to old version, should remove all binaries of package
    {
        installed_state.make_package_current(&container1).unwrap();
        assert_eq!(installed_state.current_binaries.len(), 1);

        let installed_package = InstalledPackage::from(&container1);
        let bin = installed_state.current_binaries.get("bin-1").unwrap();
        assert_eq!(
            bin,
            &fake_binary("bin-1", "1.2.3", false, &installed_package)
        );
    }
}

#[test]
fn will_fail_when_package_not_installed() {
    let mut installed_state = InstalledState::default();
    let container = make_stub_package_container("foo", "1.2.3", 1);

    assert_eq!(installed_state.current_binaries.len(), 0);
    assert_eq!(installed_state.installed_binaries.len(), 0);
    assert_eq!(installed_state.installed_packages.len(), 0);

    let error = installed_state
        .make_package_current(&container)
        .unwrap_err();
    assert_eq!(error.message(), "Package foo@1.2.3 was not installed.");
}

#[test]
fn package_remove_is_complete() {
    let mut installed_state = InstalledState::default();
    let container = make_stub_package_container("foo", "1.2.3", 1);
    installed_state.add_installed_package(&container);

    assert_eq!(installed_state.current_binaries.len(), 0);
    assert_eq!(installed_state.installed_binaries.len(), 1);
    assert_eq!(installed_state.installed_packages.len(), 1);

    installed_state.make_package_current(&container).unwrap();
    assert_eq!(installed_state.current_binaries.len(), 1);

    let installed_package_id = {
        let p = installed_state.installed_packages.value_at(0);
        p.id.clone()
    };

    installed_state.remove_package_by_id(installed_package_id.as_str());
    assert_eq!(installed_state.current_binaries.len(), 0);
    assert_eq!(installed_state.installed_binaries.len(), 0);
    assert_eq!(installed_state.installed_packages.len(), 0);
}

#[test]
fn add_twice_points_at_second_path() {
    let mut state = InstalledState::default();
    let c1 = make_stub_package_container("foo", "1.2.3", 2);
    let mut c2 = make_stub_package_container("foo", "1.2.3", 2);
    c2.path_to_root = "/tmp/other".to_string();

    state.add_installed_package(&c1);
    state.add_installed_package(&c2);

    assert_eq!(state.installed_packages.len(), 1);
    assert_eq!(state.installed_binaries.len(), 2);
    let pkg = state
        .installed_packages
        .get("urn:package:toolup/foo/1.2.3")
        .unwrap();
    assert_eq!(pkg.package_dir, "/tmp/other");
    let bin = state
        .installed_binaries
        .get("urn:package:toolup/foo/1.2.3/bin-1")
        .unwrap();
    assert_eq!(bin.path_to_exec, "/tmp/other/bin-1");
}

#[test]
fn describe_marks_current_binaries() {
    let mut state = InstalledState::default();
    let container = make_stub_package_container("foo", "1.2.3", 2);
    state.add_installed_package(&container);
    state.make_package_current(&container).unwrap();

    let pkg = InstalledPackage::from(&container);
    let description = state.describe_package(&pkg);
    assert_eq!(description.name, "foo");
    assert_eq!(description.version, "1.2.3");
    assert_eq!(description.package_id, "urn:package:toolup/foo/1.2.3");
    assert_eq!(description.binaries.len(), 2);
    assert_eq!(description.binaries.get("bin-1"), Some(&true));
    assert_eq!(description.binaries.get("bin-2"), Some(&true));
}

#[test]
fn binary_path_lookups() {
    let mut state = InstalledState::default();
    let container = make_stub_package_container("clu", "1.2.3", 1);
    state.add_installed_package(&container);

    let path = state.get_binary_path("bin-1", "1.2.3").unwrap();
    assert_eq!(path, "/tmp/fake/bin-1");

    let err = state.get_current_binary_path("bin-1").unwrap_err();
    assert_eq!(
        err.message(),
        "There was no binary named bin-1@CURRENT installed."
    );

    state.make_package_current(&container).unwrap();
    let path = state.get_current_binary_path("bin-1").unwrap();
    assert_eq!(path, "/tmp/fake/bin-1");

    let err = state.get_binary_path("bogus", "9.9.9").unwrap_err();
    assert_eq!(
        err.message(),
        "There was no binary named bogus@9.9.9 installed."
    );
}

#[test]
fn wf_check_accepts_built_states_and_rejects_edited_ones() {
    let mut state = InstalledState::default();
    assert!(state.check_wf());
    let container = make_stub_package_container("foo", "1.2.3", 2);
    state.add_installed_package(&container);
    state.make_package_current(&container).unwrap();
    assert!(state.check_wf());

    // A hand-edited document: the package sits under the wrong key.
    let mut broken = InstalledState::default();
    let pkg = InstalledPackage::from(&container);
    broken.installed_packages.insert("urn:package:toolup/other/9.9.9".to_string(), pkg);
    assert!(!broken.check_wf());

    // A binary whose recorded owner is not installed.
    let mut orphan = InstalledState::default();
    let pkg = InstalledPackage::from(&container);
    let bin = InstalledBinary::new(&pkg, "bin-1".to_string(), "/tmp/fake/bin-1".to_string());
    orphan.installed_binaries.insert(bin.id.clone(), bin);
    assert!(!orphan.check_wf());
}

#[test]
fn current_backing_check_spots_unbacked_entries() {
    let mut state = InstalledState::default();
    let container = make_stub_package_container("foo", "1.2.3", 1);
    state.add_installed_package(&container);
    state.make_package_current(&container).unwrap();
    assert!(state.check_current_backed());

    // A current entry whose recorded binary is gone.
    let pkg = InstalledPackage::from(&container);
    let stray = InstalledBinary::new(&pkg, "stray".to_string(), "/tmp/fake/stray".to_string());
    state.current_binaries.insert("stray".to_string(), stray);
    assert!(!state.check_current_backed());
}
