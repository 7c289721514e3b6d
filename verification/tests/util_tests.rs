//! Identifiers, paths, string building blocks, commands, and the
//! first-generation error codes.

use toolup::cli::LoggingOpts;
use toolup::commands::{binaries_summary, packages_from_remote, resolve_exec_path};
use toolup::config::lock::{ArtifactType as LockArtifactType, AuthTokenSource, ToolLock,
    ToolVersion as LockToolVersion};
use toolup::common::error::{ApiError, CliError, ConfigError, ErrorCallSite, IOError};
use toolup::common::model::Tokens;
use toolup::github::get_github_token;
use toolup::make_package_id;
use toolup::model::package::{GeneratedDefinedPackage, InstalledPackageContainer,
    GENERATED_FILE_NAME};
use toolup::model::remote::{LocalPackageRepository, PackageRepository};
use toolup::package::apply_install;
use toolup::state::{InstalledState, StateContainer};
use toolup::storage::model::{ArtifactType, TookInstallDetails, ToolVersion, VersionUrlResponse};
use toolup::string_map::StringMap;
use toolup::strutil::{basename, i64_to_string, join_path, parse_env_line, str_eq, u64_to_string,
    underscored};
use toolup::util::{GlobalFolders, LogLevel};

#[test]
fn package_ids_are_stable_urns() {
    assert_eq!(make_package_id("clu", "1.0.0"), "urn:package:toolup/clu/1.0.0");
}

#[test]
fn generated_file_name_is_fixed() {
    assert_eq!(GENERATED_FILE_NAME, "archive.json");
}

#[test]
fn string_helpers() {
    assert!(str_eq("abc", "abc"));
    assert!(!str_eq("abc", "abd"));
    assert_eq!(basename("a/b/c"), "c");
    assert_eq!(basename("plain"), "plain");
    assert_eq!(underscored("my tool name"), "my_tool_name");
    assert_eq!(u64_to_string(0), "0");
    assert_eq!(u64_to_string(1700000000), "1700000000");
    assert_eq!(i64_to_string(-42), "-42");
    assert_eq!(join_path("/a", "b/c"), "/a/b/c");
}

#[test]
fn env_lines_parse() {
    assert_eq!(
        parse_env_line("export KEY=VALUE"),
        Some(("KEY".to_string(), "VALUE".to_string()))
    );
    assert_eq!(parse_env_line("A=b=c"), Some(("A".to_string(), "b=c".to_string())));
    assert_eq!(parse_env_line("no binding"), None);
}

#[test]
fn folders_resolve_from_overrides_and_home() {
    let folders = GlobalFolders::new(None, None, "/home/me");
    assert_eq!(folders.log_dir, "/home/me/.toolup/logs");
    assert_eq!(folders.tool_root_dir, "/home/me/.toolup");
    assert_eq!(folders.config_dir, "/home/me/.toolup/config");
    assert_eq!(folders.global_state_file(), "/home/me/.toolup/config/global-state.json");
    assert_eq!(folders.get_remote_config_dir(), "/home/me/.toolup/config/remote.d");
    assert_eq!(folders.make_remote_tool_config("r1"), "/home/me/.toolup/config/remote.d/r1.json");
    assert_eq!(folders.get_remote_download_dir(), "/home/me/.toolup/config/remote-download");
    assert_eq!(folders.get_link_dir(), "/home/me/.toolup/_bin");

    let custom = GlobalFolders::new(Some("/t".to_string()), Some("/c".to_string()), "/home/me");
    assert_eq!(custom.tool_root_dir, "/t");
    assert_eq!(custom.config_dir, "/c");
}

#[test]
fn logging_levels_follow_the_flags() {
    let base = LoggingOpts { debug: 0, warn: false, error: false, console: false };
    assert_eq!(base.to_level(), LogLevel::Info);
    let err = LoggingOpts { error: true, ..base };
    assert_eq!(err.to_level(), LogLevel::Error);
    let warn = LoggingOpts { warn: true, ..base };
    assert_eq!(warn.to_level(), LogLevel::Warn);
    let dbg = LoggingOpts { debug: 1, ..base };
    assert_eq!(dbg.to_level(), LogLevel::Debug);
    let trace = LoggingOpts { debug: 2, ..base };
    assert_eq!(trace.to_level(), LogLevel::Trace);
}

fn installed_container(name: &str, version: &str, remote: Option<&str>) -> InstalledPackageContainer {
    let mut entrypoints: StringMap<String> = StringMap::new();
    entrypoints.insert(name.to_string(), name.to_string());
    InstalledPackageContainer {
        package: GeneratedDefinedPackage {
            name: name.to_string(),
            entrypoints,
            version: version.to_string(),
            achived_at: 0,
            file_hashes: StringMap::new(),
        },
        path_to_root: format!("/tools/{}/{}", name, version),
        remote_name: remote.map(|r| r.to_string()),
        etag: None,
    }
}

#[test]
fn exec_resolution_follows_the_version_flag() {
    let mut container = StateContainer {
        updated_at: None,
        current_state: InstalledState::default(),
    };
    apply_install(&mut container, &installed_container("clu", "1.2.3", None)).unwrap();
    apply_install(&mut container, &installed_container("clu", "2.3.4", None)).unwrap();

    let pinned =
        resolve_exec_path(&container, "clu", &Some("1.2.3".to_string())).unwrap();
    assert_eq!(pinned, "/tools/clu/1.2.3/clu");

    let current = resolve_exec_path(&container, "clu", &None).unwrap();
    assert_eq!(current, "/tools/clu/2.3.4/clu");

    assert!(resolve_exec_path(&container, "bogus", &None).is_err());
}

#[test]
fn remote_package_listing() {
    let mut container = StateContainer {
        updated_at: None,
        current_state: InstalledState::default(),
    };
    apply_install(&mut container, &installed_container("a", "1.0.0", Some("r1"))).unwrap();
    apply_install(&mut container, &installed_container("b", "1.0.0", Some("r2"))).unwrap();

    let r1 = packages_from_remote(&container, "r1");
    assert_eq!(r1.len(), 1);
    assert_eq!(r1[0].name, "a");
    assert_eq!(binaries_summary(&r1[0]), "a (current)");

    let repo = PackageRepository::Local(LocalPackageRepository { path: "/x".to_string() });
    assert_eq!(repo.source_text(), "Local resources located at /x");
}

#[test]
fn test_error_codes() {
    let err = CliError::Config(
        ErrorCallSite::new(1, "config"),
        ConfigError::ConfigFormatError("fooooo".to_string()),
    );
    let text = err.error_text();
    assert!(text.ends_with("[CFG-001] ConfigFormatError(\"fooooo\")"));
}

#[test]
fn error_codes_and_exits_are_stable() {
    assert_eq!(IOError::GernalIOError("x".to_string()).get_error_code(), "IO-002");
    assert_eq!(ApiError::GitHubTokenNotProvided.get_error_code(), "API-003");
    let err = CliError::API(ErrorCallSite::new(0, "f"), ApiError::GitHubTokenNotProvided);
    assert_eq!(err.exit_code(), 12);
}

#[test]
fn github_token_becomes_a_bearer_header() {
    let with = Tokens { github: Some("SECRET-REDACTED".to_string()) };
    assert_eq!(get_github_token(&with).unwrap(), "bearer SECRET-REDACTED");

    let without = Tokens { github: None };
    let err = get_github_token(&without).unwrap_err();
    assert!(matches!(err, CliError::API(_, ApiError::GitHubTokenNotProvided)));
}

#[test]
fn tool_versions_record_their_artifacts() {
    let details = TookInstallDetails { exec_path: "foo.exe".to_string(), downloaded_at: None };
    let with_url = VersionUrlResponse::new(
        "v1".to_string(),
        10,
        Some("http://localhost/help".to_string()),
    );
    let v = ToolVersion::new(with_url, ArtifactType::Zip, details);
    assert!(v.is_downloadable());
    assert_eq!(v.get_name(), "v1");
    assert_eq!(v.created_at(), 10);

    let details = TookInstallDetails { exec_path: "foo.exe".to_string(), downloaded_at: None };
    let without = VersionUrlResponse::new("v2".to_string(), 11, None);
    let v = ToolVersion::new(without, ArtifactType::Raw, details);
    assert!(!v.is_downloadable());
}

fn lock_version(name: &str, version: &str, created_at: i64) -> LockToolVersion {
    LockToolVersion {
        name: name.to_string(),
        version: version.to_string(),
        created_at,
        download_url: Some("http://localhost/help".to_string()),
        exec_path: "foo.exe".to_string(),
        art_type: LockArtifactType::Zip,
        auth_token_source: AuthTokenSource::Anonymous,
    }
}

#[test]
fn lock_add_new_replaces_the_same_release() {
    let mut lock = ToolLock::default();
    lock.add_new(lock_version("foo", "bar", 1));
    lock.add_new(lock_version("foo", "baz", 2));
    lock.add_new(lock_version("foo", "bar", 3));

    let foo = lock.find_tool("foo");
    assert_eq!(foo.len(), 2);
    let bar = lock.find_version("foo", "bar").unwrap();
    assert_eq!(bar.created_at, 3);

    let wanted = lock.get_wanted("foo").unwrap();
    assert_eq!(wanted.created_at, 3);
    assert_eq!(wanted.version, "bar");

    lock.delete_tool("foo");
    assert!(lock.get_wanted("foo").is_none());
    assert_eq!(lock.get_all_tools().len(), 0);
}

#[test]
fn lock_download_paths_follow_the_layout() {
    let v = LockToolVersion {
        name: "foo".to_string(),
        version: "1.0".to_string(),
        created_at: 0,
        download_url: None,
        exec_path: "bin/foo".to_string(),
        art_type: LockArtifactType::Raw,
        auth_token_source: AuthTokenSource::GitHub,
    };
    assert_eq!(v.get_download_dir("/cache"), "/cache/foo/1.0");
    assert_eq!(v.exec_path("/cache"), "/cache/foo/1.0/bin/foo");
    assert!(!v.is_downloadable());
}
