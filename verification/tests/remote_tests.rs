//! Remote update decisions, credential-script parsing, and presigned
//! request preparation.

use toolup::model::package::{GeneratedDefinedPackage, InstalledPackageContainer};
use toolup::model::remote::{AuthStrategy, LocalPackageRepository, PackageRepository,
    S3PackageRepository};
use toolup::cli::S3AuthType;
use toolup::package::apply_install;
use toolup::remote::{download_scratch_name, etag_of_description, extract_env_from_lines,
    local_artifact, needs_update_decision, needs_update_from_status, plan_needs_update,
    presign_inputs, s3_auth_strategy, should_process_remote, UpdateProbe};
use toolup::state::{InstalledState, StateContainer};
use toolup::string_map::StringMap;

fn local_repo(path: &str) -> PackageRepository {
    PackageRepository::Local(LocalPackageRepository { path: path.to_string() })
}

fn s3_repo(url: &str) -> PackageRepository {
    PackageRepository::S3(S3PackageRepository {
        url: url.to_string(),
        auth_strategy: AuthStrategy::Anonymous,
    })
}

#[test]
fn local_remote_always_needs_update() {
    assert!(matches!(
        plan_needs_update(&local_repo("/a"), Some("tag".to_string())),
        UpdateProbe::Fetch
    ));
    assert!(needs_update_decision(&local_repo("/a"), Some("tag".to_string()), Some(304)));
}

#[test]
fn s3_without_etag_fetches() {
    assert!(matches!(
        plan_needs_update(&s3_repo("https://example.com/x"), None),
        UpdateProbe::Fetch
    ));
}

#[test]
fn s3_with_matching_etag_skips() {
    match plan_needs_update(&s3_repo("https://example.com/x"), Some("abc".to_string())) {
        UpdateProbe::ProbeEtag(tag) => assert_eq!(tag, "abc"),
        UpdateProbe::Fetch => panic!("expected a probe"),
    }
    assert!(!needs_update_from_status(Some(304)));
    assert!(needs_update_from_status(Some(200)));
    assert!(needs_update_from_status(None));
    assert!(!needs_update_decision(
        &s3_repo("https://example.com/x"),
        Some("abc".to_string()),
        Some(304)
    ));
}

#[test]
fn etag_noop_leaves_state_alone() {
    // A container loaded before the update loop runs.
    let mut container = StateContainer {
        updated_at: None,
        current_state: InstalledState::default(),
    };
    let mut entrypoints: StringMap<String> = StringMap::new();
    entrypoints.insert("clu".to_string(), "clu".to_string());
    let install = InstalledPackageContainer {
        package: GeneratedDefinedPackage {
            name: "clu".to_string(),
            entrypoints,
            version: "1.0.0".to_string(),
            achived_at: 0,
            file_hashes: StringMap::new(),
        },
        path_to_root: "/tools/clu/1.0.0".to_string(),
        remote_name: Some("r1".to_string()),
        etag: Some("abc".to_string()),
    };
    apply_install(&mut container, &install).unwrap();
    let before = container.current_state.installed_binaries.len();

    // The probe answers 304: the decision is to skip, so the install
    // pipeline is never invoked and the container is untouched.
    let installed = container.describe_package("clu");
    let etag = etag_of_description(&installed);
    assert_eq!(etag, Some("abc".to_string()));
    let needs = needs_update_decision(&s3_repo("https://example.com/x"), etag, Some(304));
    assert!(!needs);
    assert_eq!(container.current_state.installed_binaries.len(), before);
    assert_eq!(container.current_state.installed_packages.len(), 1);
}

#[test]
fn local_artifact_is_the_configured_path() {
    let artifact = local_artifact(&LocalPackageRepository { path: "/a/b.tar.gz".to_string() });
    assert_eq!(artifact.path, "/a/b.tar.gz");
    assert!(artifact.etag.is_none());
}

#[test]
fn scratch_name_is_unique_by_timestamp() {
    assert_eq!(download_scratch_name("r1", 99), "r1.download.99");
}

#[test]
fn only_filter_scopes_updates() {
    assert!(should_process_remote(&None, "a"));
    assert!(should_process_remote(&Some("a".to_string()), "a"));
    assert!(!should_process_remote(&Some("a".to_string()), "b"));
}

#[test]
fn validate_extract() {
    // The lines a credential stub script prints.
    let lines = vec![
        "export foo=bar".to_string(),
        "bar=foo".to_string(),
        "not a binding".to_string(),
    ];
    let extracted = extract_env_from_lines(&lines);

    assert_eq!("bar", extracted.get("foo").unwrap());
    assert_eq!("foo", extracted.get("bar").unwrap());
    assert_eq!(extracted.len(), 2);
}

#[test]
fn auth_strategy_mapping() {
    assert!(matches!(
        s3_auth_strategy(S3AuthType::Anonymous, None),
        AuthStrategy::Anonymous
    ));
    assert!(matches!(
        s3_auth_strategy(S3AuthType::Host, None),
        AuthStrategy::DefaultAwsAuth
    ));
    match s3_auth_strategy(S3AuthType::Host, Some("/bin/creds.sh".to_string())) {
        AuthStrategy::Script(s) => assert_eq!(s.script_path, "/bin/creds.sh"),
        other => panic!("unexpected strategy: {:?}", strategy_name(&other)),
    }
}

fn strategy_name(s: &AuthStrategy) -> &'static str {
    match s {
        AuthStrategy::Anonymous => "anonymous",
        AuthStrategy::DefaultAwsAuth => "default-aws-auth",
        AuthStrategy::Script(_) => "script",
    }
}

#[test]
fn presign_inputs_carry_the_url_pieces() {
    let repo = S3PackageRepository {
        url: "https://bucket.example.com/archive.tar.gz?versionId=7".to_string(),
        auth_strategy: AuthStrategy::Anonymous,
    };
    let req = presign_inputs(&repo, "HEAD").unwrap();
    assert_eq!(req.method, "HEAD");
    assert_eq!(req.service, "s3");
    assert_eq!(req.region_name, "custom-domain");
    assert_eq!(req.endpoint, "bucket.example.com");
    assert_eq!(req.path, "/archive.tar.gz");
    assert_eq!(req.query, vec![("versionId".to_string(), "7".to_string())]);
    assert_eq!(req.expires_seconds, 60);
}

#[test]
fn presign_inputs_reject_a_bad_url() {
    let repo = S3PackageRepository {
        url: "not a url".to_string(),
        auth_strategy: AuthStrategy::Anonymous,
    };
    assert!(presign_inputs(&repo, "GET").is_err());
}
