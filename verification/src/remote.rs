//! Remote fetch decisions: when a remote needs fetching, what a
//! presigned request is built from, where a download lands, and how a
//! credential script's output is read.

use crate::model::remote::{AuthStrategy, AuthScript, LocalPackageRepository, PackageRepository,
    S3PackageRepository};
use crate::cli::S3AuthType;
use crate::state::PackageDescription;
use crate::string_map::StringMap;
use crate::strutil::{dec_str_view, env_pair_view, opt_view, parse_env_line, str_eq,
    u64_to_string};
use vstd::prelude::*;
use vstd::string::StringExecFns;

verus! {

/// What can go wrong while a remote request is prepared.
#[derive(Debug)]
pub enum RemoteError {
    UrlParse { url: String },
    NoDomain { url: String },
}

/// A fetched archive: where its bytes sit and the entity tag the
/// server reported, if any.
#[derive(Debug)]
pub struct DownloadedArtifact {
    pub path: String,
    pub etag: Option<String>,
}

/// The artifact a local repository yields: its configured path, with
/// no entity tag.
pub fn local_artifact(repo: &LocalPackageRepository) -> (r: DownloadedArtifact)
    ensures
        r.path@ == repo.path@,
        r.etag is None,
{
    DownloadedArtifact { path: repo.path.clone(), etag: Option::None }
}

/// The file name a remote's download is written under, unique by its
/// timestamp suffix.
pub fn download_scratch_name(remote_name: &str, ts: u64) -> (r: String)
    ensures
        r@ == remote_name@ + ".download."@ + dec_str_view(ts as nat),
{
    let s = String::from_str(remote_name);
    let s = s.concat(".download.");
    s.concat(u64_to_string(ts).as_str())
}

/// The first move of an update check: a local repository and a remote
/// never fetched before are fetched outright; a tagged S3 fetch first
/// asks the server whether the tag still matches.
pub enum UpdateProbe {
    Fetch,
    ProbeEtag(String),
}

/// Decides how an update check starts.
pub fn plan_needs_update(repo: &PackageRepository, etag: Option<String>) -> (r: UpdateProbe)
    ensures
        repo is Local ==> r is Fetch,
        repo is S3 ==> match etag {
            Option::None => r is Fetch,
            Option::Some(t) => (r matches UpdateProbe::ProbeEtag(t2) && t2 == t),
        },
{
    match repo {
        PackageRepository::Local(_) => UpdateProbe::Fetch,
        PackageRepository::S3(_) => match etag {
            Option::None => UpdateProbe::Fetch,
            Option::Some(t) => UpdateProbe::ProbeEtag(t),
        },
    }
}

/// What a conditional probe's outcome means: only a definite
/// `304 Not Modified` says the stored archive is still current; any
/// other status, and any transport failure, calls for a fetch.
pub fn needs_update_from_status(status: Option<u16>) -> (r: bool)
    ensures
        r == (status != Option::Some(304u16)),
{
    match status {
        Option::Some(code) => code != 304,
        Option::None => true,
    }
}

/// The whole needs-update decision for one remote: only an S3 remote
/// with a stored entity tag whose conditional probe answered
/// `304 Not Modified` skips its update; every other remote fetches.
pub fn needs_update_decision(
    repo: &PackageRepository,
    etag: Option<String>,
    probe_status: Option<u16>,
) -> (r: bool)
    ensures
        r == !(repo is S3 && etag is Some && probe_status == Option::Some(304u16)),
{
    match plan_needs_update(repo, etag) {
        UpdateProbe::Fetch => true,
        UpdateProbe::ProbeEtag(_) => needs_update_from_status(probe_status),
    }
}

/// Whether the update loop takes up a remote: always without a
/// scoping name, and with one only for the remote of that name.
pub fn should_process_remote(only: &Option<String>, name: &str) -> (r: bool)
    ensures
        r == (opt_view(*only) is None || opt_view(*only) == Option::Some(name@)),
{
    match only {
        Option::None => true,
        Option::Some(o) => str_eq(o.as_str(), name),
    }
}

/// The entity tag an update check compares against: the one recorded
/// for the installed package, when one is installed.
pub fn etag_of_description(installed: &Option<PackageDescription>) -> (r: Option<String>)
    ensures
        opt_view(r) == match installed {
            Option::Some(d) => d@.etag,
            Option::None => Option::<Seq<char>>::None,
        },
{
    match installed {
        Option::Some(d) => crate::strutil::opt_clone(&d.etag),
        Option::None => Option::None,
    }
}

/// The credential bindings a script's output lines carry, later lines
/// winning a repeated key.
pub open spec fn env_map_view(lines: Seq<Seq<char>>) -> Map<Seq<char>, Seq<char>>
    decreases lines.len(),
{
    if lines.len() == 0 {
        Map::<Seq<char>, Seq<char>>::empty()
    } else {
        let m = env_map_view(lines.drop_last());
        match env_pair_view(lines.last()) {
            Option::Some(kv) => m.insert(kv.0, kv.1),
            Option::None => m,
        }
    }
}

/// Reads the `KEY=VALUE` bindings out of a credential script's output
/// lines; lines without an equals sign bind nothing.
pub fn extract_env_from_lines(lines: &Vec<String>) -> (r: StringMap<String>)
    ensures
        r@ == env_map_view(lines@.map_values(|s: String| s@)),
{
    let ghost ls = lines@.map_values(|s: String| s@);
    let n = lines.len();
    let mut out: StringMap<String> = StringMap::new();
    let mut i: usize = 0;
    proof {
        assert(ls.subrange(0, 0) =~= Seq::<Seq<char>>::empty());
    }
    while i < n
        invariant
            n == lines@.len(),
            i <= n,
            ls == lines@.map_values(|s: String| s@),
            out@ == env_map_view(ls.subrange(0, i as int)),
        decreases n - i,
    {
        proof {
            assert(ls.subrange(0, i as int + 1).drop_last() =~= ls.subrange(0, i as int));
            assert(ls.subrange(0, i as int + 1).last() == ls[i as int]);
        }
        match parse_env_line(lines[i].as_str()) {
            Option::Some(kv) => {
                out.insert(kv.0, kv.1);
            },
            Option::None => {},
        }
        i = i + 1;
    }
    proof {
        assert(ls.subrange(0, n as int) =~= ls);
    }
    out
}

/// How an S3 remote added from the command line authenticates:
/// anonymous stays anonymous; host authentication uses the script when
/// one is given and the ambient credential chain otherwise.
pub fn s3_auth_strategy(auth: S3AuthType, auth_script: Option<String>) -> (r: AuthStrategy)
    ensures
        auth == S3AuthType::Anonymous ==> r is Anonymous,
        auth == S3AuthType::Host ==> match auth_script {
            Option::Some(p) => (r matches AuthStrategy::Script(s) && s.script_path@ == p@),
            Option::None => r is DefaultAwsAuth,
        },
{
    match auth {
        S3AuthType::Anonymous => AuthStrategy::Anonymous,
        S3AuthType::Host => match auth_script {
            Option::Some(path) => AuthStrategy::Script(AuthScript { script_path: path }),
            Option::None => AuthStrategy::DefaultAwsAuth,
        },
    }
}

/// Whether a URL parses at all.
pub uninterp spec fn url_parses(url: Seq<char>) -> bool;

/// The domain of a URL that parses.
pub uninterp spec fn url_domain_of(url: Seq<char>) -> Option<Seq<char>>;

/// The path component of a URL that parses.
pub uninterp spec fn url_path_of(url: Seq<char>) -> Seq<char>;

/// The decoded query pairs of a URL that parses.
pub uninterp spec fn url_query_of(url: Seq<char>) -> Seq<(Seq<char>, Seq<char>)>;

/// The pieces of a parsed URL that request signing needs.
pub struct UrlParts {
    pub domain: Option<String>,
    pub path: String,
    pub query: Vec<(String, String)>,
}

/// Relies on url::Url: parse, domain, path and query_pairs are all
/// functions of the URL text alone.
#[verifier::external_body]
fn parse_url_parts(url: &str) -> (r: Option<UrlParts>)
    ensures
        r is Some <==> url_parses(url@),
        r matches Option::Some(p) ==> opt_view(p.domain) == url_domain_of(url@) && p.path@
            == url_path_of(url@) && p.query@.map_values(|q: (String, String)| (q.0@, q.1@))
            == url_query_of(url@),
{
    match url::Url::parse(url) {
        Result::Ok(u) => {
            let domain = u.domain().map(|d| d.to_string());
            let path = u.path().to_string();
            let query = u.query_pairs().into_owned().collect();
            Option::Some(UrlParts { domain, path, query })
        },
        Result::Err(_) => Option::None,
    }
}

/// Everything a presigned S3 request is generated from: the HTTP
/// method, the S3 service name, a custom region pointing at the URL's
/// own host, the URL's path and query, and the sixty-second validity.
pub struct SignRequest {
    pub method: String,
    pub service: String,
    pub region_name: String,
    pub endpoint: String,
    pub path: String,
    pub query: Vec<(String, String)>,
    pub expires_seconds: u64,
}

/// Prepares the inputs of a presigned request for an S3 repository.
/// It succeeds exactly when the configured URL parses and names a
/// domain; the request then carries the URL's own pieces.
pub fn presign_inputs(repo: &S3PackageRepository, method: &str) -> (r: Result<
    SignRequest,
    RemoteError,
>)
    ensures
        match r {
            Result::Ok(s) => {
                &&& url_parses(repo.url@)
                &&& url_domain_of(repo.url@) matches Option::Some(d) && s.endpoint@ == d
                &&& s.method@ == method@
                &&& s.service@ == "s3"@
                &&& s.region_name@ == "custom-domain"@
                &&& s.path@ == url_path_of(repo.url@)
                &&& s.query@.map_values(|q: (String, String)| (q.0@, q.1@)) == url_query_of(
                    repo.url@,
                )
                &&& s.expires_seconds == 60
            },
            Result::Err(e) => match e {
                RemoteError::UrlParse { url } => !url_parses(repo.url@) && url@ == repo.url@,
                RemoteError::NoDomain { url } => url_parses(repo.url@) && url_domain_of(repo.url@)
                    is None && url@ == repo.url@,
            },
        },
{
    match parse_url_parts(repo.url.as_str()) {
        Option::None => Result::Err(RemoteError::UrlParse { url: repo.url.clone() }),
        Option::Some(parts) => match parts.domain {
            Option::None => Result::Err(RemoteError::NoDomain { url: repo.url.clone() }),
            Option::Some(domain) => Result::Ok(
                SignRequest {
                    method: String::from_str(method),
                    service: String::from_str("s3"),
                    region_name: String::from_str("custom-domain"),
                    endpoint: domain,
                    path: parts.path,
                    query: parts.query,
                    expires_seconds: 60,
                },
            ),
        },
    }
}

} // verus!
