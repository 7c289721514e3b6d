//! Remote repository configurations: where archives come from and how
//! requests to them are authenticated.

use vstd::prelude::*;
use vstd::string::StringExecFns;

verus! {

/// One configured remote: its unique name, how often checking it is
/// worthwhile, and where its archive lives.
pub struct RemotePackage {
    pub name: String,
    pub update_period_seconds: i64,
    pub repository: PackageRepository,
}

/// The kinds of repository a remote can point at.
pub enum PackageRepository {
    S3(S3PackageRepository),
    Local(LocalPackageRepository),
}

/// An S3-hosted archive, reached through a presigned URL.
pub struct S3PackageRepository {
    pub url: String,
    pub auth_strategy: AuthStrategy,
}

/// An archive that already sits on the local filesystem.
pub struct LocalPackageRepository {
    pub path: String,
}

/// How S3 requests are signed: anonymously, through the standard
/// credential chain, or with credentials a script exports.
pub enum AuthStrategy {
    Anonymous,
    DefaultAwsAuth,
    Script(AuthScript),
}

/// A script whose standard output supplies credential bindings.
pub struct AuthScript {
    pub script_path: String,
}

impl PackageRepository {
    /// A one-line description of where the repository's archives live.
    pub fn source_text(&self) -> (r: String)
        ensures
            r@ == match self {
                PackageRepository::S3(s3) => "S3 resources located at "@ + s3.url@,
                PackageRepository::Local(fs) => "Local resources located at "@ + fs.path@,
            },
    {
        match self {
            PackageRepository::S3(s3) => String::from_str("S3 resources located at ").concat(
                s3.url.as_str(),
            ),
            PackageRepository::Local(fs) => String::from_str("Local resources located at ").concat(
                fs.path.as_str(),
            ),
        }
    }
}

} // verus!
