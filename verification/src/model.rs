//! Data model: package definitions and manifests, and remote
//! repository configurations.

pub mod package;
pub mod remote;

pub use package::{
    GeneratedDefinedPackage, GenericPackage, InstalledPackageContainer, ManifestView,
    UserDefinedPackage, GENERATED_FILE_NAME,
};
pub use remote::{
    AuthScript, AuthStrategy, LocalPackageRepository, PackageRepository, RemotePackage,
    S3PackageRepository,
};
