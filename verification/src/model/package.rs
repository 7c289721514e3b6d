//! Package definitions: what a packager writes, and the manifest that
//! every produced archive carries.

use crate::string_map::StringMap;
use crate::strutil::opt_view;
use crate::util::{make_package_id, package_id_view};
use vstd::prelude::*;

verus! {

/// The name of the manifest entry inside every produced archive.
pub const GENERATED_FILE_NAME: &'static str = "archive.json";

/// A package definition as a packager writes it: a name, the
/// entrypoints relative to the archive root, and a version.
pub struct UserDefinedPackage<'a> {
    pub name: &'a str,
    pub entrypoints: Vec<&'a str>,
    pub version: &'a str,
}

/// The manifest written into every archive: the entrypoint table keyed
/// by binary name, the archival timestamp, and a hash per packaged
/// file.  The `achived_at` key is kept as the archive format spells it.
pub struct GeneratedDefinedPackage {
    pub name: String,
    pub entrypoints: StringMap<String>,
    pub version: String,
    pub achived_at: i64,
    pub file_hashes: StringMap<String>,
}

/// The mathematical value of a manifest.
#[verifier::ext_equal]
pub ghost struct ManifestView {
    pub name: Seq<char>,
    pub entrypoints: Map<Seq<char>, Seq<char>>,
    pub version: Seq<char>,
    pub achived_at: int,
    pub file_hashes: Map<Seq<char>, Seq<char>>,
}

impl View for GeneratedDefinedPackage {
    type V = ManifestView;

    open spec fn view(&self) -> ManifestView {
        ManifestView {
            name: self.name@,
            entrypoints: self.entrypoints@,
            version: self.version@,
            achived_at: self.achived_at as int,
            file_hashes: self.file_hashes@,
        }
    }
}

/// A freshly placed package: its manifest, where its files now live,
/// and which remote (if any) it came from.
pub struct InstalledPackageContainer {
    pub package: GeneratedDefinedPackage,
    pub path_to_root: String,
    pub remote_name: Option<String>,
    pub etag: Option<String>,
}

/// The mathematical value of a placed package.
#[verifier::ext_equal]
pub ghost struct ContainerView {
    pub package: ManifestView,
    pub path_to_root: Seq<char>,
    pub remote_name: Option<Seq<char>>,
    pub etag: Option<Seq<char>>,
}

impl View for InstalledPackageContainer {
    type V = ContainerView;

    open spec fn view(&self) -> ContainerView {
        ContainerView {
            package: self.package@,
            path_to_root: self.path_to_root@,
            remote_name: opt_view(self.remote_name),
            etag: opt_view(self.etag),
        }
    }
}

/// Anything that can say which package it is: a name, a version, and
/// the URN the two determine.
pub trait GenericPackage {
    /// The package's name.
    spec fn spec_name(&self) -> Seq<char>;

    /// The package's version.
    spec fn spec_version(&self) -> Seq<char>;

    fn name(&self) -> (r: String)
        ensures
            r@ == self.spec_name(),
    ;

    fn version(&self) -> (r: String)
        ensures
            r@ == self.spec_version(),
    ;

    fn id(&self) -> (r: String)
        ensures
            r@ == package_id_view(self.spec_name(), self.spec_version()),
    ;
}

impl GenericPackage for GeneratedDefinedPackage {
    open spec fn spec_name(&self) -> Seq<char> {
        self.name@
    }

    open spec fn spec_version(&self) -> Seq<char> {
        self.version@
    }

    fn name(&self) -> (r: String) {
        self.name.clone()
    }

    fn version(&self) -> (r: String) {
        self.version.clone()
    }

    fn id(&self) -> (r: String) {
        make_package_id(self.name.as_str(), self.version.as_str())
    }
}

} // verus!
