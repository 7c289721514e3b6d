//! The first-generation storage model: what a release query reports
//! and how a recorded tool version keeps its download details.

use crate::strutil::opt_view;
use vstd::prelude::*;

verus! {

/// One release as a version query reports it: its name, when it was
/// created, and its download URL when an artifact was published.
#[derive(Debug)]
pub struct VersionUrlResponse {
    name: String,
    created_at: i64,
    download_url: Option<String>,
}

impl VersionUrlResponse {
    /// The release's name, abstractly.
    pub closed spec fn spec_name(&self) -> Seq<char> {
        self.name@
    }

    /// When the release was created, abstractly.
    pub closed spec fn spec_created_at(&self) -> i64 {
        self.created_at
    }

    /// The release's download URL, abstractly.
    pub closed spec fn spec_download_url(&self) -> Option<Seq<char>> {
        opt_view(self.download_url)
    }

    /// Records a reported release.
    pub fn new(name: String, created_at: i64, download_url: Option<String>) -> (r: Self)
        ensures
            r.spec_name() == name@,
            r.spec_created_at() == created_at,
            r.spec_download_url() == opt_view(download_url),
    {
        VersionUrlResponse { name, created_at, download_url }
    }

    /// The release's name.
    pub fn name(&self) -> (r: String)
        ensures
            r@ == self.spec_name(),
    {
        self.name.clone()
    }

    /// The release's download URL, when an artifact was published.
    pub fn download_url(&self) -> (r: Option<String>)
        ensures
            opt_view(r) == self.spec_download_url(),
    {
        crate::strutil::opt_clone(&self.download_url)
    }
}

/// How requests for a tool's artifacts are authorized.
#[derive(Debug)]
pub enum AuthConfig {
    Anonymous,
    Authorization(String),
}

/// A recorded version: with a downloadable artifact, or without one.
#[derive(Debug)]
pub enum ToolVersion {
    NoArtifact(NoArtifact),
    Artifact(DonwloadableArtifact),
}

/// A release that published no artifact.
#[derive(Debug)]
pub struct NoArtifact {
    pub name: String,
    pub created: i64,
}

/// A release with a downloadable artifact.  The name is kept as the
/// storage document spells it.
#[derive(Debug)]
pub struct DonwloadableArtifact {
    pub name: String,
    pub created: i64,
    pub download_url: String,
    pub container: ArtifactType,
    pub installed: TookInstallDetails,
}

/// The container format of a downloadable artifact.
#[derive(Debug, PartialEq, Eq, Structural, Clone, Copy)]
pub enum ArtifactType {
    Zip,
    TGZ,
    Raw,
}

/// Where a version's executable sits once downloaded.  The name is
/// kept as the storage document spells it.
#[derive(Debug)]
pub struct TookInstallDetails {
    pub exec_path: String,
    pub downloaded_at: Option<i64>,
}

impl ToolVersion {
    /// Records a reported release: with its artifact when a download
    /// URL was published, and as artifact-less otherwise.
    pub fn new(
        url_response: VersionUrlResponse,
        container: ArtifactType,
        installed: TookInstallDetails,
    ) -> (r: Self)
        ensures
            match url_response.spec_download_url() {
                Option::Some(url) => (r matches ToolVersion::Artifact(art) && art.name@
                    == url_response.spec_name() && art.created == url_response.spec_created_at()
                    && art.download_url@ == url && art.container == container && art.installed
                    == installed),
                Option::None => (r matches ToolVersion::NoArtifact(n) && n.name@
                    == url_response.spec_name() && n.created == url_response.spec_created_at()),
            },
    {
        match url_response.download_url {
            Option::Some(url) => ToolVersion::Artifact(
                DonwloadableArtifact {
                    name: url_response.name,
                    download_url: url,
                    created: url_response.created_at,
                    container,
                    installed,
                },
            ),
            Option::None => ToolVersion::NoArtifact(
                NoArtifact { name: url_response.name, created: url_response.created_at },
            ),
        }
    }

    /// The release's name.
    pub fn get_name(&self) -> (r: String)
        ensures
            r@ == match self {
                ToolVersion::NoArtifact(no_art) => no_art.name@,
                ToolVersion::Artifact(art) => art.name@,
            },
    {
        match self {
            ToolVersion::NoArtifact(no_art) => no_art.name.clone(),
            ToolVersion::Artifact(art) => art.name.clone(),
        }
    }

    /// When the release was created.
    pub fn created_at(&self) -> (r: i64)
        ensures
            r == match self {
                ToolVersion::NoArtifact(no_art) => no_art.created,
                ToolVersion::Artifact(art) => art.created,
            },
    {
        match self {
            ToolVersion::NoArtifact(no_art) => no_art.created,
            ToolVersion::Artifact(art) => art.created,
        }
    }

    /// Whether the release published an artifact to download.
    pub fn is_downloadable(&self) -> (r: bool)
        ensures
            r == (self is Artifact),
    {
        match self {
            ToolVersion::NoArtifact(_) => false,
            ToolVersion::Artifact(_) => true,
        }
    }
}

} // verus!
