//! The first-generation configuration model: tools keyed by name, each
//! with a version source, an update cadence, and an artifact shape.

use crate::string_map::StringMap;
use crate::strutil::opt_view;
use vstd::prelude::*;
use vstd::string::StringExecFns;

verus! {

/// The whole configuration: API tokens and the tool table.
pub struct GlobalConfig {
    pub tokens: Tokens,
    tools: StringMap<ApplicationConfig>,
}

/// The mathematical value of the whole configuration.
#[verifier::ext_equal]
pub ghost struct GlobalConfigView {
    pub github_token: Option<Seq<char>>,
    pub tools: Map<Seq<char>, ApplicationConfigView>,
}

impl View for GlobalConfig {
    type V = GlobalConfigView;

    closed spec fn view(&self) -> GlobalConfigView {
        GlobalConfigView { github_token: opt_view(self.tokens.github), tools: self.tools@ }
    }
}

impl GlobalConfig {
    /// Assembles a configuration.
    pub fn new(tokens: Tokens, tools: StringMap<ApplicationConfig>) -> (r: Self)
        ensures
            r@.github_token == opt_view(tokens.github),
            r@.tools == tools@,
    {
        GlobalConfig { tokens, tools }
    }

    /// The configured tools, keyed by name.
    pub fn tools(&self) -> (r: &StringMap<ApplicationConfig>)
        ensures
            r@ == self@.tools,
    {
        &self.tools
    }
}

/// API tokens; absent by default.
#[derive(Debug)]
pub struct Tokens {
    pub github: Option<String>,
}

impl Default for Tokens {
    fn default() -> (r: Self)
        ensures
            r.github is None,
    {
        Tokens { github: Option::None }
    }
}

impl Clone for Tokens {
    fn clone(&self) -> (r: Self)
        ensures
            opt_view(r.github) == opt_view(self.github),
    {
        Tokens { github: crate::strutil::opt_clone(&self.github) }
    }
}

/// One tool's configuration.
pub struct ApplicationConfig {
    pub version_source: VersionSource,
    pub update_frequency: UpdateFrequency,
    pub artifact: ArtifactSource,
}

/// The mathematical value of one tool's configuration.
#[verifier::ext_equal]
pub ghost struct ApplicationConfigView {
    pub version_source: VersionSourceView,
    pub update_frequency: UpdateFrequency,
    pub artifact: ArtifactSourceView,
}

impl View for ApplicationConfig {
    type V = ApplicationConfigView;

    open spec fn view(&self) -> ApplicationConfigView {
        ApplicationConfigView {
            version_source: self.version_source@,
            update_frequency: self.update_frequency,
            artifact: self.artifact@,
        }
    }
}

impl ApplicationConfig {
    /// Where new versions of the tool are discovered.
    pub fn version_source(&self) -> (r: &VersionSource)
        ensures
            r@ == self@.version_source,
    {
        &self.version_source
    }

    /// How often checking for updates is worthwhile.
    pub fn update_frequency(&self) -> (r: &UpdateFrequency)
        ensures
            *r == self@.update_frequency,
    {
        &self.update_frequency
    }

    /// The artifact the tool ships as.
    pub fn artifact(&self) -> (r: &ArtifactSource)
        ensures
            r@ == self@.artifact,
    {
        &self.artifact
    }
}

/// Where a tool's releases live.
pub enum VersionSource {
    GitHub { owner: String, repo: String },
}

/// The mathematical value of a version source.
#[verifier::ext_equal]
pub ghost enum VersionSourceView {
    GitHub { owner: Seq<char>, repo: Seq<char> },
}

impl View for VersionSource {
    type V = VersionSourceView;

    open spec fn view(&self) -> VersionSourceView {
        match self {
            VersionSource::GitHub { owner, repo } => VersionSourceView::GitHub {
                owner: owner@,
                repo: repo@,
            },
        }
    }
}

/// The shape a released artifact comes in.
pub enum ArtifactSource {
    Zip { name: String, path: String },
    TGZ { name: String, path: String },
    Raw { name: String },
}

/// The mathematical value of an artifact shape.
#[verifier::ext_equal]
pub ghost enum ArtifactSourceView {
    Zip { name: Seq<char>, path: Seq<char> },
    TGZ { name: Seq<char>, path: Seq<char> },
    Raw { name: Seq<char> },
}

impl View for ArtifactSource {
    type V = ArtifactSourceView;

    open spec fn view(&self) -> ArtifactSourceView {
        match self {
            ArtifactSource::Zip { name, path } => ArtifactSourceView::Zip {
                name: name@,
                path: path@,
            },
            ArtifactSource::TGZ { name, path } => ArtifactSourceView::TGZ {
                name: name@,
                path: path@,
            },
            ArtifactSource::Raw { name } => ArtifactSourceView::Raw { name: name@ },
        }
    }
}

impl ArtifactSource {
    /// The artifact's file name on the release.
    pub fn get_name(&self) -> (r: String)
        ensures
            r@ == match self@ {
                ArtifactSourceView::Zip { name, path } => name,
                ArtifactSourceView::TGZ { name, path } => name,
                ArtifactSourceView::Raw { name } => name,
            },
    {
        match self {
            ArtifactSource::Zip { name, path: _ } => name.clone(),
            ArtifactSource::TGZ { name, path: _ } => name.clone(),
            ArtifactSource::Raw { name } => name.clone(),
        }
    }

    /// The path of the executable inside the artifact; a raw artifact
    /// is the executable itself.
    pub fn path_to_art(&self) -> (r: String)
        ensures
            r@ == match self@ {
                ArtifactSourceView::Zip { name, path } => path,
                ArtifactSourceView::TGZ { name, path } => path,
                ArtifactSourceView::Raw { name } => name,
            },
    {
        match self {
            ArtifactSource::Zip { name: _, path } => path.clone(),
            ArtifactSource::TGZ { name: _, path } => path.clone(),
            ArtifactSource::Raw { name } => name.clone(),
        }
    }
}

/// How often a tool wants update checks.
#[derive(Debug, PartialEq, Eq, Structural, Clone, Copy)]
pub enum UpdateFrequency {
    Fast,
    Medium,
    Slow,
    EveryTime,
}

} // verus!
