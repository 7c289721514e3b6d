//! The second-generation user configuration model; like the first, but
//! cloneable and keyed per user.

use crate::string_map::StringMap;
use crate::strutil::opt_view;
use vstd::prelude::*;

verus! {

/// The whole user configuration: API tokens and the tool table.
pub struct UserConfig {
    pub tokens: Tokens,
    tools: StringMap<ApplicationConfig>,
}

/// The mathematical value of the user configuration.
#[verifier::ext_equal]
pub ghost struct UserConfigView {
    pub github_token: Option<Seq<char>>,
    pub tools: Map<Seq<char>, ApplicationConfigView>,
}

impl View for UserConfig {
    type V = UserConfigView;

    closed spec fn view(&self) -> UserConfigView {
        UserConfigView { github_token: opt_view(self.tokens.github), tools: self.tools@ }
    }
}

impl UserConfig {
    /// Assembles a configuration.
    pub fn new(tokens: Tokens, tools: StringMap<ApplicationConfig>) -> (r: Self)
        ensures
            r@.github_token == opt_view(tokens.github),
            r@.tools == tools@,
    {
        UserConfig { tokens, tools }
    }

    /// The configured tools, keyed by name.
    pub fn tools(&self) -> (r: &StringMap<ApplicationConfig>)
        ensures
            r@ == self@.tools,
    {
        &self.tools
    }
}

/// API tokens; absent by default.
#[derive(Debug)]
pub struct Tokens {
    pub github: Option<String>,
}

impl Default for Tokens {
    fn default() -> (r: Self)
        ensures
            r.github is None,
    {
        Tokens { github: Option::None }
    }
}

impl Clone for Tokens {
    fn clone(&self) -> (r: Self)
        ensures
            opt_view(r.github) == opt_view(self.github),
    {
        Tokens { github: crate::strutil::opt_clone(&self.github) }
    }
}

/// One tool's configuration.
pub struct ApplicationConfig {
    pub version_source: VersionSource,
    pub update_frequency: UpdateFrequency,
    pub artifact: ArtifactSource,
}

/// The mathematical value of one tool's configuration.
#[verifier::ext_equal]
pub ghost struct ApplicationConfigView {
    pub version_source: VersionSourceView,
    pub update_frequency: UpdateFrequency,
    pub artifact: ArtifactSourceView,
}

impl View for ApplicationConfig {
    type V = ApplicationConfigView;

    open spec fn view(&self) -> ApplicationConfigView {
        ApplicationConfigView {
            version_source: self.version_source@,
            update_frequency: self.update_frequency,
            artifact: self.artifact@,
        }
    }
}

impl ApplicationConfig {
    /// Where new versions of the tool are discovered.
    pub fn version_source(&self) -> (r: &VersionSource)
        ensures
            r@ == self@.version_source,
    {
        &self.version_source
    }

    /// How often checking for updates is worthwhile.
    pub fn update_frequency(&self) -> (r: &UpdateFrequency)
        ensures
            *r == self@.update_frequency,
    {
        &self.update_frequency
    }
}

impl Clone for ApplicationConfig {
    fn clone(&self) -> (r: Self)
        ensures
            r@ == self@,
    {
        ApplicationConfig {
            version_source: self.version_source.clone(),
            update_frequency: self.update_frequency,
            artifact: self.artifact.clone(),
        }
    }
}

/// Where a tool's releases live.
pub enum VersionSource {
    GitHub { owner: String, repo: String },
}

/// The mathematical value of a version source.
#[verifier::ext_equal]
pub ghost enum VersionSourceView {
    GitHub { owner: Seq<char>, repo: Seq<char> },
}

impl View for VersionSource {
    type V = VersionSourceView;

    open spec fn view(&self) -> VersionSourceView {
        match self {
            VersionSource::GitHub { owner, repo } => VersionSourceView::GitHub {
                owner: owner@,
                repo: repo@,
            },
        }
    }
}

impl Clone for VersionSource {
    fn clone(&self) -> (r: Self)
        ensures
            r@ == self@,
    {
        match self {
            VersionSource::GitHub { owner, repo } => VersionSource::GitHub {
                owner: owner.clone(),
                repo: repo.clone(),
            },
        }
    }
}

/// The shape a released artifact comes in.
pub enum ArtifactSource {
    Zip { name: String, path: String },
    TGZ { name: String, path: String },
    Raw { name: String },
}

/// The mathematical value of an artifact shape.
#[verifier::ext_equal]
pub ghost enum ArtifactSourceView {
    Zip { name: Seq<char>, path: Seq<char> },
    TGZ { name: Seq<char>, path: Seq<char> },
    Raw { name: Seq<char> },
}

impl View for ArtifactSource {
    type V = ArtifactSourceView;

    open spec fn view(&self) -> ArtifactSourceView {
        match self {
            ArtifactSource::Zip { name, path } => ArtifactSourceView::Zip {
                name: name@,
                path: path@,
            },
            ArtifactSource::TGZ { name, path } => ArtifactSourceView::TGZ {
                name: name@,
                path: path@,
            },
            ArtifactSource::Raw { name } => ArtifactSourceView::Raw { name: name@ },
        }
    }
}

impl Clone for ArtifactSource {
    fn clone(&self) -> (r: Self)
        ensures
            r@ == self@,
    {
        match self {
            ArtifactSource::Zip { name, path } => ArtifactSource::Zip {
                name: name.clone(),
                path: path.clone(),
            },
            ArtifactSource::TGZ { name, path } => ArtifactSource::TGZ {
                name: name.clone(),
                path: path.clone(),
            },
            ArtifactSource::Raw { name } => ArtifactSource::Raw { name: name.clone() },
        }
    }
}

impl ArtifactSource {
    /// The artifact's file name on the release.
    pub fn get_name(&self) -> (r: String)
        ensures
            r@ == match self@ {
                ArtifactSourceView::Zip { name, path } => name,
                ArtifactSourceView::TGZ { name, path } => name,
                ArtifactSourceView::Raw { name } => name,
            },
    {
        match self {
            ArtifactSource::Zip { name, path: _ } => name.clone(),
            ArtifactSource::TGZ { name, path: _ } => name.clone(),
            ArtifactSource::Raw { name } => name.clone(),
        }
    }
}

/// How often a tool wants update checks.
#[derive(Debug, PartialEq, Eq, Structural, Clone, Copy)]
pub enum UpdateFrequency {
    Fast,
    Medium,
    Slow,
    EveryTime,
}

} // verus!
