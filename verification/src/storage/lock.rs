//! The first-generation lock document's small shapes.

use vstd::prelude::*;

verus! {

/// Which version of a tool the user wants on their path.
#[derive(Debug)]
pub enum WantedVersion {
    Latest,
    Specific(String),
}

/// Where the token for a download comes from.
#[derive(Debug, PartialEq, Eq, Structural, Clone, Copy)]
pub enum AuthTokenSource {
    Anonymous,
    GitHub,
}

/// The container format of a downloadable artifact.
#[derive(Debug, PartialEq, Eq, Structural, Clone, Copy)]
pub enum ArtifactType {
    Tgz,
    Raw,
    Zip,
}

} // verus!
