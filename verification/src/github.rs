//! The first-generation release-query pieces: the GraphQL request
//! shape and the authorization header a token yields.

use crate::common::error::{ApiError, CliError, ErrorCallSite};
use crate::common::model::Tokens;
use crate::strutil::opt_view;
use vstd::prelude::*;
use vstd::string::StringExecFns;

verus! {

/// A release query: the newest releases of a repository, scoped to one
/// artifact name.
pub enum GraphQlRequest {
    GetReleases { owner: String, repo: String, artifact_name: String, limit: i32 },
}

/// The authorization header a configured token yields; without a
/// token, release queries cannot be made at all.
pub fn get_github_token(tokens: &Tokens) -> (r: Result<String, CliError>)
    ensures
        match r {
            Result::Ok(header) => (opt_view(tokens.github) matches Option::Some(t) && header@
                == "bearer "@ + t),
            Result::Err(e) => {
                &&& opt_view(tokens.github) is None
                &&& (e matches CliError::API(_, api) && api is GitHubTokenNotProvided)
            },
        },
{
    match &tokens.github {
        Option::Some(value) => {
            let s = String::from_str("bearer ");
            Result::Ok(s.concat(value.as_str()))
        },
        Option::None => Result::Err(
            CliError::API(ErrorCallSite::new(0, "github"), ApiError::GitHubTokenNotProvided),
        ),
    }
}

} // verus!
