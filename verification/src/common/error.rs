//! The first-generation error model: errors grouped by origin, each
//! variant carrying a stable error code, and the call site they were
//! raised from.

use crate::strutil::dec_str_view;
use vstd::prelude::*;
use vstd::string::StringExecFns;

verus! {

/// Where an error was raised: a source file and a line.
#[derive(Debug)]
pub struct ErrorCallSite {
    pub line: u32,
    pub file: String,
}

impl ErrorCallSite {
    /// Records a call site.
    pub fn new(line: u32, file: &str) -> (r: Self)
        ensures
            r.line == line,
            r.file@ == file@,
    {
        ErrorCallSite { line, file: String::from_str(file) }
    }

    /// Renders the call site as `file#line`.
    pub fn site_text(&self) -> (r: String)
        ensures
            r@ == self.file@ + "#"@ + dec_str_view(self.line as nat),
    {
        let s = self.file.clone();
        let s = s.concat("#");
        s.concat(crate::strutil::u64_to_string(self.line as u64).as_str())
    }
}

/// A command failure: unknown, or an I/O, configuration, or API error,
/// each with the site that raised it.
#[derive(Debug)]
pub enum CliError {
    Unknown(ErrorCallSite, ()),
    IO(ErrorCallSite, IOError),
    Config(ErrorCallSite, ConfigError),
    API(ErrorCallSite, ApiError),
}

/// Filesystem failures.
#[derive(Debug)]
pub enum IOError {
    UnableToReadFile(String, String),
    GernalIOError(String),
    UnableToMoveArtifact(String),
    UnableToExtractFile(String),
}

/// Configuration failures.
#[derive(Debug)]
pub enum ConfigError {
    ConfigFormatError(String),
    ConfigFileNotFound(String),
    ToolNotFound(String),
    UnableToWriteConfig(String),
}

/// Failures while talking to an artifact host.
#[derive(Debug)]
pub enum ApiError {
    UnableToContactGitHub(String),
    CallWasNotSuccessful(String),
    GitHubTokenNotProvided,
    UnableToDownloadArtifact(String),
}

impl IOError {
    /// The stable code of this error, by variant position.
    pub fn get_error_code(&self) -> (r: String)
        ensures
            r@ == match self {
                IOError::UnableToReadFile(_, _) => "IO-001"@,
                IOError::GernalIOError(_) => "IO-002"@,
                IOError::UnableToMoveArtifact(_) => "IO-003"@,
                IOError::UnableToExtractFile(_) => "IO-004"@,
            },
    {
        match self {
            IOError::UnableToReadFile(_, _) => String::from_str("IO-001"),
            IOError::GernalIOError(_) => String::from_str("IO-002"),
            IOError::UnableToMoveArtifact(_) => String::from_str("IO-003"),
            IOError::UnableToExtractFile(_) => String::from_str("IO-004"),
        }
    }

    /// Renders the variant with its payload, quoted as written.
    pub fn detail_text(&self) -> (r: String)
        ensures
            r@ == match self {
                IOError::UnableToReadFile(p, m) => "UnableToReadFile(\""@ + p@ + "\", \""@ + m@
                    + "\")"@,
                IOError::GernalIOError(m) => "GernalIOError(\""@ + m@ + "\")"@,
                IOError::UnableToMoveArtifact(m) => "UnableToMoveArtifact(\""@ + m@ + "\")"@,
                IOError::UnableToExtractFile(m) => "UnableToExtractFile(\""@ + m@ + "\")"@,
            },
    {
        match self {
            IOError::UnableToReadFile(p, m) => {
                let s = String::from_str("UnableToReadFile(\"");
                let s = s.concat(p.as_str());
                let s = s.concat("\", \"");
                let s = s.concat(m.as_str());
                s.concat("\")")
            },
            IOError::GernalIOError(m) => wrap_variant("GernalIOError(\"", m),
            IOError::UnableToMoveArtifact(m) => wrap_variant("UnableToMoveArtifact(\"", m),
            IOError::UnableToExtractFile(m) => wrap_variant("UnableToExtractFile(\"", m),
        }
    }
}

fn wrap_variant(head: &str, payload: &String) -> (r: String)
    ensures
        r@ == head@ + payload@ + "\")"@,
{
    let s = String::from_str(head);
    let s = s.concat(payload.as_str());
    s.concat("\")")
}

impl ConfigError {
    /// The stable code of this error, by variant position.
    pub fn get_error_code(&self) -> (r: String)
        ensures
            r@ == match self {
                ConfigError::ConfigFormatError(_) => "CFG-001"@,
                ConfigError::ConfigFileNotFound(_) => "CFG-002"@,
                ConfigError::ToolNotFound(_) => "CFG-003"@,
                ConfigError::UnableToWriteConfig(_) => "CFG-004"@,
            },
    {
        match self {
            ConfigError::ConfigFormatError(_) => String::from_str("CFG-001"),
            ConfigError::ConfigFileNotFound(_) => String::from_str("CFG-002"),
            ConfigError::ToolNotFound(_) => String::from_str("CFG-003"),
            ConfigError::UnableToWriteConfig(_) => String::from_str("CFG-004"),
        }
    }

    /// Renders the variant with its payload, quoted as written.
    pub fn detail_text(&self) -> (r: String)
        ensures
            r@ == match self {
                ConfigError::ConfigFormatError(m) => "ConfigFormatError(\""@ + m@ + "\")"@,
                ConfigError::ConfigFileNotFound(m) => "ConfigFileNotFound(\""@ + m@ + "\")"@,
                ConfigError::ToolNotFound(m) => "ToolNotFound(\""@ + m@ + "\")"@,
                ConfigError::UnableToWriteConfig(m) => "UnableToWriteConfig(\""@ + m@ + "\")"@,
            },
    {
        match self {
            ConfigError::ConfigFormatError(m) => wrap_variant("ConfigFormatError(\"", m),
            ConfigError::ConfigFileNotFound(m) => wrap_variant("ConfigFileNotFound(\"", m),
            ConfigError::ToolNotFound(m) => wrap_variant("ToolNotFound(\"", m),
            ConfigError::UnableToWriteConfig(m) => wrap_variant("UnableToWriteConfig(\"", m),
        }
    }
}

impl ApiError {
    /// The stable code of this error, by variant position.
    pub fn get_error_code(&self) -> (r: String)
        ensures
            r@ == match self {
                ApiError::UnableToContactGitHub(_) => "API-001"@,
                ApiError::CallWasNotSuccessful(_) => "API-002"@,
                ApiError::GitHubTokenNotProvided => "API-003"@,
                ApiError::UnableToDownloadArtifact(_) => "API-004"@,
            },
    {
        match self {
            ApiError::UnableToContactGitHub(_) => String::from_str("API-001"),
            ApiError::CallWasNotSuccessful(_) => String::from_str("API-002"),
            ApiError::GitHubTokenNotProvided => String::from_str("API-003"),
            ApiError::UnableToDownloadArtifact(_) => String::from_str("API-004"),
        }
    }

    /// Renders the variant with its payload, quoted as written.
    pub fn detail_text(&self) -> (r: String)
        ensures
            r@ == match self {
                ApiError::UnableToContactGitHub(m) => "UnableToContactGitHub(\""@ + m@ + "\")"@,
                ApiError::CallWasNotSuccessful(m) => "CallWasNotSuccessful(\""@ + m@ + "\")"@,
                ApiError::GitHubTokenNotProvided => "GitHubTokenNotProvided"@,
                ApiError::UnableToDownloadArtifact(m) => "UnableToDownloadArtifact(\""@ + m@
                    + "\")"@,
            },
    {
        match self {
            ApiError::UnableToContactGitHub(m) => wrap_variant("UnableToContactGitHub(\"", m),
            ApiError::CallWasNotSuccessful(m) => wrap_variant("CallWasNotSuccessful(\"", m),
            ApiError::GitHubTokenNotProvided => String::from_str("GitHubTokenNotProvided"),
            ApiError::UnableToDownloadArtifact(m) => wrap_variant(
                "UnableToDownloadArtifact(\"",
                m,
            ),
        }
    }
}

impl CliError {
    /// Renders the failure as `[code] detail`, or the apology for an
    /// unknown one with its call site.
    pub fn error_text(&self) -> (r: String)
        ensures
            r@ == match self {
                CliError::Unknown(site, _) => "["@ + site.file@ + "#"@ + dec_str_view(
                    site.line as nat,
                ) + "] Unknown Error... Sorry!"@,
                CliError::IO(_, e) => "["@ + e.get_error_code_view() + "] "@
                    + e.detail_text_view(),
                CliError::Config(_, e) => "["@ + e.get_error_code_view() + "] "@
                    + e.detail_text_view(),
                CliError::API(_, e) => "["@ + e.get_error_code_view() + "] "@
                    + e.detail_text_view(),
            },
    {
        match self {
            CliError::Unknown(site, _) => {
                let s = String::from_str("[");
                let s = s.concat(site.site_text().as_str());
                s.concat("] Unknown Error... Sorry!")
            },
            CliError::IO(_, e) => bracket_code(e.get_error_code(), e.detail_text()),
            CliError::Config(_, e) => bracket_code(e.get_error_code(), e.detail_text()),
            CliError::API(_, e) => bracket_code(e.get_error_code(), e.detail_text()),
        }
    }

    /// The process exit code the failure maps to.
    pub fn exit_code(&self) -> (r: i32)
        ensures
            r == match self {
                CliError::Unknown(_, _) => 9i32,
                CliError::IO(_, _) => 10i32,
                CliError::Config(_, _) => 11i32,
                CliError::API(_, _) => 12i32,
            },
    {
        match self {
            CliError::Unknown(_, _) => 9,
            CliError::IO(_, _) => 10,
            CliError::Config(_, _) => 11,
            CliError::API(_, _) => 12,
        }
    }
}

fn bracket_code(code: String, detail: String) -> (r: String)
    ensures
        r@ == "["@ + code@ + "] "@ + detail@,
{
    let s = String::from_str("[");
    let s = s.concat(code.as_str());
    let s = s.concat("] ");
    s.concat(detail.as_str())
}

impl IOError {
    /// The spec-level error code, mirroring `get_error_code`.
    pub open spec fn get_error_code_view(&self) -> Seq<char> {
        match self {
            IOError::UnableToReadFile(_, _) => "IO-001"@,
            IOError::GernalIOError(_) => "IO-002"@,
            IOError::UnableToMoveArtifact(_) => "IO-003"@,
            IOError::UnableToExtractFile(_) => "IO-004"@,
        }
    }

    /// The spec-level detail text, mirroring `detail_text`.
    pub open spec fn detail_text_view(&self) -> Seq<char> {
        match self {
            IOError::UnableToReadFile(p, m) => "UnableToReadFile(\""@ + p@ + "\", \""@ + m@
                + "\")"@,
            IOError::GernalIOError(m) => "GernalIOError(\""@ + m@ + "\")"@,
            IOError::UnableToMoveArtifact(m) => "UnableToMoveArtifact(\""@ + m@ + "\")"@,
            IOError::UnableToExtractFile(m) => "UnableToExtractFile(\""@ + m@ + "\")"@,
        }
    }
}

impl ConfigError {
    /// The spec-level error code, mirroring `get_error_code`.
    pub open spec fn get_error_code_view(&self) -> Seq<char> {
        match self {
            ConfigError::ConfigFormatError(_) => "CFG-001"@,
            ConfigError::ConfigFileNotFound(_) => "CFG-002"@,
            ConfigError::ToolNotFound(_) => "CFG-003"@,
            ConfigError::UnableToWriteConfig(_) => "CFG-004"@,
        }
    }

    /// The spec-level detail text, mirroring `detail_text`.
    pub open spec fn detail_text_view(&self) -> Seq<char> {
        match self {
            ConfigError::ConfigFormatError(m) => "ConfigFormatError(\""@ + m@ + "\")"@,
            ConfigError::ConfigFileNotFound(m) => "ConfigFileNotFound(\""@ + m@ + "\")"@,
            ConfigError::ToolNotFound(m) => "ToolNotFound(\""@ + m@ + "\")"@,
            ConfigError::UnableToWriteConfig(m) => "UnableToWriteConfig(\""@ + m@ + "\")"@,
        }
    }
}

impl ApiError {
    /// The spec-level error code, mirroring `get_error_code`.
    pub open spec fn get_error_code_view(&self) -> Seq<char> {
        match self {
            ApiError::UnableToContactGitHub(_) => "API-001"@,
            ApiError::CallWasNotSuccessful(_) => "API-002"@,
            ApiError::GitHubTokenNotProvided => "API-003"@,
            ApiError::UnableToDownloadArtifact(_) => "API-004"@,
        }
    }

    /// The spec-level detail text, mirroring `detail_text`.
    pub open spec fn detail_text_view(&self) -> Seq<char> {
        match self {
            ApiError::UnableToContactGitHub(m) => "UnableToContactGitHub(\""@ + m@ + "\")"@,
            ApiError::CallWasNotSuccessful(m) => "CallWasNotSuccessful(\""@ + m@ + "\")"@,
            ApiError::GitHubTokenNotProvided => "GitHubTokenNotProvided"@,
            ApiError::UnableToDownloadArtifact(m) => "UnableToDownloadArtifact(\""@ + m@ + "\")"@,
        }
    }
}

} // verus!
