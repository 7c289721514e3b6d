//! Stable identifiers, the user-scoped directory layout, and the
//! logging verbosity ladder.

use crate::cli::LoggingOpts;
use crate::strutil::join_path;
use vstd::prelude::*;
use vstd::string::StringExecFns;

verus! {

/// The URN under which a package is recorded:
/// `urn:package:toolup/<name>/<version>`.
pub open spec fn package_id_view(name: Seq<char>, version: Seq<char>) -> Seq<char> {
    "urn:package:toolup/"@ + name + "/"@ + version
}

/// The URN under which a binary is recorded: the owning package's URN
/// followed by the binary's name.
pub open spec fn binary_id_view(name: Seq<char>, version: Seq<char>, binary: Seq<char>) -> Seq<
    char,
> {
    package_id_view(name, version) + "/"@ + binary
}

/// Builds the stable URN that identifies an installed package.
pub fn make_package_id(name: &str, version: &str) -> (r: String)
    ensures
        r@ == package_id_view(name@, version@),
{
    let s = String::from_str("urn:package:toolup/");
    let s = s.concat(name);
    let s = s.concat("/");
    s.concat(version)
}

/// Builds the stable URN that identifies one binary of a package.
pub fn make_binary_id(name: &str, version: &str, binary: &str) -> (r: String)
    ensures
        r@ == binary_id_view(name@, version@, binary@),
{
    let s = make_package_id(name, version);
    let s = s.concat("/");
    s.concat(binary)
}

/// Two distinct binary names of one package never share a URN.
pub proof fn lemma_binary_id_injective(
    name: Seq<char>,
    version: Seq<char>,
    b1: Seq<char>,
    b2: Seq<char>,
)
    requires
        binary_id_view(name, version, b1) == binary_id_view(name, version, b2),
    ensures
        b1 == b2,
{
    let p = package_id_view(name, version) + "/"@;
    assert(p + b1 == p + b2);
    assert(b1.len() == b2.len()) by {
        assert((p + b1).len() == (p + b2).len());
    }
    assert forall|i: int| 0 <= i < b1.len() implies b1[i] == b2[i] by {
        assert((p + b1)[p.len() + i] == b1[i]);
        assert((p + b2)[p.len() + i] == b2[i]);
    }
    assert(b1 =~= b2);
}

/// The four user-scoped directories every command works from.
pub struct GlobalFolders {
    pub log_dir: String,
    pub config_dir: String,
    pub tool_root_dir: String,
}

/// The default log directory under a home directory.
pub fn default_log_dir(home_dir: &str) -> (r: String)
    ensures
        r@ == home_dir@ + "/.toolup/logs"@,
{
    let s = String::from_str(home_dir);
    s.concat("/.toolup/logs")
}

/// The default tool-root directory under a home directory.
pub fn default_toolup_dir(home_dir: &str) -> (r: String)
    ensures
        r@ == home_dir@ + "/.toolup"@,
{
    let s = String::from_str(home_dir);
    s.concat("/.toolup")
}

/// The default configuration directory under a home directory.
pub fn default_config_dir(home_dir: &str) -> (r: String)
    ensures
        r@ == home_dir@ + "/.toolup/config"@,
{
    let s = String::from_str(home_dir);
    s.concat("/.toolup/config")
}

impl GlobalFolders {
    /// Resolves the directory set from optional overrides, falling
    /// back to the defaults under the user's home directory.
    pub fn new(
        override_tool_root_dir: Option<String>,
        override_config_dir: Option<String>,
        home_dir: &str,
    ) -> (r: GlobalFolders)
        ensures
            r.log_dir@ == home_dir@ + "/.toolup/logs"@,
            r.tool_root_dir@ == match override_tool_root_dir {
                Option::Some(d) => d@,
                Option::None => home_dir@ + "/.toolup"@,
            },
            r.config_dir@ == match override_config_dir {
                Option::Some(d) => d@,
                Option::None => home_dir@ + "/.toolup/config"@,
            },
    {
        let log_dir = default_log_dir(home_dir);
        let tool_root_dir = match override_tool_root_dir {
            Option::Some(dir) => dir,
            Option::None => default_toolup_dir(home_dir),
        };
        let config_dir = match override_config_dir {
            Option::Some(dir) => dir,
            Option::None => default_config_dir(home_dir),
        };
        GlobalFolders { log_dir, config_dir, tool_root_dir }
    }

    /// The path of the installed-state document.
    pub fn global_state_file(&self) -> (r: String)
        ensures
            r@ == self.config_dir@ + "/"@ + "global-state.json"@,
    {
        join_path(self.config_dir.as_str(), "global-state.json")
    }

    /// The path of one remote's configuration file.
    pub fn make_remote_tool_config(&self, name: &str) -> (r: String)
        ensures
            r@ == self.config_dir@ + "/"@ + "remote.d"@ + "/"@ + name@ + ".json"@,
    {
        let dir = self.get_remote_config_dir();
        let file = String::from_str(name).concat(".json");
        join_path(dir.as_str(), file.as_str())
    }

    /// The directory that holds one configuration file per remote.
    pub fn get_remote_config_dir(&self) -> (r: String)
        ensures
            r@ == self.config_dir@ + "/"@ + "remote.d"@,
    {
        join_path(self.config_dir.as_str(), "remote.d")
    }

    /// The scratch directory that downloads land in.
    pub fn get_remote_download_dir(&self) -> (r: String)
        ensures
            r@ == self.config_dir@ + "/"@ + "remote-download"@,
    {
        join_path(self.config_dir.as_str(), "remote-download")
    }

    /// The directory of launcher links; users put it on their `PATH`.
    pub fn get_link_dir(&self) -> (r: String)
        ensures
            r@ == self.tool_root_dir@ + "/"@ + "_bin"@,
    {
        join_path(self.tool_root_dir.as_str(), "_bin")
    }
}

/// The logging verbosity ladder, from errors only up to tracing.
#[derive(PartialEq, Eq, Structural, Clone, Copy, Debug)]
pub enum LogLevel {
    Error,
    Warn,
    Info,
    Debug,
    Trace,
}

impl LoggingOpts {
    /// The level the command-line flags select: explicit error or warn
    /// flags win, then the repeatable debug flag raises the level.
    pub fn to_level(&self) -> (r: LogLevel)
        ensures
            r == (if self.error {
                LogLevel::Error
            } else if self.warn {
                LogLevel::Warn
            } else if self.debug == 0 {
                LogLevel::Info
            } else if self.debug == 1 {
                LogLevel::Debug
            } else {
                LogLevel::Trace
            }),
    {
        if self.error {
            LogLevel::Error
        } else if self.warn {
            LogLevel::Warn
        } else if self.debug == 0 {
            LogLevel::Info
        } else if self.debug == 1 {
            LogLevel::Debug
        } else {
            LogLevel::Trace
        }
    }
}

} // verus!
