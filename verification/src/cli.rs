//! The command-line surface as plain data.  Argument parsing itself is
//! glue around the library; these types carry what a parsed invocation
//! means.

use vstd::prelude::*;

verus! {

/// One full invocation: logging flags, a subcommand, and the global
/// directory overrides.
pub struct Opts {
    pub logging_opts: LoggingOpts,
    pub sub_command: SubCommand,
    pub global_config: GlobalConfig,
}

/// The top-level subcommands.
pub enum SubCommand {
    Remote(RemoteSubCommand),
    Package(PackageSubCommand),
    Exec(ExecSubCommand),
    Config(ConfigSubCommand),
    Version,
}

/// Configuration queries.
pub enum ConfigSubCommand {
    GetLinkPath(GetPathSubCommand),
}

/// Prints the link directory.
pub struct GetPathSubCommand {}

/// Runs an installed binary, either the current one or a pinned version.
pub struct ExecSubCommand {
    pub version: Option<String>,
    pub command_name: String,
    pub args: Vec<String>,
}

/// Local package management.
pub enum PackageSubCommand {
    Init(InitToolSubCommand),
    Archive(ArchiveToolSubCommand),
    Install(InstallToolSubCommand),
}

/// Produces an archive from a prepared directory and a definition file.
pub struct ArchiveToolSubCommand {
    pub target_dir: String,
    pub application_config: String,
    pub archive_dir: String,
}

/// Writes a template package definition.
pub struct InitToolSubCommand {
    pub output_file: String,
}

/// Installs a local archive.
pub struct InstallToolSubCommand {
    pub archive_path: String,
    pub overwrite: bool,
}

/// Remote repository management.
pub enum RemoteSubCommand {
    Add(AddRemoteSubCommand),
    Delete(DeleteRemoteSubCommand),
    List(ListRemoteSubCommand),
    Update(UpdateRemoteSubCommand),
}

/// Updates every configured remote, or only the named one.
pub struct UpdateRemoteSubCommand {
    pub only: Option<String>,
}

/// Lists the configured remotes and their installed packages.
pub struct ListRemoteSubCommand {}

/// Deletes a remote configuration, optionally with its packages.
pub struct DeleteRemoteSubCommand {
    pub name: String,
    pub cascade: bool,
}

/// Adds a remote configuration.
pub enum AddRemoteSubCommand {
    Local(AddRemoteLocalSubCommand),
    S3(AddRemoteS3SubCommand),
}

/// A remote backed by a path on the local filesystem.
pub struct AddRemoteLocalSubCommand {
    pub name: String,
    pub path: String,
}

/// A remote backed by an S3 bucket.
pub struct AddRemoteS3SubCommand {
    pub name: String,
    pub url: String,
    pub auth: S3AuthType,
    pub auth_script: Option<String>,
}

/// How an S3 remote authenticates.
#[derive(PartialEq, Eq, Structural, Clone, Copy, Debug)]
pub enum S3AuthType {
    Anonymous,
    Host,
}

/// Placeholder arguments reserved for adding tools directly.
pub struct ToolAddArgs {}

/// The logging flags: a repeatable debug flag, warn and error
/// switches, and console echoing.
pub struct LoggingOpts {
    pub debug: u64,
    pub warn: bool,
    pub error: bool,
    pub console: bool,
}

/// The global directory overrides.
pub struct GlobalConfig {
    pub config_dir: Option<String>,
    pub tool_root_dir: Option<String>,
}

} // verus!
