//! Installed-state engine for a per-user tool version manager.
//!
//! The library keeps a durable, versioned record of installed packages,
//! their binaries, and the "current binary" table that a launcher shim
//! dispatches through.  Every operation on that record is specified and
//! verified here; the thin shell around it (argument parsing, file and
//! network I/O, process replacement) lives outside the library.

pub mod cli;
pub mod common;
pub mod config;
pub mod codec;
pub mod commands;
pub mod github;
pub mod laws;
pub mod model;
pub mod package;
pub mod remote;
pub mod state;
pub mod storage;
pub mod string_map;
pub mod strutil;
pub mod util;

pub use util::make_package_id;
