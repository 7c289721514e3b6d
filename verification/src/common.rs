//! The first generation of the tool's shared pieces: its error model
//! with stable error codes, and its configuration data model.

pub mod error;
pub mod model;
