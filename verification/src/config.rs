//! The second generation of the configuration model and its tool-lock
//! document's data shapes.

pub mod lock;
pub mod model;
