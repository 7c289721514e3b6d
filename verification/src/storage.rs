//! The first generation of the storage layer's data shapes: recorded
//! tool versions and their download state.

pub mod lock;
pub mod model;
