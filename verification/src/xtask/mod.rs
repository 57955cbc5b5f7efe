//! The build commands of the repository.

pub mod commands;
pub mod context;
pub mod targets;
pub mod util;
