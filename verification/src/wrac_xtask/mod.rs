//! Build, install and validation rules of a plugin product.

pub mod aax;
pub mod checks;
pub mod install;
pub mod metadata;
pub mod package;
pub mod steps;
pub mod targets;
pub mod tools;
pub mod validate;
pub mod vst3;
pub mod wrapper;
