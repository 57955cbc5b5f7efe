//! The GUI of a plugin inside a host window.

pub mod controller;
pub mod layout;
pub mod probe;
pub mod runtime;
pub mod session;
pub mod thread_lease;
pub mod window;
