//! What connects a plugin product to a CLAP host.

pub mod api;
pub mod callbacks;
pub mod descriptor;
pub mod entry;
pub mod events;
pub mod extensions;
pub mod ffi;
pub mod gui_extension;
pub mod lifecycle;
pub mod parameter_info;
pub mod params;
pub mod ports;
pub mod process_buffer;
