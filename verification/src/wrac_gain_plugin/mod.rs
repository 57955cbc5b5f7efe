//! A gain plugin: its parameters, its state, its audio and its GUI.

pub mod audio;
pub mod audio_ports;
pub mod commands;
pub mod gui_size;
pub mod identity;
pub mod logging;
pub mod notifier;
pub mod parameters;
pub mod state;
