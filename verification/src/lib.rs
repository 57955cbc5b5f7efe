//! Verified logic of the WRAC audio plugin template.

pub mod clap_abi;
pub mod run_loop_timer;
pub mod text;
pub mod wrac_clap_adapter;
pub mod wrac_gain_plugin;
pub mod wrac_wxp_gui;
pub mod wrac_xtask;
pub mod xtask;
