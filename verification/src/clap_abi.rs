//! Numbers that the CLAP interface fixes.

use vstd::prelude::*;

verus! {

pub const CLAP_PARAM_IS_STEPPED: u32 = 0x1;

pub const CLAP_PARAM_IS_PERIODIC: u32 = 0x2;

pub const CLAP_PARAM_IS_HIDDEN: u32 = 0x4;

pub const CLAP_PARAM_IS_READONLY: u32 = 0x8;

pub const CLAP_PARAM_IS_BYPASS: u32 = 0x10;

pub const CLAP_PARAM_IS_AUTOMATABLE: u32 = 0x20;

pub const CLAP_PARAM_IS_AUTOMATABLE_PER_NOTE_ID: u32 = 0x40;

pub const CLAP_PARAM_IS_AUTOMATABLE_PER_KEY: u32 = 0x80;

pub const CLAP_PARAM_IS_AUTOMATABLE_PER_CHANNEL: u32 = 0x100;

pub const CLAP_PARAM_IS_AUTOMATABLE_PER_PORT: u32 = 0x200;

pub const CLAP_PARAM_IS_MODULATABLE: u32 = 0x400;

pub const CLAP_PARAM_IS_MODULATABLE_PER_NOTE_ID: u32 = 0x800;

pub const CLAP_PARAM_IS_MODULATABLE_PER_KEY: u32 = 0x1000;

pub const CLAP_PARAM_IS_MODULATABLE_PER_CHANNEL: u32 = 0x2000;

pub const CLAP_PARAM_IS_MODULATABLE_PER_PORT: u32 = 0x4000;

pub const CLAP_PARAM_REQUIRES_PROCESS: u32 = 0x8000;

pub const CLAP_PARAM_IS_ENUM: u32 = 0x1_0000;

pub const CLAP_CORE_EVENT_SPACE_ID: u16 = 0;

pub const CLAP_EVENT_NOTE_ON: u16 = 0;

pub const CLAP_EVENT_NOTE_OFF: u16 = 1;

pub const CLAP_EVENT_NOTE_CHOKE: u16 = 2;

pub const CLAP_EVENT_NOTE_END: u16 = 3;

pub const CLAP_EVENT_NOTE_EXPRESSION: u16 = 4;

pub const CLAP_EVENT_PARAM_VALUE: u16 = 5;

pub const CLAP_EVENT_PARAM_MOD: u16 = 6;

pub const CLAP_EVENT_PARAM_GESTURE_BEGIN: u16 = 7;

pub const CLAP_EVENT_PARAM_GESTURE_END: u16 = 8;

pub const CLAP_EVENT_TRANSPORT: u16 = 9;

pub const CLAP_PROCESS_ERROR: i32 = 0;

pub const CLAP_PROCESS_CONTINUE: i32 = 1;

pub const CLAP_PROCESS_CONTINUE_IF_NOT_QUIET: i32 = 2;

pub const CLAP_PROCESS_TAIL: i32 = 3;

pub const CLAP_PROCESS_SLEEP: i32 = 4;

pub const CLAP_AUDIO_PORT_IS_MAIN: u32 = 1;

pub const CLAP_AUDIO_PORT_SUPPORTS_64BITS: u32 = 2;

pub const CLAP_AUDIO_PORT_PREFERS_64BITS: u32 = 4;

pub const CLAP_AUDIO_PORT_REQUIRES_COMMON_SAMPLE_SIZE: u32 = 8;

pub const CLAP_PORT_MONO: &'static str = "mono";

pub const CLAP_PORT_STEREO: &'static str = "stereo";

pub const CLAP_WINDOW_API_COCOA: &'static str = "cocoa";

pub const CLAP_WINDOW_API_WIN32: &'static str = "win32";

pub const CLAP_WINDOW_API_X11: &'static str = "x11";

pub const CLAP_EXT_AUDIO_PORTS: &'static str = "clap.audio-ports";

pub const CLAP_EXT_CONFIGURABLE_AUDIO_PORTS: &'static str = "clap.configurable-audio-ports/1";

pub const CLAP_EXT_CONFIGURABLE_AUDIO_PORTS_COMPAT: &'static str = "clap.configurable-audio-ports.draft1";

pub const CLAP_EXT_NOTE_PORTS: &'static str = "clap.note-ports";

pub const CLAP_EXT_PARAMS: &'static str = "clap.params";

pub const CLAP_EXT_STATE: &'static str = "clap.state";

pub const CLAP_EXT_GUI: &'static str = "clap.gui";

pub const CLAP_EXT_RENDER: &'static str = "clap.render";

pub const CLAP_EXT_TAIL: &'static str = "clap.tail";

pub const CLAP_EXT_LATENCY: &'static str = "clap.latency";

pub const CLAP_PLUGIN_FACTORY_ID: &'static str = "clap.plugin-factory";

/// The types of events have the numbers that hosts send, one behind the other, and no two share
/// one.
pub proof fn events_have_the_numbers_that_hosts_send()
    ensures
        CLAP_EVENT_NOTE_ON == 0,
        CLAP_EVENT_NOTE_OFF == CLAP_EVENT_NOTE_ON + 1,
        CLAP_EVENT_NOTE_CHOKE == CLAP_EVENT_NOTE_OFF + 1,
        CLAP_EVENT_NOTE_END == CLAP_EVENT_NOTE_CHOKE + 1,
        CLAP_EVENT_NOTE_EXPRESSION == CLAP_EVENT_NOTE_END + 1,
        CLAP_EVENT_PARAM_VALUE == CLAP_EVENT_NOTE_EXPRESSION + 1,
        CLAP_EVENT_PARAM_MOD == CLAP_EVENT_PARAM_VALUE + 1,
        CLAP_EVENT_PARAM_GESTURE_BEGIN == CLAP_EVENT_PARAM_MOD + 1,
        CLAP_EVENT_PARAM_GESTURE_END == CLAP_EVENT_PARAM_GESTURE_BEGIN + 1,
        CLAP_EVENT_TRANSPORT == CLAP_EVENT_PARAM_GESTURE_END + 1,
        CLAP_CORE_EVENT_SPACE_ID == 0,
{
}

} // verus!
