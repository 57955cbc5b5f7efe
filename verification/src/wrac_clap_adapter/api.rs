//! The types that a plugin product and the adapter exchange.

use std::sync::Arc;

use vstd::prelude::*;

use crate::wrac_clap_adapter::callbacks::ParameterInfo;
use crate::wrac_clap_adapter::events::ParameterValueEvent;
use crate::wrac_clap_adapter::process_buffer::AudioBufferError;

verus! {

/// What went wrong in a plugin operation.
#[derive(Debug, Clone, Copy, PartialEq, Eq)]
pub enum PluginError {
    InvalidParameter,
    InvalidState,
    UnsupportedHostGuiThreadingModel,
    RequiresInactive,
    Message(&'static str),
}

impl PluginError {
    /// The text that describes the error.
    pub open spec fn text(self) -> Seq<char> {
        match self {
            PluginError::InvalidParameter => "invalid parameter"@,
            PluginError::InvalidState => "invalid state"@,
            PluginError::UnsupportedHostGuiThreadingModel =>
                "unsupported host GUI threading model"@,
            PluginError::RequiresInactive => "operation requires inactive processing state"@,
            PluginError::Message(message) => message@,
        }
    }

    /// The text that describes the error.
    pub fn message(self) -> (text: &'static str)
        ensures
            text@ == self.text(),
    {
        match self {
            PluginError::InvalidParameter => "invalid parameter",
            PluginError::InvalidState => "invalid state",
            PluginError::UnsupportedHostGuiThreadingModel => "unsupported host GUI threading model",
            PluginError::RequiresInactive => "operation requires inactive processing state",
            PluginError::Message(message) => message,
        }
    }
}

impl From<AudioBufferError> for PluginError {
    /// Buffers that cannot be used leave the plugin in an invalid state.
    fn from(_value: AudioBufferError) -> (error: Self) {
        PluginError::InvalidState
    }
}

impl vstd::std_specs::convert::FromSpecImpl<AudioBufferError> for PluginError {
    open spec fn obeys_from_spec() -> bool {
        true
    }

    open spec fn from_spec(_value: AudioBufferError) -> Self {
        PluginError::InvalidState
    }
}

pub type PluginResult<T> = Result<T, PluginError>;

/// What an instance of a plugin reaches of its host.
pub struct PluginCoreContext {
    pub host_parameter_edit_notifier: Arc<dyn HostParameterEditNotifier>,
    pub host_gui_resize_requester: Arc<dyn HostGuiResizeRequester>,
}

/// Tells the host of an edit, once the product has stored it. What lies between the begin and
/// the end is undone at once. The value is the bits of a double.
pub trait HostParameterEditNotifier: Send + Sync {
    fn begin_edit(&self, parameter_id: u32);

    fn update_edit(&self, parameter_id: u32, value: u64);

    fn end_edit(&self, parameter_id: u32);
}

/// Asks the host to resize the client area of the GUI.
pub trait HostGuiResizeRequester: Send + Sync {
    fn request_resize(&self, size: GuiSize) -> PluginResult<()>;
}

/// How audio is going to be played. The sample rate is the bits of a double.
#[derive(Debug, Clone, Copy, PartialEq, Eq, Structural)]
pub struct ActivateContext {
    pub sample_rate: u64,
    pub min_frames_count: u32,
    pub max_frames_count: u32,
}

/// One audio port of a plugin.
#[derive(Debug, Clone, Copy)]
pub struct AudioPortInfo {
    pub id: u32,
    pub name: &'static str,
    pub flags: AudioPortFlags,
    pub channel_count: u32,
    pub port_type: AudioPortType,
    pub in_place_pair: Option<u32>,
}

/// A layout that the host asks for on one audio port.
#[derive(Debug, Clone, Copy, PartialEq, Eq, Structural)]
pub struct AudioPortConfigurationRequest {
    pub is_input: bool,
    pub port_index: u32,
    pub channel_count: u32,
    pub port_type: AudioPortType,
}

/// One note port of a plugin.
#[derive(Debug, Clone, Copy)]
pub struct NotePortInfo {
    pub id: u32,
    pub supported_dialects: NoteDialects,
    pub preferred_dialect: NoteDialects,
    pub name: &'static str,
}

/// A set of note dialects.
#[derive(Debug, Clone, Copy, PartialEq, Eq, Structural)]
pub struct NoteDialects(u32);

impl View for NoteDialects {
    type V = u32;

    closed spec fn view(&self) -> u32 {
        self.0
    }
}

impl NoteDialects {
    /// The set with the given bits.
    pub fn from_bits(bits: u32) -> (dialects: Self)
        ensures
            dialects@ == bits,
    {
        NoteDialects(bits)
    }

    /// The bits of the set.
    pub fn bits(self) -> (bits: u32)
        ensures
            bits == self@,
    {
        self.0
    }

    /// The dialects that are in either set.
    pub fn union(self, other: Self) -> (both: Self)
        ensures
            both@ == self@ | other@,
    {
        NoteDialects(self.0 | other.0)
    }

    /// The dialect of CLAP note events.
    pub fn clap() -> (dialects: Self)
        ensures
            dialects@ == 1,
    {
        NoteDialects(1)
    }

    /// The dialect of MIDI 1 events.
    pub fn midi() -> (dialects: Self)
        ensures
            dialects@ == 2,
    {
        NoteDialects(2)
    }

    /// The dialect of MIDI polyphonic expression.
    pub fn midi_mpe() -> (dialects: Self)
        ensures
            dialects@ == 4,
    {
        NoteDialects(4)
    }

    /// The dialect of MIDI 2 events.
    pub fn midi2() -> (dialects: Self)
        ensures
            dialects@ == 8,
    {
        NoteDialects(8)
    }
}

impl Default for NoteDialects {
    /// No dialect.
    fn default() -> (dialects: Self)
        ensures
            dialects@ == 0,
    {
        NoteDialects(0)
    }
}

/// A dialect is in the union exactly where it is in one of the two sets, and neither the order
/// nor the repetition of the sets matters.
pub proof fn union_holds_the_dialects_of_both(a: u32, b: u32, dialect: u32)
    ensures
        (a | b) & dialect != 0 <==> (a & dialect != 0 || b & dialect != 0),
        a | b == b | a,
        a | a == a,
        a | 0 == a,
{
    assert(((a | b) & dialect != 0) == (a & dialect != 0 || b & dialect != 0)) by (bit_vector);
    assert(a | b == b | a) by (bit_vector);
    assert(a | a == a) by (bit_vector);
    assert(a | 0 == a) by (bit_vector);
}

/// What an audio port supports.
#[derive(Debug, Clone, Copy, PartialEq, Eq, Structural)]
pub struct AudioPortFlags {
    pub is_main: bool,
    pub supports_64bits: bool,
    pub prefers_64bits: bool,
    pub requires_common_sample_size: bool,
}

impl Default for AudioPortFlags {
    /// A port that is not the main port and supports nothing special.
    fn default() -> (flags: Self)
        ensures
            flags == (AudioPortFlags {
                is_main: false,
                supports_64bits: false,
                prefers_64bits: false,
                requires_common_sample_size: false,
            }),
    {
        AudioPortFlags {
            is_main: false,
            supports_64bits: false,
            prefers_64bits: false,
            requires_common_sample_size: false,
        }
    }
}

/// The kind of signal that an audio port carries.
#[derive(Debug, Clone, Copy, PartialEq, Eq, Structural)]
pub enum AudioPortType {
    Unspecified,
    Mono,
    Stereo,
    /// A kind that the product names itself, by its position in the product's list of names.
    Other(u32),
}

impl Default for AudioPortType {
    fn default() -> (port_type: Self)
        ensures
            port_type == AudioPortType::Unspecified,
    {
        AudioPortType::Unspecified
    }
}

/// How a parameter behaves.
#[derive(Debug, Clone, Copy, PartialEq, Eq, Structural)]
pub struct ParameterFlags {
    pub is_stepped: bool,
    pub is_periodic: bool,
    pub is_hidden: bool,
    pub is_readonly: bool,
    pub is_bypass: bool,
    pub is_automatable: bool,
    pub is_automatable_per_note_id: bool,
    pub is_automatable_per_key: bool,
    pub is_automatable_per_channel: bool,
    pub is_automatable_per_port: bool,
    pub is_modulatable: bool,
    pub is_modulatable_per_note_id: bool,
    pub is_modulatable_per_key: bool,
    pub is_modulatable_per_channel: bool,
    pub is_modulatable_per_port: bool,
    pub requires_process: bool,
    pub is_enum: bool,
}

impl Default for ParameterFlags {
    /// A parameter of which nothing holds.
    fn default() -> (flags: Self)
        ensures
            flags == (ParameterFlags {
                is_stepped: false,
                is_periodic: false,
                is_hidden: false,
                is_readonly: false,
                is_bypass: false,
                is_automatable: false,
                is_automatable_per_note_id: false,
                is_automatable_per_key: false,
                is_automatable_per_channel: false,
                is_automatable_per_port: false,
                is_modulatable: false,
                is_modulatable_per_note_id: false,
                is_modulatable_per_key: false,
                is_modulatable_per_channel: false,
                is_modulatable_per_port: false,
                requires_process: false,
                is_enum: false,
            }),
    {
        ParameterFlags {
            is_stepped: false,
            is_periodic: false,
            is_hidden: false,
            is_readonly: false,
            is_bypass: false,
            is_automatable: false,
            is_automatable_per_note_id: false,
            is_automatable_per_key: false,
            is_automatable_per_channel: false,
            is_automatable_per_port: false,
            is_modulatable: false,
            is_modulatable_per_note_id: false,
            is_modulatable_per_key: false,
            is_modulatable_per_channel: false,
            is_modulatable_per_port: false,
            requires_process: false,
            is_enum: false,
        }
    }
}

/// The saved state of a plugin.
#[derive(Debug)]
pub struct PluginState {
    pub bytes: Vec<u8>,
}

/// How a GUI is to be opened.
#[derive(Debug, Clone, Copy, PartialEq, Eq, Structural)]
pub struct GuiConfiguration {
    pub api: GuiApi,
    pub is_floating: bool,
}

/// A windowing system.
#[derive(Debug, Clone, Copy, PartialEq, Eq, Structural)]
pub enum GuiApi {
    Cocoa,
    Win32,
    X11,
}

/// The size of a GUI.
#[derive(Debug, Clone, Copy, PartialEq, Eq, Structural)]
pub struct GuiSize {
    pub width: u32,
    pub height: u32,
}

/// How a GUI can be resized.
#[derive(Debug, Clone, Copy, PartialEq, Eq, Structural)]
pub struct GuiResizeHints {
    pub can_resize_horizontally: bool,
    pub can_resize_vertically: bool,
    pub preserve_aspect_ratio: bool,
    pub aspect_ratio_width: u32,
    pub aspect_ratio_height: u32,
}

/// A window that the host hands over, by the address or number of its native handle. No handle
/// is null.
#[derive(Debug, Clone, Copy, PartialEq, Eq, Structural)]
pub enum ClapWindow {
    Cocoa { ns_view: usize },
    Win32 { hwnd: isize },
    X11 { window: u64 },
}

impl ClapWindow {
    /// Whether the native handle is not null.
    pub open spec fn is_valid(self) -> bool {
        match self {
            ClapWindow::Cocoa { ns_view } => ns_view != 0,
            ClapWindow::Win32 { hwnd } => hwnd != 0,
            ClapWindow::X11 { window } => window != 0,
        }
    }

    /// The Cocoa view at an address, unless the address is null.
    pub fn cocoa(ns_view: usize) -> (window: Option<Self>)
        ensures
            window == if ns_view != 0 {
                Some(ClapWindow::Cocoa { ns_view })
            } else {
                None
            },
    {
        if ns_view != 0 {
            Some(ClapWindow::Cocoa { ns_view })
        } else {
            None
        }
    }

    /// The Win32 window with a handle, unless the handle is null.
    pub fn win32(hwnd: isize) -> (window: Option<Self>)
        ensures
            window == if hwnd != 0 {
                Some(ClapWindow::Win32 { hwnd })
            } else {
                None
            },
    {
        if hwnd != 0 {
            Some(ClapWindow::Win32 { hwnd })
        } else {
            None
        }
    }

    /// The X11 window with a number, unless the number is zero.
    pub fn x11(window: u64) -> (result: Option<Self>)
        ensures
            result == if window != 0 {
                Some(ClapWindow::X11 { window })
            } else {
                None
            },
    {
        if window != 0 {
            Some(ClapWindow::X11 { window })
        } else {
            None
        }
    }
}

/// What a plugin tells the host of its audio ports.
pub trait PluginAudioPorts: Send + Sync {
    fn audio_port_count(&self, is_input: bool) -> u32;

    fn audio_port_info(&self, index: u32, is_input: bool) -> Option<AudioPortInfo>;
}

/// Lets the host choose the layout of the audio ports while the plugin is inactive.
pub trait PluginConfigurableAudioPorts: Send + Sync {
    fn can_apply_audio_port_configuration(
        &self,
        requests: &[AudioPortConfigurationRequest],
    ) -> bool;

    fn apply_audio_port_configuration(
        &self,
        requests: &[AudioPortConfigurationRequest],
    ) -> PluginResult<()>;
}

/// What a plugin tells the host of its note ports.
pub trait PluginNotePorts: Send + Sync {
    fn note_port_count(&self, is_input: bool) -> u32;

    fn note_port_info(&self, index: u32, is_input: bool) -> Option<NotePortInfo>;
}

/// What a plugin tells the host of its parameters. The values are the bits of doubles.
pub trait PluginParameters: Send + Sync {
    fn parameter_count(&self) -> u32;

    fn parameter_info(&self, index: u32) -> Option<ParameterInfo>;

    fn parameter_value(&self, parameter_id: u32) -> PluginResult<u64>;

    fn apply_parameter_value(&self, event: ParameterValueEvent) -> PluginResult<u64>;

    fn parameter_value_to_text(&self, parameter_id: u32, value: u64) -> PluginResult<String>;

    fn parameter_text_to_value(&self, parameter_id: u32, text: &str) -> PluginResult<u64>;
}

/// Saves and restores the state of a plugin.
pub trait PluginStateSupport: Send + Sync {
    fn save_state(&self) -> PluginResult<PluginState>;

    fn restore_state(&self, state: PluginState) -> PluginResult<()>;
}

/// What the host may do after a block of audio.
#[derive(Debug, Clone, Copy, PartialEq, Eq, Structural)]
pub enum ProcessStatus {
    Continue,
    ContinueIfNotQuiet,
    Tail,
    Sleep,
}

/// Errors say what they are about: each of the adapter's own in its own words, and a message as it
/// is.
pub proof fn errors_say_what_they_are_about(error: PluginError, text: &str)
    requires
        call_ensures(PluginError::message, (error,), text),
    ensures
        error is InvalidParameter ==> text@ == "invalid parameter"@,
        error is InvalidState ==> text@ == "invalid state"@,
        error is UnsupportedHostGuiThreadingModel ==> text@ == "unsupported host GUI threading model"@,
        error is RequiresInactive ==> text@ == "operation requires inactive processing state"@,
        error matches PluginError::Message(message) ==> text@ == message@,
{
}

/// Each dialect has a bit of its own, and a set gives back the bits that it was made of.
pub proof fn dialects_have_bits_of_their_own(
    clap: NoteDialects,
    midi: NoteDialects,
    mpe: NoteDialects,
    midi2: NoteDialects,
    bits: u32,
    made: NoteDialects,
    read: u32,
    other: NoteDialects,
    both: NoteDialects,
)
    requires
        call_ensures(NoteDialects::clap, (), clap),
        call_ensures(NoteDialects::midi, (), midi),
        call_ensures(NoteDialects::midi_mpe, (), mpe),
        call_ensures(NoteDialects::midi2, (), midi2),
        call_ensures(NoteDialects::from_bits, (bits,), made),
        call_ensures(NoteDialects::bits, (made,), read),
        call_ensures(NoteDialects::union, (made, other), both),
    ensures
        clap@ == 1,
        midi@ == 2 * clap@,
        mpe@ == 2 * midi@,
        midi2@ == 2 * mpe@,
        read == bits,
        both@ == bits | other@,
{
}

/// A window is made of a handle that is not null, under its own windowing system.
pub proof fn windows_are_made_of_their_handle(
    ns_view: usize,
    hwnd: isize,
    number: u64,
    cocoa: Option<ClapWindow>,
    win32: Option<ClapWindow>,
    x11: Option<ClapWindow>,
)
    requires
        call_ensures(ClapWindow::cocoa, (ns_view,), cocoa),
        call_ensures(ClapWindow::win32, (hwnd,), win32),
        call_ensures(ClapWindow::x11, (number,), x11),
    ensures
        cocoa is None <==> ns_view == 0,
        cocoa matches Some(window) ==> window == (ClapWindow::Cocoa { ns_view }),
        win32 is None <==> hwnd == 0,
        win32 matches Some(window) ==> window == (ClapWindow::Win32 { hwnd }),
        x11 is None <==> number == 0,
        x11 matches Some(window) ==> window == (ClapWindow::X11 { window: number }),
{
}

} // verus!
