//! What the callbacks of a plugin instance answer.
//!
//! A callback finds its way to the plugin, or not: a pointer can be null, another callback can
//! hold the plugin, and the plugin need not support what the host asks for. No callback waits;
//! one that does not get through answers that there is nothing.

use vstd::prelude::*;
use vstd::utf8::encode_utf8;

use crate::clap_abi::{CLAP_PROCESS_ERROR, CLAP_PROCESS_SLEEP};
use crate::wrac_clap_adapter::api::{
    AudioPortConfigurationRequest, AudioPortInfo, ClapWindow, GuiApi, GuiConfiguration,
    GuiResizeHints, GuiSize, NotePortInfo, ParameterFlags, PluginResult, PluginState, ProcessStatus,
};
use crate::wrac_clap_adapter::ffi::{
    fields_close_with_a_zero, fill_c_char_array, fixed_field, write_c_str_buffer, written_text,
    written_texts_close_with_a_zero, TextArgument,
};
use crate::wrac_clap_adapter::gui_extension::{
    api_name, api_named, clap_window_to_rust, gui_api_from_name, gui_api_name,
    names_tell_windowing_systems_apart, window_of, WindowHandles,
};
use crate::wrac_clap_adapter::lifecycle::{process_status, status_of, InstanceState, ProcessOutcome};
use crate::wrac_clap_adapter::parameter_info::{
    parameter_flags, presentation_flags, processing_flags,
};
use crate::wrac_clap_adapter::ports::{
    convert_requests, raw_audio_port, raw_note_port, RawAudioPort, RawConfigurationRequest,
    RawNotePort,
};

verus! {

/// What a callback has met on its way to the plugin.
#[derive(Debug, Clone, Copy, PartialEq, Eq, Structural)]
pub struct Route {
    /// The pointers that the answer is written to, or read from, are there.
    pub pointers: bool,
    /// The host's pointer leads to an instance.
    pub instance: bool,
    /// No other callback holds what this one needs.
    pub free: bool,
    /// The plugin supports what the host asks for.
    pub supported: bool,
}

impl Route {
    /// Whether the callback gets through.
    pub open spec fn leads_through(self) -> bool {
        self.pointers && self.instance && self.free && self.supported
    }

    /// Whether the callback gets through.
    pub fn is_open(self) -> (open: bool)
        ensures
            open == self.leads_through(),
    {
        self.pointers && self.instance && self.free && self.supported
    }
}

/// What is answered where the plugin gives an answer, and the callback gets through to it.
pub open spec fn through<T>(route: Route, answer: Option<T>) -> Option<T> {
    if route.leads_through() {
        answer
    } else {
        None
    }
}

/// The windowing system that a host names.
pub open spec fn api_of(name: TextArgument<'_>) -> Option<GuiApi> {
    match name {
        TextArgument::Text(name) => api_named(name@),
        _ => None,
    }
}

/// How many there are: none where the callback does not get through. It answers for the
/// parameters, the audio ports and the note ports of a plugin.
pub fn count_answer(route: Route, count: u32) -> (answer: u32)
    ensures
        answer == if route.leads_through() {
            count
        } else {
            0
        },
{
    if route.is_open() {
        count
    } else {
        0
    }
}

// Parameters

/// A parameter of a plugin. Values of floating point are handled by their bits.
#[derive(Debug, Clone, Copy)]
pub struct ParameterInfo {
    pub id: u32,
    pub name: &'static str,
    pub module: &'static str,
    pub min_value: u64,
    pub max_value: u64,
    pub default_value: u64,
    pub flags: ParameterFlags,
}

/// What the host is told of a parameter.
#[derive(Debug, Clone, Copy)]
pub struct RawParameter {
    pub id: u32,
    pub flags: u32,
    pub name: [u8; 256],
    pub module: [u8; 1024],
    pub min_value: u64,
    pub max_value: u64,
    pub default_value: u64,
}

/// Whether this is what the host is told of a parameter.
pub open spec fn describes(raw: RawParameter, info: ParameterInfo) -> bool {
    &&& raw.id == info.id
    &&& raw.flags == presentation_flags(info.flags) + processing_flags(info.flags)
    &&& raw.name@ == fixed_field(256, info.name@)
    &&& raw.module@ == fixed_field(1024, info.module@)
    &&& raw.min_value == info.min_value
    &&& raw.max_value == info.max_value
    &&& raw.default_value == info.default_value
}

/// What the host is told of the parameter that it asks for, where there is one.
pub fn params_get_info(route: Route, info: Option<&ParameterInfo>) -> (answer: Option<RawParameter>)
    ensures
        match answer {
            Some(raw) => route.leads_through() && info is Some && describes(raw, *info->Some_0),
            None => !route.leads_through() || info is None,
        },
{
    if !route.is_open() {
        return None;
    }
    match info {
        Some(info) => {
            let mut name: [u8; 256] = [0;256];
            fill_c_char_array(&mut name, info.name);
            let mut module: [u8; 1024] = [0;1024];
            fill_c_char_array(&mut module, info.module);
            Some(
                RawParameter {
                    id: info.id,
                    flags: parameter_flags(info.flags),
                    name,
                    module,
                    min_value: info.min_value,
                    max_value: info.max_value,
                    default_value: info.default_value,
                },
            )
        },
        None => None,
    }
}

/// The value of the parameter that the host asks for.
pub fn params_get_value(route: Route, value: PluginResult<u64>) -> (answer: Option<u64>)
    ensures
        answer == through(route, value.ok()),
{
    if !route.is_open() {
        return None;
    }
    match value {
        Ok(value) => Some(value),
        Err(_) => None,
    }
}

/// Shows a value of a parameter to the host, in its buffer.
pub fn params_value_to_text(route: Route, text: PluginResult<&str>, out: &mut [u8]) -> (written:
    bool)
    ensures
        written == (route.leads_through() && text is Ok && old(out)@.len() > 0),
        final(out)@ == if written {
            written_text(old(out)@, text->Ok_0@)
        } else {
            old(out)@
        },
{
    if !route.is_open() {
        return false;
    }
    match text {
        Ok(text) => write_c_str_buffer(out, text),
        Err(_) => false,
    }
}

/// The value that a text of the host stands for. The plugin is asked only for a text.
pub fn params_text_to_value(route: Route, text: TextArgument<'_>, value: PluginResult<u64>) -> (answer:
    Option<u64>)
    ensures
        answer == through(
            route,
            if text is Text {
                value.ok()
            } else {
                None
            },
        ),
{
    if !route.is_open() {
        return None;
    }
    match (text, value) {
        (TextArgument::Text(_), Ok(value)) => Some(value),
        _ => None,
    }
}

/// What a flush does.
#[derive(Debug, Clone, Copy, PartialEq, Eq, Structural)]
pub struct FlushPlan {
    /// The values that the host sends reach the plugin.
    pub apply_input: bool,
    /// The edits of the GUI reach the host.
    pub drain_output: bool,
}

/// What a flush does. Where the plugin is held by another callback the values are lost, and the
/// edits reach the host all the same.
pub fn params_flush(route: Route) -> (plan: FlushPlan)
    ensures
        plan.apply_input == (route.instance && route.free && route.supported),
        plan.drain_output == route.instance,
{
    FlushPlan {
        apply_input: route.instance && route.free && route.supported,
        drain_output: route.instance,
    }
}

// Ports

/// What the host is told of the audio port that it asks for, where there is one.
pub fn audio_ports_get(route: Route, port: Option<&AudioPortInfo>) -> (answer: Option<RawAudioPort>)
    ensures
        answer is Some == (route.leads_through() && port is Some),
        answer matches Some(raw) ==> {
            let port = *port->Some_0;
            &&& raw.id == port.id
            &&& raw.flags == crate::wrac_clap_adapter::ports::audio_flags_value(port.flags)
            &&& raw.channel_count == port.channel_count
            &&& raw.in_place_pair == match port.in_place_pair {
                Some(pair) => pair,
                None => u32::MAX,
            }
            &&& raw.name@ == fixed_field(256, port.name@)
        },
{
    if !route.is_open() {
        return None;
    }
    match port {
        Some(port) => Some(raw_audio_port(port)),
        None => None,
    }
}

/// What the host is told of the note port that it asks for, where there is one.
pub fn note_ports_get(route: Route, port: Option<&NotePortInfo>) -> (answer: Option<RawNotePort>)
    ensures
        answer is Some == (route.leads_through() && port is Some),
        answer matches Some(raw) ==> {
            let port = *port->Some_0;
            &&& raw.id == port.id
            &&& raw.supported_dialects == port.supported_dialects@
            &&& raw.preferred_dialect == port.preferred_dialect@
            &&& raw.name@ == fixed_field(256, port.name@)
        },
{
    if !route.is_open() {
        return None;
    }
    match port {
        Some(port) => Some(raw_note_port(port)),
        None => None,
    }
}

/// The layouts that the plugin is asked for, where the host may ask at all: not while a
/// processor is there, which would go on with the layout of before, nor while a callback makes
/// or takes one, nor with an array that is missing. `requests` is `None` where it is null.
pub fn requested_layouts(
    route: Route,
    state: &InstanceState,
    requests: Option<&[RawConfigurationRequest<'_>]>,
    request_count: u32,
) -> (answer: Option<Vec<AudioPortConfigurationRequest>>)
    requires
        requests matches Some(raw) ==> raw@.len() == request_count,
    ensures
        answer is Some == (route.leads_through() && state.phase is Idle && !state.has_processor
            && !state.processor_busy && (requests is Some
            || request_count == 0)),
        answer matches Some(layouts) ==> layouts@ == match requests {
            Some(raw) => Seq::new(raw@.len(), |i: int| raw@[i].request()),
            None => Seq::empty(),
        },
{
    if !route.is_open() || !state.can_configure_ports() {
        return None;
    }
    match requests {
        Some(raw) => Some(convert_requests(raw)),
        None => if request_count == 0 {
            Some(Vec::new())
        } else {
            None
        },
    }
}

// State

/// Whether a save succeeds: the plugin has given its state, and the stream has taken it.
pub fn state_save(route: Route, saved: bool, written: bool) -> (success: bool)
    ensures
        success == (route.leads_through() && saved && written),
{
    route.is_open() && saved && written
}

/// The state that the plugin is to restore: what the stream has given, where it could be read.
pub fn state_load(route: Route, bytes: Option<Vec<u8>>) -> (state: Option<PluginState>)
    ensures
        match state {
            Some(state) => route.leads_through() && bytes is Some && state.bytes@
                == bytes->Some_0@,
            None => !route.leads_through() || bytes is None,
        },
{
    if !route.is_open() {
        return None;
    }
    match bytes {
        Some(bytes) => Some(PluginState { bytes }),
        None => None,
    }
}

/// What follows once the plugin was asked to restore a state: whether the host is to read the
/// values of the parameters anew, and whether the load succeeds. A plugin that has restored a
/// state has other values; one that refused it has those of before.
pub fn state_loaded(restored: bool) -> (answer: (bool, bool))
    ensures
        answer == (restored, restored),
{
    (restored, restored)
}

// GUI

/// The windowing system that the plugin is asked for, where the host asks whether it is supported.
pub fn gui_is_api_supported(route: Route, api: TextArgument<'_>) -> (asked: Option<GuiApi>)
    ensures
        asked == through(route, api_of(api)),
{
    if route.is_open() {
        gui_api_from_name(api)
    } else {
        None
    }
}

/// The API that the plugin prefers, by its name, and whether its window floats.
pub fn gui_get_preferred_api(route: Route, preferred: Option<GuiConfiguration>) -> (answer: Option<
    (&'static str, bool),
>)
    ensures
        match answer {
            Some((name, is_floating)) => route.leads_through() && preferred is Some && name@
                == api_name(preferred->Some_0.api) && is_floating
                == preferred->Some_0.is_floating,
            None => !route.leads_through() || preferred is None,
        },
{
    if !route.is_open() {
        return None;
    }
    match preferred {
        Some(configuration) => Some((gui_api_name(configuration.api), configuration.is_floating)),
        None => None,
    }
}

/// The form in which the GUI is to be created.
pub fn gui_create(route: Route, api: TextArgument<'_>, is_floating: bool) -> (configuration: Option<
    GuiConfiguration,
>)
    ensures
        configuration == through(
            route,
            match api_of(api) {
                Some(api) => Some(GuiConfiguration { api, is_floating }),
                None => None,
            },
        ),
{
    if !route.is_open() {
        return None;
    }
    match gui_api_from_name(api) {
        Some(api) => Some(GuiConfiguration { api, is_floating }),
        None => None,
    }
}

/// The size that the host is told: the one that the GUI has, or the one that it would take.
pub fn size_answer(route: Route, size: PluginResult<GuiSize>) -> (answer: Option<GuiSize>)
    ensures
        answer == through(route, size.ok()),
{
    if !route.is_open() {
        return None;
    }
    match size {
        Ok(size) => Some(size),
        Err(_) => None,
    }
}

/// How the host may resize the GUI.
pub fn gui_get_resize_hints(route: Route, hints: Option<GuiResizeHints>) -> (answer: Option<
    GuiResizeHints,
>)
    ensures
        answer == through(route, hints),
{
    if route.is_open() {
        hints
    } else {
        None
    }
}

/// The window that the GUI is to be shown in, or to stay in front of.
pub fn gui_set_parent(route: Route, api: TextArgument<'_>, handles: WindowHandles) -> (window: Option<
    ClapWindow,
>)
    ensures
        window == through(route, window_of(api_of(api), handles)),
{
    if route.is_open() {
        clap_window_to_rust(api, handles)
    } else {
        None
    }
}

/// The title that the GUI is told.
pub fn gui_suggest_title<'a>(route: Route, title: TextArgument<'a>) -> (told: Option<&'a str>)
    ensures
        told == through(
            route,
            match title {
                TextArgument::Text(title) => Some(title),
                _ => None,
            },
        ),
{
    if !route.is_open() {
        return None;
    }
    match title {
        TextArgument::Text(title) => Some(title),
        _ => None,
    }
}

// Processing

/// What a call for audio has met, in the order in which it looks.
#[derive(Debug, Clone, Copy)]
pub struct ProcessCall {
    pub instance: bool,
    /// The host has passed a block.
    pub block: bool,
    pub buffers_valid: bool,
    /// Another callback holds the processor.
    pub processor_busy: bool,
    pub has_processor: bool,
    /// What the processor has answered, where it was asked.
    pub processed: PluginResult<ProcessStatus>,
}

impl ProcessCall {
    /// What the call comes to.
    pub open spec fn outcome(self) -> ProcessOutcome {
        if !self.instance {
            ProcessOutcome::MissingInstance
        } else if !self.block {
            ProcessOutcome::NullProcess
        } else if !self.buffers_valid {
            ProcessOutcome::InvalidAudioBuffers
        } else if self.processor_busy {
            ProcessOutcome::ProcessorBusy
        } else if !self.has_processor {
            ProcessOutcome::NoProcessor
        } else {
            match self.processed {
                Ok(status) => ProcessOutcome::Processed(status),
                Err(_) => ProcessOutcome::ProcessorFailed,
            }
        }
    }

    /// Whether the edits of the GUI reach the host: wherever there is a block.
    pub fn drains_edits(&self) -> (drains: bool)
        ensures
            drains == (self.instance && self.block),
    {
        self.instance && self.block
    }

    /// What the host is told.
    pub fn plugin_process(&self) -> (status: i32)
        ensures
            status == status_of(self.outcome()),
    {
        let outcome = if !self.instance {
            ProcessOutcome::MissingInstance
        } else if !self.block {
            ProcessOutcome::NullProcess
        } else if !self.buffers_valid {
            ProcessOutcome::InvalidAudioBuffers
        } else if self.processor_busy {
            ProcessOutcome::ProcessorBusy
        } else if !self.has_processor {
            ProcessOutcome::NoProcessor
        } else {
            match self.processed {
                Ok(status) => ProcessOutcome::Processed(status),
                Err(_) => ProcessOutcome::ProcessorFailed,
            }
        };
        process_status(outcome)
    }
}

/// A call that finds no processor, or finds it in use, lets the host go on: it is told that the
/// plugin sleeps. Only a missing instance, unusable buffers and a processor that fails are
/// errors.
pub proof fn only_failures_are_errors(call: ProcessCall)
    ensures
        status_of(call.outcome()) == CLAP_PROCESS_ERROR <==> (!call.instance || (call.block
            && !call.buffers_valid) || (call.block && call.buffers_valid && !call.processor_busy
            && call.has_processor && call.processed is Err)),
        call.instance && call.block && call.buffers_valid && (call.processor_busy
            || !call.has_processor) ==> status_of(call.outcome()) == CLAP_PROCESS_SLEEP,
{
}

/// Whether the GUI is destroyed together with the plugin: not while a callback of the GUI runs.
pub fn destroys_gui(has_gui: bool, callback_running: bool) -> (destroys: bool)
    ensures
        destroys == (has_gui && !callback_running),
{
    has_gui && !callback_running
}

/// A callback counts as many as there are where nothing stands in its way, and none where
/// anything does.
pub proof fn counts_need_an_open_route(route: Route, count: u32, answer: u32)
    requires
        call_ensures(count_answer, (route, count), answer),
    ensures
        route.pointers && route.instance && route.free && route.supported ==> answer == count,
        !route.pointers || !route.instance || !route.free || !route.supported ==> answer == 0,
{
}

/// A host is told of a parameter under its id, with its texts in their own fields and its values
/// in theirs. It is told nothing where anything stands in the way.
pub proof fn parameters_are_told_as_they_are(
    route: Route,
    info: ParameterInfo,
    answer: Option<RawParameter>,
)
    requires
        call_ensures(params_get_info, (route, Some(&info)), answer),
    ensures
        answer is Some <==> route.pointers && route.instance && route.free && route.supported,
        answer matches Some(raw) ==> {
            &&& raw.id == info.id
            &&& raw.min_value == info.min_value
            &&& raw.max_value == info.max_value
            &&& raw.default_value == info.default_value
            &&& raw.name@[255] == 0
            &&& raw.module@[1023] == 0
            &&& encode_utf8(info.name@).len() < 256 ==> raw.name@.take(
                encode_utf8(info.name@).len() as int,
            ) == encode_utf8(info.name@)
            &&& encode_utf8(info.module@).len() < 1024 ==> raw.module@.take(
                encode_utf8(info.module@).len() as int,
            ) == encode_utf8(info.module@)
        },
{
    fields_close_with_a_zero(256, info.name@);
    fields_close_with_a_zero(1024, info.module@);
}

/// What a plugin answers reaches the host unchanged where nothing stands in the way; what it
/// refuses does not.
pub proof fn answers_reach_the_host(
    route: Route,
    value: PluginResult<u64>,
    size: PluginResult<GuiSize>,
    hints: Option<GuiResizeHints>,
    text: TextArgument<'_>,
    read: Option<u64>,
    parsed: Option<u64>,
    sized: Option<GuiSize>,
    hinted: Option<GuiResizeHints>,
)
    requires
        call_ensures(params_get_value, (route, value), read),
        call_ensures(params_text_to_value, (route, text, value), parsed),
        call_ensures(size_answer, (route, size), sized),
        call_ensures(gui_get_resize_hints, (route, hints), hinted),
    ensures
        !route.pointers || !route.instance || !route.free || !route.supported ==> read is None
            && parsed is None && sized is None && hinted is None,
        route.pointers && route.instance && route.free && route.supported ==> {
            &&& value matches Ok(v) ==> read == Some(v)
            &&& value is Err ==> read is None && parsed is None
            &&& text is Text && value is Ok ==> parsed == Some(value->Ok_0)
            &&& !(text is Text) ==> parsed is None
            &&& size matches Ok(s) ==> sized == Some(s)
            &&& size is Err ==> sized is None
            &&& hinted == hints
        },
{
}

/// A text of a value fills the host's buffer only where there is a text, room for it and a way
/// to the plugin; else the buffer stays as it was.
pub proof fn values_are_shown_or_the_buffer_stays(
    route: Route,
    text: PluginResult<&str>,
    out: &mut [u8],
    written: bool,
)
    requires
        call_ensures(params_value_to_text, (route, text, out), written),
    ensures
        written <==> route.pointers && route.instance && route.free && route.supported && text is Ok
            && old(out)@.len() > 0,
        !written ==> final(out)@ == old(out)@,
        final(out)@.len() == old(out)@.len(),
        written && encode_utf8(text->Ok_0@).len() < old(out)@.len() ==> final(out)@.take(
            encode_utf8(text->Ok_0@).len() as int,
        ) == encode_utf8(text->Ok_0@) && final(out)@[encode_utf8(text->Ok_0@).len() as int] == 0,
{
    if written {
        written_texts_close_with_a_zero(old(out)@, text->Ok_0@);
        let bytes = encode_utf8(text->Ok_0@);
        if bytes.len() < old(out)@.len() {
            assert(bytes.take(bytes.len() as int) =~= bytes);
        }
    }
}

/// The edits of the GUI reach the host whatever else holds the plugin; the values of the host
/// reach the plugin only where it is free and has parameters.
pub proof fn edits_reach_the_host_of_a_busy_plugin(route: Route, plan: FlushPlan)
    requires
        call_ensures(params_flush, (route,), plan),
    ensures
        plan.drain_output <==> route.instance,
        plan.apply_input ==> plan.drain_output && route.free && route.supported,
        route.instance && route.free && route.supported ==> plan.apply_input,
{
}

/// Layouts are asked for one for one and in order, and never while a processor is there, is
/// made or is taken.
pub proof fn layouts_are_asked_for_while_idle(
    route: Route,
    state: InstanceState,
    requests: &[RawConfigurationRequest<'_>],
    count: u32,
    answer: Option<Vec<AudioPortConfigurationRequest>>,
)
    requires
        requests@.len() == count,
        call_ensures(requested_layouts, (route, &state, Some(requests), count), answer),
    ensures
        answer is Some <==> route.pointers && route.instance && route.free && route.supported
            && state.phase is Idle && !state.has_processor && !state.processor_busy,
        answer matches Some(layouts) ==> layouts@.len() == requests@.len() && forall|i: int|
            0 <= i < layouts@.len() ==> (#[trigger] layouts@[i]) == requests@[i].request(),
{
}

/// A host that passes no array asks for nothing, and for anything else in vain.
pub proof fn a_missing_array_asks_for_nothing(
    route: Route,
    state: InstanceState,
    count: u32,
    answer: Option<Vec<AudioPortConfigurationRequest>>,
)
    requires
        call_ensures(requested_layouts, (route, &state, None, count), answer),
    ensures
        count > 0 ==> answer is None,
        answer matches Some(layouts) ==> layouts@.len() == 0,
{
}

/// A state is saved only where the plugin gave it and the stream took it; a state that was read
/// is restored byte for byte; and the host reads the parameters anew exactly where the load
/// succeeds.
pub proof fn states_are_saved_and_loaded_whole(
    route: Route,
    saved: bool,
    written: bool,
    success: bool,
    bytes: Option<Vec<u8>>,
    state: Option<PluginState>,
    restored: bool,
    answer: (bool, bool),
)
    requires
        call_ensures(state_save, (route, saved, written), success),
        call_ensures(state_load, (route, bytes), state),
        call_ensures(state_loaded, (restored,), answer),
    ensures
        success ==> saved && written && route.pointers && route.instance && route.free
            && route.supported,
        saved && written && route.pointers && route.instance && route.free && route.supported
            ==> success,
        state is Some <==> bytes is Some && route.pointers && route.instance && route.free
            && route.supported,
        state matches Some(state) ==> state.bytes@ == bytes->Some_0@,
        answer.0 == restored,
        answer.1 == restored,
{
}

/// The GUI is asked for in the windowing system that the host names, floating where the host
/// says so, and prefers what the plugin prefers, under the name that leads back to it.
pub proof fn guis_are_created_as_named(
    route: Route,
    api: TextArgument<'_>,
    is_floating: bool,
    created: Option<GuiConfiguration>,
    asked: Option<GuiApi>,
    preferred: GuiConfiguration,
    answer: Option<(&'static str, bool)>,
)
    requires
        call_ensures(gui_create, (route, api, is_floating), created),
        call_ensures(gui_is_api_supported, (route, api), asked),
        call_ensures(gui_get_preferred_api, (route, Some(preferred)), answer),
    ensures
        created is Some <==> asked is Some,
        created matches Some(configuration) ==> Some(configuration.api) == asked
            && configuration.is_floating == is_floating,
        asked == Some(GuiApi::Cocoa) ==> api->Text_0@ == "cocoa"@,
        asked == Some(GuiApi::Win32) ==> api->Text_0@ == "win32"@,
        asked == Some(GuiApi::X11) ==> api->Text_0@ == "x11"@,
        !(api is Text) ==> asked is None,
        asked is Some ==> route.pointers && route.instance && route.free && route.supported,
        route.pointers && route.instance && route.free && route.supported && api is Text && (
        api->Text_0@ == "cocoa"@ || api->Text_0@ == "win32"@ || api->Text_0@ == "x11"@)
            ==> asked is Some,
        answer is Some <==> route.pointers && route.instance && route.free && route.supported,
        answer matches Some((name, floats)) ==> api_named(name@) == Some(preferred.api) && floats
            == preferred.is_floating,
{
    names_tell_windowing_systems_apart(preferred.api);
}

/// The GUI is shown in the window whose handle belongs to the named windowing system.
pub proof fn parents_are_found_by_their_own_handle(
    route: Route,
    api: TextArgument<'_>,
    handles: WindowHandles,
    window: Option<ClapWindow>,
)
    requires
        call_ensures(gui_set_parent, (route, api, handles), window),
    ensures
        window is Some ==> route.pointers && route.instance && route.free && route.supported
            && api is Text,
        window matches Some(ClapWindow::Cocoa { ns_view }) ==> ns_view == handles.cocoa && ns_view
            != 0 && api->Text_0@ == "cocoa"@,
        window matches Some(ClapWindow::Win32 { hwnd }) ==> hwnd == handles.win32 && hwnd != 0
            && api->Text_0@ == "win32"@,
        window matches Some(ClapWindow::X11 { window }) ==> window == handles.x11 && window != 0
            && api->Text_0@ == "x11"@,
        route.pointers && route.instance && route.free && route.supported && api is Text
            && api->Text_0@ == "cocoa"@ && handles.cocoa != 0 ==> window is Some,
        route.pointers && route.instance && route.free && route.supported && api is Text
            && api->Text_0@ == "win32"@ && handles.win32 != 0 ==> window is Some,
        route.pointers && route.instance && route.free && route.supported && api is Text
            && api->Text_0@ == "x11"@ && handles.x11 != 0 ==> window is Some,
{
    names_tell_windowing_systems_apart(GuiApi::Cocoa);
    names_tell_windowing_systems_apart(GuiApi::Win32);
    names_tell_windowing_systems_apart(GuiApi::X11);
}

/// A title that is a text is told as it is.
pub proof fn titles_are_told_as_they_are(
    route: Route,
    title: TextArgument<'_>,
    told: Option<&str>,
)
    requires
        call_ensures(gui_suggest_title, (route, title), told),
    ensures
        told is Some <==> route.pointers && route.instance && route.free && route.supported && title
            is Text,
        told matches Some(text) ==> text@ == title->Text_0@,
{
}

/// A block that is processed answers as the processor did, edits reach the host wherever there is
/// a block, and the GUI goes with the plugin unless a callback of it runs.
pub proof fn blocks_answer_as_their_processor_did(
    call: ProcessCall,
    status: i32,
    drains: bool,
    has_gui: bool,
    running: bool,
    destroys: bool,
)
    requires
        call_ensures(ProcessCall::plugin_process, (&call,), status),
        call_ensures(ProcessCall::drains_edits, (&call,), drains),
        call_ensures(destroys_gui, (has_gui, running), destroys),
    ensures
        !call.instance ==> status == 0 && !drains,
        call.instance && !call.block ==> status == 4 && !drains,
        call.instance && call.block ==> drains,
        call.instance && call.block && !call.buffers_valid ==> status == 0,
        call.instance && call.block && call.buffers_valid && (call.processor_busy
            || !call.has_processor) ==> status == 4,
        call.instance && call.block && call.buffers_valid && !call.processor_busy
            && call.has_processor ==> {
            &&& call.processed is Err ==> status == 0
            &&& call.processed matches Ok(ProcessStatus::Continue) ==> status == 1
            &&& call.processed matches Ok(ProcessStatus::ContinueIfNotQuiet) ==> status == 2
            &&& call.processed matches Ok(ProcessStatus::Tail) ==> status == 3
            &&& call.processed matches Ok(ProcessStatus::Sleep) ==> status == 4
        },
        destroys ==> has_gui && !running,
        has_gui && !running ==> destroys,
{
}

/// A host is told of a port where nothing stands in its way and the port is there: of an audio port
/// with its id, its channels and the port that it is processed in place of, and of a note port with
/// its id and its dialects.
pub proof fn ports_are_told_where_they_are_there(
    route: Route,
    audio: AudioPortInfo,
    told: Option<RawAudioPort>,
    note: NotePortInfo,
    noted: Option<RawNotePort>,
    missing: (Option<RawAudioPort>, Option<RawNotePort>),
)
    requires
        call_ensures(audio_ports_get, (route, Some(&audio)), told),
        call_ensures(note_ports_get, (route, Some(&note)), noted),
        call_ensures(audio_ports_get, (route, None), missing.0),
        call_ensures(note_ports_get, (route, None), missing.1),
    ensures
        told is Some <==> route.pointers && route.instance && route.free && route.supported,
        noted is Some <==> route.pointers && route.instance && route.free && route.supported,
        missing.0 is None && missing.1 is None,
        told matches Some(raw) ==> raw.id == audio.id && raw.channel_count == audio.channel_count && (
        audio.in_place_pair matches Some(pair) ==> raw.in_place_pair == pair) && (
        audio.in_place_pair is None ==> raw.in_place_pair == 0xffff_ffff),
        noted matches Some(raw) ==> raw.id == note.id && raw.supported_dialects
            == note.supported_dialects@ && raw.preferred_dialect == note.preferred_dialect@,
{
}

} // verus!
