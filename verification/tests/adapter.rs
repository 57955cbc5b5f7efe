use clap_sys::ext::{
    audio_ports, configurable_audio_ports, gui, latency, note_ports, params, render, state, tail,
};
use clap_sys::{events, factory, process};
use wrac_plugin::clap_abi as abi;
use wrac_plugin::wrac_clap_adapter::api::{
    AudioPortFlags, AudioPortInfo, AudioPortType, ClapWindow, GuiApi, GuiConfiguration,
    GuiResizeHints, GuiSize, NoteDialects, NotePortInfo, ParameterFlags, PluginError,
    ProcessStatus,
};
use wrac_plugin::wrac_clap_adapter::callbacks::{
    audio_ports_get, count_answer, destroys_gui, gui_create, gui_get_preferred_api,
    gui_get_resize_hints, gui_is_api_supported, gui_set_parent, gui_suggest_title, note_ports_get,
    params_flush, params_get_info, params_get_value, params_text_to_value, params_value_to_text,
    requested_layouts, size_answer, state_load, state_loaded, state_save, ParameterInfo, ProcessCall, Route,
};
use wrac_plugin::wrac_clap_adapter::descriptor::{
    auv2_info, has_no_nul, Auv2Descriptor, PluginDescriptor, PluginFeature,
};
use wrac_plugin::wrac_clap_adapter::entry::{
    get_factory, plugin_to_create, ClapVersion, CreateRefusal, DeinitStep, EntryState, FactoryKind,
    FormatIdentities, InitStep, CLAP_PLUGIN_FACTORY_INFO_AAX, CLAP_PLUGIN_FACTORY_INFO_AUV2,
    CLAP_PLUGIN_FACTORY_INFO_VST3, WRAC_PLUGIN_FACTORY_RUN_LOOP,
};
use wrac_plugin::wrac_clap_adapter::events::{OutputEvent, ParameterGestureEvent};
use wrac_plugin::wrac_clap_adapter::extensions::{
    get_extension, latency_frames, resize_result, vst3_midi_channels, vst3_note_expressions,
    Extension, PluginCapabilities, CLAP_PLUGIN_AS_VST3,
};
use wrac_plugin::wrac_clap_adapter::ffi::{
    fill_c_char_array, four_char_code, write_c_str_buffer, StreamReader, StreamWriter,
    TextArgument, TransferStep,
};
use wrac_plugin::wrac_clap_adapter::gui_extension::{
    gui_api_from_name, gui_api_name, GuiCallbackGuard, WindowHandles,
};
use wrac_plugin::wrac_clap_adapter::lifecycle::{
    process_status, InstanceState, LifecycleAnswer, LifecycleStep, ProcessOutcome,
};
use wrac_plugin::wrac_clap_adapter::parameter_info::parameter_flags;
use wrac_plugin::wrac_clap_adapter::params::ParameterEditQueue;
use wrac_plugin::wrac_clap_adapter::ports::{
    audio_port_flags, audio_port_type, convert_port_type, convert_requests, external_length,
    looks_among_outputs, RawConfigurationRequest,
};
use wrac_plugin::wrac_clap_adapter::process_buffer::AudioBufferError;

#[test]
fn constants_are_those_of_the_interface() {
    let flags = [
        (abi::CLAP_PARAM_IS_STEPPED, params::CLAP_PARAM_IS_STEPPED),
        (abi::CLAP_PARAM_IS_PERIODIC, params::CLAP_PARAM_IS_PERIODIC),
        (abi::CLAP_PARAM_IS_HIDDEN, params::CLAP_PARAM_IS_HIDDEN),
        (abi::CLAP_PARAM_IS_READONLY, params::CLAP_PARAM_IS_READONLY),
        (abi::CLAP_PARAM_IS_BYPASS, params::CLAP_PARAM_IS_BYPASS),
        (abi::CLAP_PARAM_IS_AUTOMATABLE, params::CLAP_PARAM_IS_AUTOMATABLE),
        (
            abi::CLAP_PARAM_IS_AUTOMATABLE_PER_NOTE_ID,
            params::CLAP_PARAM_IS_AUTOMATABLE_PER_NOTE_ID,
        ),
        (abi::CLAP_PARAM_IS_AUTOMATABLE_PER_KEY, params::CLAP_PARAM_IS_AUTOMATABLE_PER_KEY),
        (
            abi::CLAP_PARAM_IS_AUTOMATABLE_PER_CHANNEL,
            params::CLAP_PARAM_IS_AUTOMATABLE_PER_CHANNEL,
        ),
        (abi::CLAP_PARAM_IS_AUTOMATABLE_PER_PORT, params::CLAP_PARAM_IS_AUTOMATABLE_PER_PORT),
        (abi::CLAP_PARAM_IS_MODULATABLE, params::CLAP_PARAM_IS_MODULATABLE),
        (
            abi::CLAP_PARAM_IS_MODULATABLE_PER_NOTE_ID,
            params::CLAP_PARAM_IS_MODULATABLE_PER_NOTE_ID,
        ),
        (abi::CLAP_PARAM_IS_MODULATABLE_PER_KEY, params::CLAP_PARAM_IS_MODULATABLE_PER_KEY),
        (
            abi::CLAP_PARAM_IS_MODULATABLE_PER_CHANNEL,
            params::CLAP_PARAM_IS_MODULATABLE_PER_CHANNEL,
        ),
        (abi::CLAP_PARAM_IS_MODULATABLE_PER_PORT, params::CLAP_PARAM_IS_MODULATABLE_PER_PORT),
        (abi::CLAP_PARAM_REQUIRES_PROCESS, params::CLAP_PARAM_REQUIRES_PROCESS),
        (abi::CLAP_PARAM_IS_ENUM, params::CLAP_PARAM_IS_ENUM),
        (abi::CLAP_AUDIO_PORT_IS_MAIN, audio_ports::CLAP_AUDIO_PORT_IS_MAIN),
        (abi::CLAP_AUDIO_PORT_SUPPORTS_64BITS, audio_ports::CLAP_AUDIO_PORT_SUPPORTS_64BITS),
        (abi::CLAP_AUDIO_PORT_PREFERS_64BITS, audio_ports::CLAP_AUDIO_PORT_PREFERS_64BITS),
        (
            abi::CLAP_AUDIO_PORT_REQUIRES_COMMON_SAMPLE_SIZE,
            audio_ports::CLAP_AUDIO_PORT_REQUIRES_COMMON_SAMPLE_SIZE,
        ),
    ];
    for (ours, theirs) in flags {
        assert_eq!(ours, theirs);
    }
    let kinds = [
        (abi::CLAP_CORE_EVENT_SPACE_ID, events::CLAP_CORE_EVENT_SPACE_ID),
        (abi::CLAP_EVENT_NOTE_ON, events::CLAP_EVENT_NOTE_ON),
        (abi::CLAP_EVENT_NOTE_OFF, events::CLAP_EVENT_NOTE_OFF),
        (abi::CLAP_EVENT_NOTE_CHOKE, events::CLAP_EVENT_NOTE_CHOKE),
        (abi::CLAP_EVENT_NOTE_END, events::CLAP_EVENT_NOTE_END),
        (abi::CLAP_EVENT_NOTE_EXPRESSION, events::CLAP_EVENT_NOTE_EXPRESSION),
        (abi::CLAP_EVENT_PARAM_VALUE, events::CLAP_EVENT_PARAM_VALUE),
        (abi::CLAP_EVENT_PARAM_MOD, events::CLAP_EVENT_PARAM_MOD),
        (abi::CLAP_EVENT_PARAM_GESTURE_BEGIN, events::CLAP_EVENT_PARAM_GESTURE_BEGIN),
        (abi::CLAP_EVENT_PARAM_GESTURE_END, events::CLAP_EVENT_PARAM_GESTURE_END),
        (abi::CLAP_EVENT_TRANSPORT, events::CLAP_EVENT_TRANSPORT),
    ];
    for (ours, theirs) in kinds {
        assert_eq!(ours, theirs);
    }
    assert_eq!(abi::CLAP_PROCESS_ERROR, process::CLAP_PROCESS_ERROR);
    assert_eq!(abi::CLAP_PROCESS_CONTINUE, process::CLAP_PROCESS_CONTINUE);
    assert_eq!(
        abi::CLAP_PROCESS_CONTINUE_IF_NOT_QUIET,
        process::CLAP_PROCESS_CONTINUE_IF_NOT_QUIET
    );
    assert_eq!(abi::CLAP_PROCESS_TAIL, process::CLAP_PROCESS_TAIL);
    assert_eq!(abi::CLAP_PROCESS_SLEEP, process::CLAP_PROCESS_SLEEP);
    let names = [
        (abi::CLAP_PORT_MONO, audio_ports::CLAP_PORT_MONO),
        (abi::CLAP_PORT_STEREO, audio_ports::CLAP_PORT_STEREO),
        (abi::CLAP_WINDOW_API_COCOA, gui::CLAP_WINDOW_API_COCOA),
        (abi::CLAP_WINDOW_API_WIN32, gui::CLAP_WINDOW_API_WIN32),
        (abi::CLAP_WINDOW_API_X11, gui::CLAP_WINDOW_API_X11),
        (abi::CLAP_EXT_AUDIO_PORTS, audio_ports::CLAP_EXT_AUDIO_PORTS),
        (
            abi::CLAP_EXT_CONFIGURABLE_AUDIO_PORTS,
            configurable_audio_ports::CLAP_EXT_CONFIGURABLE_AUDIO_PORTS,
        ),
        (
            abi::CLAP_EXT_CONFIGURABLE_AUDIO_PORTS_COMPAT,
            configurable_audio_ports::CLAP_EXT_CONFIGURABLE_AUDIO_PORTS_COMPAT,
        ),
        (abi::CLAP_EXT_NOTE_PORTS, note_ports::CLAP_EXT_NOTE_PORTS),
        (abi::CLAP_EXT_PARAMS, params::CLAP_EXT_PARAMS),
        (abi::CLAP_EXT_STATE, state::CLAP_EXT_STATE),
        (abi::CLAP_EXT_GUI, gui::CLAP_EXT_GUI),
        (abi::CLAP_EXT_RENDER, render::CLAP_EXT_RENDER),
        (abi::CLAP_EXT_TAIL, tail::CLAP_EXT_TAIL),
        (abi::CLAP_EXT_LATENCY, latency::CLAP_EXT_LATENCY),
        (abi::CLAP_PLUGIN_FACTORY_ID, factory::plugin_factory::CLAP_PLUGIN_FACTORY_ID),
    ];
    for (ours, theirs) in names {
        assert_eq!(ours, theirs.to_str().unwrap());
    }
}

const GAIN: PluginDescriptor = PluginDescriptor {
    id: "com.acme.gain",
    name: "Gain",
    vendor: "Acme",
    url: "",
    manual_url: "",
    support_url: "",
    version: "1.0.0",
    description: "",
    features: &[PluginFeature::AudioEffect, PluginFeature::Stereo],
    auv2: Some(Auv2Descriptor {
        manufacturer_code: *b"Acme",
        manufacturer_name: "Acme",
        plugin_type: *b"aufx",
        plugin_subtype: *b"Gain",
    }),
};

#[test]
fn descriptors_are_shown() {
    assert_eq!(GAIN.feature_names(), ["audio-effect", "stereo"]);
    assert_eq!(PluginFeature::Utility.as_str(), "utility");
    assert!(GAIN.presentable());
    assert!(!PluginDescriptor { name: "Ga\0in", ..GAIN }.presentable());
    assert!(has_no_nul("abc"));
    assert!(!has_no_nul("a\0"));
    assert_eq!(auv2_info(&[GAIN], 0), Some((*b"aufx\0", *b"Gain\0")));
    assert_eq!(auv2_info(&[GAIN], 1), None);
    assert_eq!(auv2_info(&[PluginDescriptor { auv2: None, ..GAIN }], 0), None);
    assert_eq!(four_char_code(*b"abcd"), *b"abcd\0");
}

#[test]
fn the_product_starts_once_and_stops_once() {
    let mut state = EntryState::new();
    assert_eq!(state.deinit(), DeinitStep::NotStarted);
    assert_eq!(state.init(TextArgument::Text("/plugins/gain.clap")), InitStep::StartProduct);
    assert!(state.product_started(true));
    assert_eq!(state.init(TextArgument::Null), InitStep::AlreadyStarted);
    assert_eq!(state.deinit(), DeinitStep::StillInUse);
    assert_eq!(state.deinit(), DeinitStep::StopProduct);
    assert_eq!(state.deinit(), DeinitStep::NotStarted);
}

#[test]
fn a_failed_start_can_be_tried_again() {
    let mut state = EntryState::new();
    assert_eq!(state.init(TextArgument::Invalid), InitStep::Refused);
    assert_eq!(state.init(TextArgument::Null), InitStep::StartProduct);
    assert!(!state.product_started(false));
    assert_eq!(state.init(TextArgument::Null), InitStep::StartProduct);
}

#[test]
fn factories_exist_for_formats_in_use() {
    let none = [FormatIdentities { auv2: false, vst3: false, aax: false }];
    let all = [none[0], FormatIdentities { auv2: true, vst3: true, aax: true }];
    let text = TextArgument::Text;
    assert_eq!(
        get_factory(text(abi::CLAP_PLUGIN_FACTORY_ID), &none),
        Some(FactoryKind::Plugins)
    );
    assert_eq!(get_factory(text(CLAP_PLUGIN_FACTORY_INFO_AUV2), &none), None);
    assert_eq!(
        get_factory(text(CLAP_PLUGIN_FACTORY_INFO_AUV2), &all),
        Some(FactoryKind::Auv2Info)
    );
    assert_eq!(
        get_factory(text(CLAP_PLUGIN_FACTORY_INFO_VST3), &all),
        Some(FactoryKind::Vst3Info)
    );
    assert_eq!(
        get_factory(text(CLAP_PLUGIN_FACTORY_INFO_AAX), &all),
        Some(FactoryKind::AaxInfo)
    );
    assert_eq!(
        get_factory(text(WRAC_PLUGIN_FACTORY_RUN_LOOP), &[]),
        Some(FactoryKind::RunLoop)
    );
    assert_eq!(get_factory(text("other"), &all), None);
    assert_eq!(get_factory(TextArgument::Null, &all), None);
}

#[test]
fn plugins_are_created_by_their_id() {
    let version = Some(ClapVersion { major: 1, minor: 0, revision: 0 });
    let other = PluginDescriptor { id: "com.acme.other", ..GAIN };
    let list = [other, GAIN];
    let id = TextArgument::Text("com.acme.gain");
    assert_eq!(plugin_to_create(version, id, &list), Ok(1));
    assert_eq!(plugin_to_create(None, id, &list), Err(CreateRefusal::InvalidArguments));
    assert_eq!(
        plugin_to_create(version, TextArgument::Null, &list),
        Err(CreateRefusal::InvalidArguments)
    );
    assert_eq!(
        plugin_to_create(version, TextArgument::Invalid, &list),
        Err(CreateRefusal::InvalidPluginId)
    );
    assert_eq!(
        plugin_to_create(version, TextArgument::Text("nope"), &list),
        Err(CreateRefusal::UnknownPluginId)
    );
    let early = Some(ClapVersion { major: 0, minor: 26, revision: 0 });
    assert_eq!(plugin_to_create(early, id, &list), Err(CreateRefusal::IncompatibleVersion));
    let late = Some(ClapVersion { major: 2, minor: 0, revision: 0 });
    assert_eq!(plugin_to_create(late, id, &list), Ok(1));
}

#[test]
fn extensions_follow_the_capabilities() {
    let nothing = PluginCapabilities {
        audio_ports: false,
        configurable_audio_ports: false,
        note_ports: false,
        parameters: false,
        state: false,
        gui: false,
        render: false,
        tail: false,
    };
    let some = PluginCapabilities { parameters: true, configurable_audio_ports: true, ..nothing };
    let text = TextArgument::Text;
    assert_eq!(get_extension(Some(some), text("clap.params")), Some(Extension::Params));
    assert_eq!(get_extension(Some(nothing), text("clap.params")), None);
    assert_eq!(get_extension(Some(nothing), text("clap.latency")), Some(Extension::Latency));
    assert_eq!(get_extension(Some(nothing), text(CLAP_PLUGIN_AS_VST3)), Some(Extension::Vst3));
    assert_eq!(
        get_extension(Some(some), text("clap.configurable-audio-ports.draft1")),
        Some(Extension::ConfigurableAudioPorts)
    );
    assert_eq!(get_extension(Some(some), TextArgument::Null), None);
    assert_eq!(get_extension(None, text("clap.latency")), None);
    assert_eq!(latency_frames(None), 0);
    assert_eq!(latency_frames(Some(64)), 64);
    assert_eq!(vst3_midi_channels(), 1);
    let _ = vst3_note_expressions();
    assert_eq!(resize_result(Some(true)), Ok(()));
    assert!(resize_result(Some(false)).is_err());
    assert!(resize_result(None).is_err());
}

#[test]
fn names_fill_fixed_fields() {
    let mut field = [9u8; 4];
    fill_c_char_array(&mut field, "ab");
    assert_eq!(field, *b"ab\0\0");
    fill_c_char_array(&mut field, "abcdef");
    assert_eq!(field, *b"abc\0");
    let mut buffer = [9u8; 4];
    assert!(write_c_str_buffer(&mut buffer, "x"));
    assert_eq!(buffer, [b'x', 0, 9, 9]);
    assert!(write_c_str_buffer(&mut buffer, "long text"));
    assert_eq!(buffer, *b"lon\0");
    assert!(!write_c_str_buffer(&mut [], "x"));
}

#[test]
fn streams_give_back_what_was_written() {
    let bytes: Vec<u8> = (0..=255).collect();
    let mut writer = StreamWriter::new(&bytes);
    let mut stored: Vec<u8> = Vec::new();
    while writer.step() == TransferStep::Continue {
        let offer = writer.offer();
        let taken = offer.len().min(100);
        stored.extend_from_slice(&offer[..taken]);
        writer.taken(taken as i64);
    }
    assert_eq!(writer.step(), TransferStep::Done);
    assert_eq!(stored, bytes);

    let mut reader = StreamReader::new(1000);
    for chunk in stored.chunks(100) {
        assert_eq!(reader.received(chunk.len() as i64, chunk), TransferStep::Continue);
    }
    assert_eq!(reader.received(0, &[]), TransferStep::Done);
    assert_eq!(reader.into_bytes(), bytes);
}

#[test]
fn broken_streams_fail() {
    let mut writer = StreamWriter::new(&[1, 2, 3]);
    assert_eq!(writer.taken(0), TransferStep::Failed);
    let mut writer = StreamWriter::new(&[1, 2, 3]);
    assert_eq!(writer.taken(-1), TransferStep::Failed);
    let mut reader = StreamReader::new(2);
    assert_eq!(reader.received(-1, &[]), TransferStep::Failed);
    let mut reader = StreamReader::new(2);
    assert_eq!(reader.received(3, &[1, 2, 3]), TransferStep::Failed);
}

#[test]
fn windowing_systems_are_known_by_name() {
    for api in [GuiApi::Cocoa, GuiApi::Win32, GuiApi::X11] {
        assert_eq!(gui_api_from_name(TextArgument::Text(gui_api_name(api))), Some(api));
    }
    assert_eq!(gui_api_from_name(TextArgument::Text("wayland")), None);
    assert_eq!(gui_api_from_name(TextArgument::Null), None);
    assert_eq!(ClapWindow::cocoa(0), None);
    assert_eq!(ClapWindow::win32(5), Some(ClapWindow::Win32 { hwnd: 5 }));
    assert_eq!(ClapWindow::x11(6), Some(ClapWindow::X11 { window: 6 }));
}

#[test]
fn gui_callbacks_exclude_each_other() {
    let mut guard = GuiCallbackGuard::new();
    assert!(guard.try_enter());
    assert!(!guard.try_enter());
    guard.leave();
    assert!(guard.try_enter());
}

#[test]
fn an_instance_is_activated_and_deactivated() {
    let mut state = InstanceState::new();
    assert!(!state.has_processor_or_busy());
    assert!(state.can_configure_ports());
    assert_eq!(state.step(LifecycleStep::RequestActivation), LifecycleAnswer::MakeProcessor);
    assert_eq!(state.step(LifecycleStep::RequestActivation), LifecycleAnswer::Refuse);
    assert!(!state.can_configure_ports());
    assert_eq!(
        state.step(LifecycleStep::FinishActivation { made: true }),
        LifecycleAnswer::Proceed
    );
    assert_eq!(state.step(LifecycleStep::StoreProcessor), LifecycleAnswer::Succeed);
    assert!(state.has_processor_or_busy());
    assert_eq!(state.step(LifecycleStep::RequestActivation), LifecycleAnswer::Refuse);

    assert_eq!(state.step(LifecycleStep::BorrowProcessor), LifecycleAnswer::UseProcessor);
    assert_eq!(state.step(LifecycleStep::BorrowProcessor), LifecycleAnswer::Refuse);
    assert_eq!(state.step(LifecycleStep::RequestDeactivation), LifecycleAnswer::Proceed);
    assert_eq!(state.step(LifecycleStep::TakeProcessor), LifecycleAnswer::Retry);
    assert_eq!(state.step(LifecycleStep::ReturnProcessor), LifecycleAnswer::Succeed);
    assert_eq!(state.step(LifecycleStep::TakeProcessor), LifecycleAnswer::HandBackProcessor);
    assert_eq!(state.step(LifecycleStep::FinishDeactivation), LifecycleAnswer::Succeed);
    assert!(!state.has_processor_or_busy());
    assert_eq!(state.step(LifecycleStep::BorrowProcessor), LifecycleAnswer::NoProcessor);
}

#[test]
fn a_failed_activation_leaves_no_processor() {
    let mut state = InstanceState::new();
    state.step(LifecycleStep::RequestActivation);
    assert_eq!(
        state.step(LifecycleStep::FinishActivation { made: false }),
        LifecycleAnswer::Refuse
    );
    assert!(state.can_configure_ports());
}

#[test]
fn outcomes_have_a_status() {
    assert_eq!(process_status(ProcessOutcome::MissingInstance), process::CLAP_PROCESS_ERROR);
    assert_eq!(process_status(ProcessOutcome::NullProcess), process::CLAP_PROCESS_SLEEP);
    assert_eq!(
        process_status(ProcessOutcome::Processed(ProcessStatus::Tail)),
        process::CLAP_PROCESS_TAIL
    );
    let call = ProcessCall {
        instance: true,
        block: true,
        buffers_valid: true,
        processor_busy: false,
        has_processor: true,
        processed: Ok(ProcessStatus::ContinueIfNotQuiet),
    };
    assert_eq!(call.plugin_process(), process::CLAP_PROCESS_CONTINUE_IF_NOT_QUIET);
    assert!(call.drains_edits());
    let failed = ProcessCall { processed: Err(PluginError::InvalidState), ..call };
    assert_eq!(failed.plugin_process(), process::CLAP_PROCESS_ERROR);
    assert_eq!(
        ProcessCall { processor_busy: true, ..failed }.plugin_process(),
        process::CLAP_PROCESS_SLEEP
    );
    assert_eq!(
        ProcessCall { has_processor: false, ..failed }.plugin_process(),
        process::CLAP_PROCESS_SLEEP
    );
    assert_eq!(
        ProcessCall { buffers_valid: false, ..call }.plugin_process(),
        process::CLAP_PROCESS_ERROR
    );
    let no_block = ProcessCall { block: false, ..call };
    assert_eq!(no_block.plugin_process(), process::CLAP_PROCESS_SLEEP);
    assert!(!no_block.drains_edits());
    assert_eq!(
        ProcessCall { instance: false, ..call }.plugin_process(),
        process::CLAP_PROCESS_ERROR
    );
}

#[test]
fn flags_become_bits() {
    let flags = ParameterFlags {
        is_stepped: true,
        is_bypass: true,
        is_enum: true,
        ..ParameterFlags::default()
    };
    assert_eq!(
        parameter_flags(flags),
        params::CLAP_PARAM_IS_STEPPED | params::CLAP_PARAM_IS_BYPASS | params::CLAP_PARAM_IS_ENUM
    );
    assert_eq!(parameter_flags(ParameterFlags::default()), 0);
    let port = AudioPortFlags { is_main: true, prefers_64bits: true, ..AudioPortFlags::default() };
    assert_eq!(
        audio_port_flags(port),
        audio_ports::CLAP_AUDIO_PORT_IS_MAIN | audio_ports::CLAP_AUDIO_PORT_PREFERS_64BITS
    );
}

#[test]
fn edits_reach_the_host_in_order() {
    let mut queue = ParameterEditQueue::new(true);
    assert!(queue.begin_edit(7));
    assert!(queue.update_edit(7, 0.5_f64.to_bits()));
    assert!(queue.end_edit(7));
    assert_eq!(
        queue.next_output_event(),
        Some(OutputEvent::ParamGestureBegin(ParameterGestureEvent { time: 0, parameter_id: 7 }))
    );
    assert!(queue.offered(true));
    match queue.next_output_event() {
        Some(OutputEvent::ParamValue(event)) => {
            assert_eq!(event.parameter_id, 7);
            assert_eq!(f64::from_bits(event.value), 0.5);
            assert_eq!((event.note_id, event.port_index, event.channel, event.key), (-1, -1, -1, -1));
        }
        _ => panic!("expected a value"),
    }
    assert!(!queue.offered(false));
    assert!(matches!(queue.next_output_event(), Some(OutputEvent::ParamValue(_))));
    assert!(queue.offered(true));
    assert!(matches!(queue.next_output_event(), Some(OutputEvent::ParamGestureEnd(_))));
    queue.offered(true);
    assert_eq!(queue.next_output_event(), None);
    assert!(!ParameterEditQueue::new(false).begin_edit(1));
}

#[test]
fn port_kinds_have_names() {
    assert_eq!(audio_port_type(AudioPortType::Unspecified, &[]), None);
    assert_eq!(audio_port_type(AudioPortType::Mono, &[]), Some("mono"));
    assert_eq!(audio_port_type(AudioPortType::Stereo, &[]), Some("stereo"));
    assert_eq!(audio_port_type(AudioPortType::Other(0), &["surround"]), Some("surround"));
    assert_eq!(convert_port_type(TextArgument::Text("mono")), AudioPortType::Mono);
    assert_eq!(convert_port_type(TextArgument::Text("stereo")), AudioPortType::Stereo);
    assert_eq!(convert_port_type(TextArgument::Text("surround")), AudioPortType::Unspecified);
    assert_eq!(convert_port_type(TextArgument::Null), AudioPortType::Unspecified);
    let raw = [RawConfigurationRequest {
        is_input: true,
        port_index: 1,
        channel_count: 2,
        port_type: TextArgument::Text("stereo"),
    }];
    let requests = convert_requests(&raw);
    assert_eq!(requests.len(), 1);
    assert_eq!(requests[0].port_type, AudioPortType::Stereo);
    assert_eq!(requests[0].channel_count, 2);
    assert_eq!(external_length(true, 0), Ok(0));
    assert_eq!(external_length(true, 2), Err(AudioBufferError::InvalidPortBuffer));
    assert_eq!(external_length(false, 2), Ok(2));
}

#[test]
fn a_validator_finds_output_ports_among_inputs() {
    assert!(looks_among_outputs(false, true, "/tools/clap-validator"));
    assert!(!looks_among_outputs(true, true, "clap-validator"));
    assert!(!looks_among_outputs(false, false, "clap-validator"));
    assert!(!looks_among_outputs(false, true, "Live"));
}

const OPEN: Route = Route { pointers: true, instance: true, free: true, supported: true };
const BUSY: Route = Route { pointers: true, instance: true, free: false, supported: true };

#[test]
fn queries_answer_where_they_get_through() {
    assert_eq!(count_answer(OPEN, 3), 3);
    assert_eq!(count_answer(BUSY, 3), 0);

    let info = ParameterInfo {
        id: 1,
        name: "Gain",
        module: "main",
        min_value: 0.0_f64.to_bits(),
        max_value: 1.0_f64.to_bits(),
        default_value: 0.5_f64.to_bits(),
        flags: ParameterFlags { is_automatable: true, ..ParameterFlags::default() },
    };
    let raw = params_get_info(OPEN, Some(&info)).unwrap();
    assert_eq!(raw.id, 1);
    assert_eq!(raw.flags, params::CLAP_PARAM_IS_AUTOMATABLE);
    assert_eq!(&raw.name[..5], b"Gain\0");
    assert_eq!(&raw.module[..5], b"main\0");
    assert_eq!(f64::from_bits(raw.default_value), 0.5);
    assert!(params_get_info(OPEN, None).is_none());
    assert!(params_get_info(BUSY, Some(&info)).is_none());

    assert_eq!(params_get_value(OPEN, Ok(4)), Some(4));
    assert_eq!(params_get_value(OPEN, Err(PluginError::InvalidParameter)), None);
    assert_eq!(params_get_value(BUSY, Ok(4)), None);

    let mut out = [7u8; 8];
    assert!(params_value_to_text(OPEN, Ok("0 dB"), &mut out));
    assert_eq!(&out[..5], b"0 dB\0");
    assert!(!params_value_to_text(BUSY, Ok("9"), &mut out));
    assert!(!params_value_to_text(OPEN, Err(PluginError::InvalidParameter), &mut out));
    assert_eq!(&out[..5], b"0 dB\0");

    assert_eq!(params_text_to_value(OPEN, TextArgument::Text("1"), Ok(5)), Some(5));
    assert_eq!(params_text_to_value(OPEN, TextArgument::Invalid, Ok(5)), None);
    assert_eq!(
        params_text_to_value(
            OPEN,
            TextArgument::Text("?"),
            Err(PluginError::InvalidParameter)
        ),
        None
    );
}

#[test]
fn a_flush_sends_edits_even_where_values_are_lost() {
    let plan = params_flush(OPEN);
    assert!(plan.apply_input && plan.drain_output);
    let plan = params_flush(BUSY);
    assert!(!plan.apply_input && plan.drain_output);
    let plan = params_flush(Route { instance: false, ..OPEN });
    assert!(!plan.apply_input && !plan.drain_output);
}

#[test]
fn ports_are_described() {
    let port = AudioPortInfo {
        id: 3,
        name: "Main",
        flags: AudioPortFlags { is_main: true, ..AudioPortFlags::default() },
        channel_count: 2,
        port_type: AudioPortType::Stereo,
        in_place_pair: None,
    };
    let raw = audio_ports_get(OPEN, Some(&port)).unwrap();
    assert_eq!((raw.id, raw.channel_count, raw.in_place_pair), (3, 2, u32::MAX));
    assert_eq!(&raw.name[..5], b"Main\0");
    assert!(audio_ports_get(BUSY, Some(&port)).is_none());
    let notes = NotePortInfo {
        id: 4,
        supported_dialects: NoteDialects::clap().union(NoteDialects::midi()),
        preferred_dialect: NoteDialects::clap(),
        name: "Notes",
    };
    let raw = note_ports_get(OPEN, Some(&notes)).unwrap();
    assert_eq!(raw.id, 4);
    assert_eq!(raw.supported_dialects, 3);
    assert_eq!(raw.preferred_dialect, 1);
    assert!(note_ports_get(OPEN, None).is_none());
}

#[test]
fn layouts_are_asked_for_only_without_a_processor() {
    let idle = InstanceState::new();
    let mut active = InstanceState::new();
    active.has_processor = true;
    let raw = [RawConfigurationRequest {
        is_input: false,
        port_index: 0,
        channel_count: 1,
        port_type: TextArgument::Text("mono"),
    }];
    let layouts = requested_layouts(OPEN, &idle, Some(&raw), 1).unwrap();
    assert_eq!(layouts.len(), 1);
    assert_eq!(layouts[0].port_type, AudioPortType::Mono);
    assert!(requested_layouts(OPEN, &active, Some(&raw), 1).is_none());
    assert!(requested_layouts(OPEN, &idle, None, 1).is_none());
    assert!(requested_layouts(OPEN, &idle, None, 0).unwrap().is_empty());
}

#[test]
fn states_are_saved_and_loaded() {
    assert!(state_save(OPEN, true, true));
    assert!(!state_save(OPEN, true, false));
    assert!(!state_save(OPEN, false, true));
    assert!(!state_save(BUSY, true, true));
    assert_eq!(state_load(OPEN, Some(vec![1, 2])).unwrap().bytes, [1, 2]);
    assert!(state_load(OPEN, None).is_none());
    assert!(state_load(BUSY, Some(vec![1])).is_none());
    assert_eq!(state_loaded(true), (true, true));
    assert_eq!(state_loaded(false), (false, false));
}

#[test]
fn gui_callbacks_pass_on_what_is_known() {
    let cocoa = TextArgument::Text("cocoa");
    assert_eq!(gui_is_api_supported(OPEN, cocoa), Some(GuiApi::Cocoa));
    assert_eq!(gui_is_api_supported(OPEN, TextArgument::Text("wayland")), None);
    let embedded = GuiConfiguration { api: GuiApi::Cocoa, is_floating: false };
    assert_eq!(gui_create(OPEN, cocoa, false), Some(embedded));
    assert_eq!(gui_create(BUSY, cocoa, false), None);
    assert_eq!(gui_get_preferred_api(OPEN, Some(embedded)), Some(("cocoa", false)));
    assert_eq!(gui_get_preferred_api(OPEN, None), None);
    let size = GuiSize { width: 3, height: 4 };
    assert_eq!(size_answer(OPEN, Ok(size)), Some(size));
    assert_eq!(size_answer(OPEN, Err(PluginError::InvalidState)), None);
    let hints = GuiResizeHints {
        can_resize_horizontally: true,
        can_resize_vertically: false,
        preserve_aspect_ratio: false,
        aspect_ratio_width: 1,
        aspect_ratio_height: 1,
    };
    assert!(gui_get_resize_hints(OPEN, Some(hints)).is_some());
    assert!(gui_get_resize_hints(BUSY, Some(hints)).is_none());
    let handles = WindowHandles { cocoa: 9, win32: 0, x11: 0 };
    assert_eq!(gui_set_parent(OPEN, cocoa, handles), Some(ClapWindow::Cocoa { ns_view: 9 }));
    assert_eq!(gui_set_parent(OPEN, TextArgument::Text("x11"), handles), None);
    assert_eq!(gui_suggest_title(OPEN, TextArgument::Text("Gain")), Some("Gain"));
    assert_eq!(gui_suggest_title(OPEN, TextArgument::Invalid), None);
    assert!(destroys_gui(true, false));
    assert!(!destroys_gui(true, true));
}

#[test]
fn note_dialects_have_the_bits_of_the_interface() {
    assert_eq!(NoteDialects::clap().bits(), clap_sys::ext::note_ports::CLAP_NOTE_DIALECT_CLAP);
    assert_eq!(NoteDialects::midi().bits(), clap_sys::ext::note_ports::CLAP_NOTE_DIALECT_MIDI);
    assert_eq!(
        NoteDialects::midi_mpe().bits(),
        clap_sys::ext::note_ports::CLAP_NOTE_DIALECT_MIDI_MPE
    );
    assert_eq!(NoteDialects::midi2().bits(), clap_sys::ext::note_ports::CLAP_NOTE_DIALECT_MIDI2);
    assert_eq!(NoteDialects::from_bits(6).union(NoteDialects::clap()).bits(), 7);
}
