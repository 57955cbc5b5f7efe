use wrac_plugin::wrac_clap_adapter::api::{
    AudioPortConfigurationRequest, AudioPortType, GuiApi, GuiConfiguration, GuiSize, PluginError,
    ProcessStatus,
};
use wrac_plugin::wrac_clap_adapter::events::{InputEvent, ParameterValueEvent};
use wrac_plugin::wrac_clap_adapter::process_buffer::{AudioPortBuffer, AudioProcessBuffer};
use wrac_plugin::wrac_gain_plugin::audio::{process_audio_range, GainBlock};
use wrac_plugin::wrac_gain_plugin::audio_ports::{
    is_supported_audio_port_request, resolve_audio_channel_count, AudioLayout,
};
use wrac_plugin::wrac_gain_plugin::commands::{
    edit_step, EditStep, ParameterCommand, ResizeDragState,
};
use wrac_plugin::wrac_gain_plugin::gui_size::{
    applied_view_size, check_configuration, default_gui_size, max_gui_size, min_gui_size,
};
use wrac_plugin::wrac_gain_plugin::identity::{archive_entry_name, four_char_code};
use wrac_plugin::wrac_gain_plugin::logging::{
    initial_level, log_file_name, parse_level_filter, sanitize_file_stem, LevelFilter,
};
use wrac_plugin::wrac_gain_plugin::notifier::{GuiSubscriptionKind, GuiSubscriptions};
use wrac_plugin::wrac_gain_plugin::parameters::{
    clamp_gain, decibel_number_text, parameter_behaviour, parameter_default_value,
    parameter_id_at, parameter_name, parameter_text_value, parameter_value_text, parse_switch,
    switch_text, turns_on, ParameterText, ValueText, PARAM_BYPASS_ID, PARAM_GAIN_ID,
};
use wrac_plugin::wrac_gain_plugin::state::{
    parameter_update, restore_state, save_state, EditorPage, ParameterStateSnapshot,
    ParameterUpdate, ProjectState, SavedPluginState,
};

#[test]
fn accepts_matching_mono_configuration() {
    let requests = [
        AudioPortConfigurationRequest {
            is_input: true,
            port_index: 0,
            channel_count: 1,
            port_type: AudioPortType::Mono,
        },
        AudioPortConfigurationRequest {
            is_input: false,
            port_index: 0,
            channel_count: 1,
            port_type: AudioPortType::Mono,
        },
    ];

    assert_eq!(resolve_audio_channel_count(2, &requests), Some(1));
}

#[test]
fn rejects_mismatched_input_output_configuration() {
    let requests = [
        AudioPortConfigurationRequest {
            is_input: true,
            port_index: 0,
            channel_count: 1,
            port_type: AudioPortType::Mono,
        },
        AudioPortConfigurationRequest {
            is_input: false,
            port_index: 0,
            channel_count: 2,
            port_type: AudioPortType::Stereo,
        },
    ];

    assert_eq!(resolve_audio_channel_count(2, &requests), None);
}

#[test]
fn layouts_are_mono_or_stereo() {
    let surround = AudioPortConfigurationRequest {
        is_input: true,
        port_index: 0,
        channel_count: 6,
        port_type: AudioPortType::Unspecified,
    };
    assert!(!is_supported_audio_port_request(&surround));
    let wrong = AudioPortConfigurationRequest {
        channel_count: 2,
        port_type: AudioPortType::Mono,
        ..surround
    };
    assert!(!is_supported_audio_port_request(&wrong));
    let second = AudioPortConfigurationRequest { port_index: 1, channel_count: 2, ..surround };
    assert_eq!(resolve_audio_channel_count(2, &[second]), None);

    let mut layout = AudioLayout::new(2);
    assert_eq!(layout.audio_port_count(true), 1);
    let mono = |is_input: bool| AudioPortConfigurationRequest {
        is_input,
        port_index: 0,
        channel_count: 1,
        port_type: AudioPortType::Unspecified,
    };
    assert!(!layout.can_apply_audio_port_configuration(&[mono(true)]));
    assert!(layout.apply_audio_port_configuration(&[mono(true)]).is_err());
    assert_eq!(layout.channel_count, 2);
    assert!(layout.apply_audio_port_configuration(&[mono(true), mono(false)]).is_ok());
    assert_eq!(layout.channel_count, 1);
    let info = layout.audio_port_info(0, false).unwrap();
    assert_eq!(info.name, "Main Out");
    assert_eq!(info.port_type, AudioPortType::Mono);
    assert!(layout.audio_port_info(1, false).is_none());
}

fn assert_send_sync<T: Send + Sync>() {}

#[test]
fn shared_state_is_send_sync() {
    assert_send_sync::<ParameterStateSnapshot>();
}

#[test]
fn project_state_store_is_send_sync() {
    assert_send_sync::<ProjectState>();
}

#[test]
fn gains_are_clamped() {
    let clamp = |gain: f32| f32::from_bits(clamp_gain(gain.to_bits()));
    assert_eq!(clamp(0.5), 0.5);
    assert_eq!(clamp(2.0), 2.0);
    assert_eq!(clamp(3.5), 2.0);
    assert_eq!(clamp(f32::INFINITY), 2.0);
    assert_eq!(clamp(-1.0), 0.0);
    assert_eq!(clamp(f32::NEG_INFINITY), 0.0);
    assert_eq!(clamp_gain((-0.0_f32).to_bits()), (-0.0_f32).to_bits());
    assert!(clamp(f32::NAN).is_nan());
    assert_eq!(clamp(clamp(9.0)), clamp(9.0));
    for gain in [0.0_f32, 1.0e-30, 0.1, 1.0, 1.999, 2.0, 2.001, 1.0e30, -5.0] {
        assert_eq!(clamp(gain), gain.clamp(0.0, 2.0));
    }
}

#[test]
fn switches_turn_on_at_one_half() {
    for value in [0.5, 0.75, 1.0, 100.0, f64::INFINITY] {
        assert!(turns_on(f64::to_bits(value)));
    }
    for value in [0.0, 0.4999999, -0.5, -1.0, f64::NEG_INFINITY, f64::NAN] {
        assert!(!turns_on(f64::to_bits(value)));
    }
}

#[test]
fn parameters_are_listed() {
    assert_eq!(parameter_id_at(0), Some(PARAM_GAIN_ID));
    assert_eq!(parameter_id_at(1), Some(PARAM_BYPASS_ID));
    assert_eq!(parameter_id_at(2), None);
    assert_eq!(parameter_name(PARAM_GAIN_ID), Some("Gain"));
    assert_eq!(parameter_name(PARAM_BYPASS_ID), Some("Bypass"));
    assert_eq!(parameter_name(5), None);
    let bypass = parameter_behaviour(PARAM_BYPASS_ID);
    assert!(bypass.is_bypass && bypass.is_stepped && bypass.is_enum && bypass.is_automatable);
    let gain = parameter_behaviour(PARAM_GAIN_ID);
    assert!(gain.is_automatable && !gain.is_bypass && !gain.is_stepped);
    assert_eq!(parameter_default_value(PARAM_GAIN_ID).map(f64::from_bits), Ok(1.0));
    assert_eq!(parameter_default_value(PARAM_BYPASS_ID).map(f64::from_bits), Ok(0.0));
    assert_eq!(parameter_default_value(5), Err(PluginError::InvalidParameter));
}

#[test]
fn switch_texts_are_read_back() {
    assert_eq!(parse_switch(switch_text(true)), Some(true));
    assert_eq!(parse_switch(switch_text(false)), Some(false));
    assert_eq!(parse_switch("  TRUE "), Some(true));
    assert_eq!(parse_switch("0"), Some(false));
    assert_eq!(parse_switch("maybe"), None);
}

#[test]
fn texts_of_parameters_are_read_and_shown() {
    assert_eq!(decibel_number_text(" -3.5 dB "), "-3.5");
    assert_eq!(decibel_number_text("6"), "6");
    match parameter_text_value(PARAM_GAIN_ID, "3 dB").unwrap() {
        ParameterText::Decibels { number } => assert_eq!(number, "3"),
        ParameterText::Switch { .. } => panic!("expected decibels"),
    }
    match parameter_text_value(PARAM_BYPASS_ID, "on").unwrap() {
        ParameterText::Switch { on } => assert!(on),
        ParameterText::Decibels { .. } => panic!("expected a switch"),
    }
    assert_eq!(
        parameter_text_value(PARAM_BYPASS_ID, "3 dB").err(),
        Some(PluginError::InvalidParameter)
    );
    assert_eq!(parameter_text_value(4, "on").err(), Some(PluginError::InvalidParameter));
    assert!(matches!(parameter_value_text(PARAM_GAIN_ID, 0), Ok(ValueText::Decibels)));
    assert!(matches!(
        parameter_value_text(PARAM_BYPASS_ID, 1.0_f64.to_bits()),
        Ok(ValueText::Text { text: "On" })
    ));
    assert_eq!(parameter_value_text(4, 0).err(), Some(PluginError::InvalidParameter));
}

#[test]
fn parameters_read_as_they_were_set() {
    let mut state = ParameterStateSnapshot::new();
    assert_eq!(state.parameter_value(PARAM_GAIN_ID), Some(1.0_f32.to_bits()));
    let update =
        parameter_update(PARAM_GAIN_ID, 5.0_f64.to_bits(), 5.0_f32.to_bits()).unwrap();
    assert_eq!(update, ParameterUpdate::Gain(2.0_f32.to_bits()));
    state.store(update);
    assert_eq!(state.parameter_value(PARAM_GAIN_ID), Some(update.value()));
    let update = parameter_update(PARAM_BYPASS_ID, 0.5_f64.to_bits(), 0.5_f32.to_bits()).unwrap();
    state.store(update);
    assert_eq!(state.parameter_value(PARAM_BYPASS_ID), Some(1.0_f32.to_bits()));
    assert_eq!(state.gain_in_effect(), 1.0_f32.to_bits());
    assert_eq!(state.parameter_value(3), None);
    assert_eq!(parameter_update(3, 0, 0), None);
}

#[test]
fn projects_give_back_what_was_saved() {
    let project = ProjectState { editor_page: EditorPage::About };
    let parameters = ParameterStateSnapshot { gain: 0.25_f32.to_bits(), bypass: true };
    let (restored, values) = restore_state(save_state(project, parameters));
    assert_eq!(restored, project);
    assert_eq!(values, parameters);
    let foreign = SavedPluginState {
        gain: 8.0_f32.to_bits(),
        bypass: false,
        editor_page: EditorPage::Controls,
    };
    assert_eq!(restore_state(foreign).1.gain, 2.0_f32.to_bits());
    assert_eq!(ProjectState::default().editor_page, EditorPage::Controls);
    for page in [EditorPage::Controls, EditorPage::About] {
        assert_eq!(EditorPage::from_str(page.as_str()), Some(page));
    }
    assert_eq!(EditorPage::from_str("other"), None);
}

fn scale32(sample: f32, gain: u32) -> f32 {
    sample * f32::from_bits(gain)
}

fn scale64(sample: f64, gain: u32) -> f64 {
    sample * f32::from_bits(gain) as f64
}

fn gain_event(time: u32, gain: f64) -> (InputEvent, u32) {
    let event = InputEvent::ParamValue(ParameterValueEvent {
        time,
        parameter_id: PARAM_GAIN_ID,
        value: gain.to_bits(),
        note_id: -1,
        port_index: -1,
        channel: -1,
        key: -1,
    });
    (event, (gain as f32).to_bits())
}

#[test]
fn a_change_of_the_gain_is_heard_from_its_frame_on() {
    let mut input = [1.0_f32; 4];
    let mut output = [0.0_f32; 4];
    {
        let mut singles: [&mut [f32]; 2] = [&mut input, &mut output];
        let mut doubles: [&mut [f64]; 0] = [];
        let inputs = [AudioPortBuffer { channel_count: 1, data32: Some(&[1]), data64: None }];
        let outputs = [AudioPortBuffer { channel_count: 1, data32: Some(&[2]), data64: None }];
        let mut audio = AudioProcessBuffer::from_raw_buffers(
            &inputs,
            &outputs,
            &mut singles,
            &mut doubles,
            4,
        )
        .unwrap();
        let mut block = GainBlock::new(4, ParameterStateSnapshot::new());
        let (event, narrowed) = gain_event(1, 0.5);
        let update = block.event(&mut audio, &event, narrowed, &scale32, &scale64).unwrap();
        assert_eq!(update, Some(ParameterUpdate::Gain(0.5_f32.to_bits())));
        let (event, narrowed) = gain_event(3, 2.0);
        block.event(&mut audio, &event, narrowed, &scale32, &scale64).unwrap();
        assert_eq!(block.finish(&mut audio, &scale32, &scale64), Ok(ProcessStatus::ContinueIfNotQuiet));
    }
    assert_eq!(output, [1.0, 0.5, 0.5, 2.0]);
}

#[test]
fn events_beyond_the_block_are_heard_in_the_next() {
    let mut samples = [1.0_f64; 2];
    {
        let mut singles: [&mut [f32]; 0] = [];
        let mut doubles: [&mut [f64]; 1] = [&mut samples];
        let ports = [AudioPortBuffer { channel_count: 1, data32: None, data64: Some(&[1]) }];
        let mut audio = AudioProcessBuffer::from_raw_buffers(
            &ports,
            &ports,
            &mut singles,
            &mut doubles,
            2,
        )
        .unwrap();
        let mut block = GainBlock::new(2, ParameterStateSnapshot::new());
        let (event, narrowed) = gain_event(9, 0.5);
        block.event(&mut audio, &event, narrowed, &scale32, &scale64).unwrap();
        block.finish(&mut audio, &scale32, &scale64).unwrap();
        assert_eq!(block.parameters.gain, 0.5_f32.to_bits());
    }
    assert_eq!(samples, [1.0, 1.0]);
}

#[test]
fn a_range_of_frames_is_played() {
    let mut samples = [1.0_f32, 2.0, 3.0];
    {
        let mut singles: [&mut [f32]; 1] = [&mut samples];
        let mut doubles: [&mut [f64]; 0] = [];
        let ports = [AudioPortBuffer { channel_count: 1, data32: Some(&[1]), data64: None }];
        let mut audio = AudioProcessBuffer::from_raw_buffers(
            &ports,
            &ports,
            &mut singles,
            &mut doubles,
            3,
        )
        .unwrap();
        process_audio_range(&mut audio, 1, 3, &scale32, &scale64, 2.0_f32.to_bits()).unwrap();
        process_audio_range(&mut audio, 2, 2, &scale32, &scale64, 9.0_f32.to_bits()).unwrap();
        process_audio_range(&mut audio, 2, 1, &scale32, &scale64, 9.0_f32.to_bits()).unwrap();
    }
    assert_eq!(samples, [1.0, 4.0, 6.0]);
}

#[test]
fn commands_begin_and_end_their_edits() {
    let steps = |command: ParameterCommand| {
        let mut steps = Vec::new();
        while let Some(step) = edit_step(command, steps.len()) {
            steps.push(step);
        }
        steps
    };
    assert_eq!(
        steps(ParameterCommand::SetText),
        [
            EditStep::BeginEdit,
            EditStep::Store,
            EditStep::NotifyGui,
            EditStep::UpdateEdit,
            EditStep::EndEdit,
        ]
    );
    assert_eq!(steps(ParameterCommand::BeginGesture), [EditStep::BeginEdit]);
    assert_eq!(
        steps(ParameterCommand::SetValue),
        [EditStep::Store, EditStep::NotifyGui, EditStep::UpdateEdit]
    );
    assert_eq!(steps(ParameterCommand::EndGesture), [EditStep::EndEdit]);
}

#[test]
fn drags_are_followed_by_their_id() {
    let mut state: ResizeDragState<u32> = ResizeDragState::new();
    assert!(!state.begin(1, None));
    assert_eq!(state.start_of(Some(1)), None);
    assert!(state.begin(2, Some(40)));
    assert_eq!(state.start_of(Some(2)), Some(40));
    assert_eq!(state.start_of(Some(3)), None);
    assert_eq!(state.start_of(None), None);
    state.end(3);
    assert_eq!(state.start_of(Some(2)), Some(40));
    state.end(2);
    assert_eq!(state.start_of(Some(2)), None);
}

#[test]
fn sizes_of_the_gui_are_bounded() {
    assert_eq!(default_gui_size(), GuiSize { width: 320, height: 380 });
    assert_eq!(min_gui_size(), GuiSize { width: 320, height: 380 });
    assert_eq!(max_gui_size(), GuiSize { width: 720, height: 720 });
    assert_eq!(
        applied_view_size(GuiSize { width: 1, height: 9000 }),
        GuiSize { width: 320, height: 720 }
    );
    let configuration = GuiConfiguration { api: GuiApi::X11, is_floating: false };
    assert!(check_configuration(configuration).is_ok());
    assert_eq!(
        check_configuration(GuiConfiguration { is_floating: true, ..configuration }),
        Err(PluginError::Message("unsupported GUI configuration"))
    );
}

#[test]
fn identities_have_four_bytes() {
    assert_eq!(four_char_code("WtGn"), Some(*b"WtGn"));
    assert_eq!(four_char_code("Wt"), None);
    assert_eq!(archive_entry_name("a\\b\\c.js", false), "a/b/c.js");
    assert_eq!(archive_entry_name("a\\b", true), "a/b/");
}

#[test]
fn log_settings_are_read() {
    assert_eq!(parse_level_filter("debug"), Some(LevelFilter::Debug));
    assert_eq!(parse_level_filter("warn,wrac_gain_plugin= TRACE "), Some(LevelFilter::Trace));
    assert_eq!(parse_level_filter("loud"), None);
    assert_eq!(initial_level(Some("off")), LevelFilter::Off);
    assert_eq!(sanitize_file_stem(" a/b:c "), "a_b_c");
    assert_eq!(sanitize_file_stem("  "), "Plugin");
    assert_eq!(log_file_name("WRAC Gain"), "WRAC Gain Latest.log");
}

#[test]
fn a_late_cleanup_spares_other_subscriptions() {
    let mut subscriptions = GuiSubscriptions::new();
    let first = subscriptions.subscribe(GuiSubscriptionKind::Parameters);
    let second = subscriptions.subscribe(GuiSubscriptionKind::Parameters);
    let third = subscriptions.subscribe(GuiSubscriptionKind::EditorPage);
    assert_eq!(subscriptions.recipients(GuiSubscriptionKind::Parameters), [first, second]);
    assert_eq!(subscriptions.recipients(GuiSubscriptionKind::EditorPage), [third]);
    subscriptions.unsubscribe(first);
    subscriptions.unsubscribe(first);
    assert_eq!(subscriptions.recipients(GuiSubscriptionKind::Parameters), [second]);
    subscriptions.clear_subscriptions();
    assert!(subscriptions.recipients(GuiSubscriptionKind::Parameters).is_empty());
    let next = subscriptions.next_subscription_id();
    assert!(next > third);
    assert_eq!(subscriptions.subscribe(GuiSubscriptionKind::EditorPage), next);
    subscriptions.unsubscribe(second);
    assert_eq!(subscriptions.recipients(GuiSubscriptionKind::EditorPage), [next]);
}
