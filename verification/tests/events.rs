use clap_sys::events::{
    clap_event_note, clap_event_note_expression, clap_event_param_gesture, clap_event_param_mod,
    clap_event_param_value, clap_event_transport,
};
use std::mem::size_of;
use wrac_plugin::clap_abi::{
    CLAP_CORE_EVENT_SPACE_ID, CLAP_EVENT_NOTE_CHOKE, CLAP_EVENT_NOTE_EXPRESSION,
    CLAP_EVENT_NOTE_ON, CLAP_EVENT_PARAM_GESTURE_BEGIN, CLAP_EVENT_PARAM_VALUE,
    CLAP_EVENT_TRANSPORT,
};
use wrac_plugin::wrac_clap_adapter::events::{
    event_layout, EventBody, EventHeader, EventLayout, EventSizes, InputEvent, InputEvents,
    NoteEvent, NoteExpressionEvent, OutputEvent, ParameterGestureEvent, ParameterModEvent,
    ParameterValueEvent, RawEvent, UnknownEvent,
};

fn sizes() -> EventSizes {
    EventSizes {
        note: size_of::<clap_event_note>() as u32,
        note_expression: size_of::<clap_event_note_expression>() as u32,
        param_value: size_of::<clap_event_param_value>() as u32,
        param_mod: size_of::<clap_event_param_mod>() as u32,
        param_gesture: size_of::<clap_event_param_gesture>() as u32,
        transport: size_of::<clap_event_transport>() as u32,
    }
}

fn header(size: u32, time: u32, event_type: u16) -> EventHeader {
    EventHeader { size, time, space_id: CLAP_CORE_EVENT_SPACE_ID, event_type, flags: 0 }
}

fn param_value(time: u32, parameter_id: u32, value: f64) -> RawEvent {
    RawEvent {
        header: header(sizes().param_value, time, CLAP_EVENT_PARAM_VALUE),
        body: EventBody::ParamValue {
            parameter_id,
            value: value.to_bits(),
            note_id: -1,
            port_index: -1,
            channel: -1,
            key: -1,
        },
    }
}

/// Reads an event as an adapter does, which reads no more than the layout of the event.
fn read(raw: RawEvent) -> InputEvent {
    let body = match event_layout(&raw.header, &sizes()) {
        EventLayout::Unread => EventBody::Unread,
        _ => raw.body,
    };
    InputEvent::from_header(&RawEvent { header: raw.header, body }, &sizes())
}

#[test]
fn input_events_parse_param_and_note_events() {
    let param = param_value(12, 7, 0.75);
    let note = RawEvent {
        header: header(sizes().note, 18, CLAP_EVENT_NOTE_ON),
        body: EventBody::Note {
            note_id: 3,
            port_index: 1,
            channel: 2,
            key: 60,
            velocity: 0.5_f64.to_bits(),
        },
    };
    let list = [Some(read(param)), Some(read(note))];
    let events = InputEvents { events: &list };

    assert_eq!(events.len(), 2);
    match events.get(0).unwrap() {
        InputEvent::ParamValue(event) => {
            assert_eq!(event.time, 12);
            assert_eq!(event.parameter_id, 7);
            assert_eq!(f64::from_bits(event.value), 0.75);
        }
        _ => panic!("expected param value"),
    }
    match events.get(1).unwrap() {
        InputEvent::NoteOn(event) => {
            assert_eq!(event.time, 18);
            assert_eq!(event.note_id, 3);
            assert_eq!(event.key, 60);
            assert_eq!(f64::from_bits(event.velocity), 0.5);
        }
        _ => panic!("expected note on"),
    }
}

#[test]
fn input_events_iter_skips_null_slots() {
    let list = [None, Some(read(param_value(4, 9, 0.25)))];
    let events = InputEvents { events: &list };
    let mut iter = events.iter();
    let mut parsed = Vec::new();
    while let Some(event) = iter.next() {
        parsed.push(event);
    }

    assert_eq!(parsed.len(), 1);
    match parsed[0] {
        InputEvent::ParamValue(event) => assert_eq!(event.parameter_id, 9),
        _ => panic!("expected param value"),
    }
}

#[test]
fn parameter_values_are_picked_in_order() {
    let list = [
        Some(read(param_value(1, 2, 0.5))),
        None,
        Some(InputEvent::Unknown(UnknownEvent { time: 2, space_id: 9, event_type: 1 })),
        Some(read(param_value(3, 4, 1.0))),
    ];
    let events = InputEvents { events: &list };
    assert!(!events.is_empty());
    assert!(InputEvents { events: &[] }.is_empty());
    assert!(events.get(1).is_none());
    assert!(events.get(4).is_none());
    let values = events.parameter_values();
    assert_eq!(values.len(), 2);
    assert_eq!((values[0].time, values[0].parameter_id), (1, 2));
    assert_eq!((values[1].time, values[1].parameter_id), (3, 4));
}

#[test]
fn short_events_are_unknown() {
    let mut raw = param_value(5, 1, 0.0);
    raw.header.size -= 1;
    assert_eq!(event_layout(&raw.header, &sizes()), EventLayout::Unread);
    assert_eq!(
        read(raw),
        InputEvent::Unknown(UnknownEvent {
            time: 5,
            space_id: CLAP_CORE_EVENT_SPACE_ID,
            event_type: CLAP_EVENT_PARAM_VALUE,
        })
    );
}

#[test]
fn foreign_events_are_unknown() {
    let mut raw = param_value(5, 1, 0.0);
    raw.header.space_id = 17;
    assert_eq!(
        read(raw),
        InputEvent::Unknown(UnknownEvent {
            time: 5,
            space_id: 17,
            event_type: CLAP_EVENT_PARAM_VALUE,
        })
    );
    let mut raw = param_value(6, 1, 0.0);
    raw.header.event_type = 999;
    assert_eq!(read(raw).time(), 6);
}

#[test]
fn transport_is_read() {
    let raw = RawEvent {
        header: header(sizes().transport, 30, CLAP_EVENT_TRANSPORT),
        body: EventBody::Transport {
            flags: 3,
            tempo: 120.0_f64.to_bits(),
            tempo_inc: 0,
            song_pos_beats: 1,
            song_pos_seconds: 2,
            loop_start_beats: 3,
            loop_end_beats: 4,
            loop_start_seconds: 5,
            loop_end_seconds: 6,
            bar_start: 7,
            bar_number: 8,
            tsig_num: 3,
            tsig_denom: 4,
        },
    };
    match read(raw) {
        InputEvent::Transport(event) => {
            assert_eq!(event.time, 30);
            assert_eq!(f64::from_bits(event.tempo), 120.0);
            assert_eq!(event.loop_end_seconds, 6);
            assert_eq!((event.tsig_num, event.tsig_denom), (3, 4));
        }
        _ => panic!("expected transport"),
    }
}

#[test]
fn events_survive_the_interface() {
    let note = NoteEvent {
        time: 1,
        note_id: 2,
        port_index: 3,
        channel: 4,
        key: 5,
        velocity: 0.125_f64.to_bits(),
    };
    let raw = OutputEvent::NoteChoke(note).to_raw(&sizes());
    assert_eq!(raw.header.event_type, CLAP_EVENT_NOTE_CHOKE);
    assert_eq!(raw.header.size, sizes().note);
    assert_eq!(read(raw), InputEvent::NoteChoke(note));
    assert_eq!(read(OutputEvent::NoteOn(note).to_raw(&sizes())), InputEvent::NoteOn(note));
    assert_eq!(read(OutputEvent::NoteOff(note).to_raw(&sizes())), InputEvent::NoteOff(note));
    assert_eq!(read(OutputEvent::NoteEnd(note).to_raw(&sizes())), InputEvent::NoteEnd(note));

    let expression = NoteExpressionEvent {
        time: 1,
        expression_id: 4,
        note_id: 2,
        port_index: 0,
        channel: 0,
        key: 64,
        value: 0.5_f64.to_bits(),
    };
    let raw = OutputEvent::NoteExpression(expression).to_raw(&sizes());
    assert_eq!(raw.header.event_type, CLAP_EVENT_NOTE_EXPRESSION);
    assert_eq!(read(raw), InputEvent::NoteExpression(expression));

    let value = ParameterValueEvent {
        time: 9,
        parameter_id: 1,
        value: 0.75_f64.to_bits(),
        note_id: -1,
        port_index: -1,
        channel: -1,
        key: -1,
    };
    assert_eq!(
        read(OutputEvent::ParamValue(value).to_raw(&sizes())),
        InputEvent::ParamValue(value)
    );

    let modulation = ParameterModEvent {
        time: 9,
        parameter_id: 1,
        amount: 0.75_f64.to_bits(),
        note_id: -1,
        port_index: -1,
        channel: -1,
        key: -1,
    };
    assert_eq!(
        read(OutputEvent::ParamMod(modulation).to_raw(&sizes())),
        InputEvent::ParamMod(modulation)
    );

    let gesture = ParameterGestureEvent { time: 3, parameter_id: 8 };
    let raw = OutputEvent::ParamGestureBegin(gesture).to_raw(&sizes());
    assert_eq!(raw.header.event_type, CLAP_EVENT_PARAM_GESTURE_BEGIN);
    assert_eq!(read(raw), InputEvent::ParamGestureBegin(gesture));
    assert_eq!(
        read(OutputEvent::ParamGestureEnd(gesture).to_raw(&sizes())),
        InputEvent::ParamGestureEnd(gesture)
    );
}
