//! The events that a host and a plugin exchange.
//!
//! An event of the interface is a header and a body. How the body reads follows from the header
//! alone; the numbers of floating point that events carry are kept as bits.

use vstd::prelude::*;

use crate::clap_abi::{
    CLAP_CORE_EVENT_SPACE_ID,
    CLAP_EVENT_NOTE_ON,
    CLAP_EVENT_NOTE_OFF,
    CLAP_EVENT_NOTE_CHOKE,
    CLAP_EVENT_NOTE_END,
    CLAP_EVENT_NOTE_EXPRESSION,
    CLAP_EVENT_PARAM_VALUE,
    CLAP_EVENT_PARAM_MOD,
    CLAP_EVENT_PARAM_GESTURE_BEGIN,
    CLAP_EVENT_PARAM_GESTURE_END,
    CLAP_EVENT_TRANSPORT,
};

verus! {

/// What every event of the interface begins with.
#[derive(Debug, Clone, Copy, PartialEq, Eq, Structural)]
pub struct EventHeader {
    pub size: u32,
    pub time: u32,
    pub space_id: u16,
    pub event_type: u16,
    pub flags: u32,
}

/// A note. `velocity` holds the bits of a double.
#[derive(Debug, Clone, Copy, PartialEq, Eq, Structural)]
pub struct NoteEvent {
    pub time: u32,
    pub note_id: i32,
    pub port_index: i16,
    pub channel: i16,
    pub key: i16,
    pub velocity: u64,
}

/// An expression of a note. `value` holds the bits of a double.
#[derive(Debug, Clone, Copy, PartialEq, Eq, Structural)]
pub struct NoteExpressionEvent {
    pub time: u32,
    pub expression_id: i32,
    pub note_id: i32,
    pub port_index: i16,
    pub channel: i16,
    pub key: i16,
    pub value: u64,
}

/// A new value of a parameter. `value` holds the bits of a double.
#[derive(Debug, Clone, Copy, PartialEq, Eq, Structural)]
pub struct ParameterValueEvent {
    pub time: u32,
    pub parameter_id: u32,
    pub value: u64,
    pub note_id: i32,
    pub port_index: i16,
    pub channel: i16,
    pub key: i16,
}

/// A modulation of a parameter. `amount` holds the bits of a double.
#[derive(Debug, Clone, Copy, PartialEq, Eq, Structural)]
pub struct ParameterModEvent {
    pub time: u32,
    pub parameter_id: u32,
    pub amount: u64,
    pub note_id: i32,
    pub port_index: i16,
    pub channel: i16,
    pub key: i16,
}

/// The begin or the end of a gesture on a parameter.
#[derive(Debug, Clone, Copy, PartialEq, Eq, Structural)]
pub struct ParameterGestureEvent {
    pub time: u32,
    pub parameter_id: u32,
}

/// The state of the transport. `tempo` and `tempo_inc` hold the bits of doubles.
#[derive(Debug, Clone, Copy, PartialEq, Eq, Structural)]
pub struct TransportEvent {
    pub time: u32,
    pub flags: u32,
    pub tempo: u64,
    pub tempo_inc: u64,
    pub song_pos_beats: i64,
    pub song_pos_seconds: i64,
    pub loop_start_beats: i64,
    pub loop_end_beats: i64,
    pub loop_start_seconds: i64,
    pub loop_end_seconds: i64,
    pub bar_start: i64,
    pub bar_number: i32,
    pub tsig_num: u16,
    pub tsig_denom: u16,
}

/// An event that the adapter does not know.
#[derive(Debug, Clone, Copy, PartialEq, Eq, Structural)]
pub struct UnknownEvent {
    pub time: u32,
    pub space_id: u16,
    pub event_type: u16,
}

/// The body of an event, as its header says how it reads.
#[derive(Debug, Clone, Copy, PartialEq, Eq, Structural)]
#[allow(inconsistent_fields)]
pub enum EventBody {
    Note {
        note_id: i32,
        port_index: i16,
        channel: i16,
        key: i16,
        velocity: u64,
    },
    NoteExpression {
        expression_id: i32,
        note_id: i32,
        port_index: i16,
        channel: i16,
        key: i16,
        value: u64,
    },
    ParamValue {
        parameter_id: u32,
        value: u64,
        note_id: i32,
        port_index: i16,
        channel: i16,
        key: i16,
    },
    ParamMod {
        parameter_id: u32,
        amount: u64,
        note_id: i32,
        port_index: i16,
        channel: i16,
        key: i16,
    },
    ParamGesture {
        parameter_id: u32,
    },
    Transport {
        flags: u32,
        tempo: u64,
        tempo_inc: u64,
        song_pos_beats: i64,
        song_pos_seconds: i64,
        loop_start_beats: i64,
        loop_end_beats: i64,
        loop_start_seconds: i64,
        loop_end_seconds: i64,
        bar_start: i64,
        bar_number: i32,
        tsig_num: u16,
        tsig_denom: u16,
    },
    /// A body that the adapter does not read.
    Unread,
}

/// How the body of an event reads.
#[derive(Debug, Clone, Copy, PartialEq, Eq, Structural)]
pub enum EventLayout {
    Note,
    NoteExpression,
    ParamValue,
    ParamMod,
    ParamGesture,
    Transport,
    Unread,
}

/// How many bytes the events of the interface have, by layout.
#[derive(Debug, Clone, Copy, PartialEq, Eq, Structural)]
pub struct EventSizes {
    pub note: u32,
    pub note_expression: u32,
    pub param_value: u32,
    pub param_mod: u32,
    pub param_gesture: u32,
    pub transport: u32,
}

/// An event of the interface.
#[derive(Debug, Clone, Copy, PartialEq, Eq, Structural)]
pub struct RawEvent {
    pub header: EventHeader,
    pub body: EventBody,
}

/// An event that comes in.
#[derive(Debug, Clone, Copy, PartialEq, Eq, Structural)]
pub enum InputEvent {
    NoteOn(NoteEvent),
    NoteOff(NoteEvent),
    NoteChoke(NoteEvent),
    NoteEnd(NoteEvent),
    NoteExpression(NoteExpressionEvent),
    ParamValue(ParameterValueEvent),
    ParamMod(ParameterModEvent),
    ParamGestureBegin(ParameterGestureEvent),
    ParamGestureEnd(ParameterGestureEvent),
    Transport(TransportEvent),
    Unknown(UnknownEvent),
}

/// An event that goes out.
#[derive(Debug, Clone, Copy, PartialEq, Eq, Structural)]
pub enum OutputEvent {
    NoteOn(NoteEvent),
    NoteOff(NoteEvent),
    NoteChoke(NoteEvent),
    NoteEnd(NoteEvent),
    NoteExpression(NoteExpressionEvent),
    ParamValue(ParameterValueEvent),
    ParamMod(ParameterModEvent),
    ParamGestureBegin(ParameterGestureEvent),
    ParamGestureEnd(ParameterGestureEvent),
}

impl EventSizes {
    /// How many bytes an event of a layout has.
    pub open spec fn size_of_layout(self, layout: EventLayout) -> u32 {
        match layout {
            EventLayout::Note => self.note,
            EventLayout::NoteExpression => self.note_expression,
            EventLayout::ParamValue => self.param_value,
            EventLayout::ParamMod => self.param_mod,
            EventLayout::ParamGesture => self.param_gesture,
            EventLayout::Transport => self.transport,
            EventLayout::Unread => 0,
        }
    }

    /// How many bytes an event of a layout has.
    pub fn size(&self, layout: EventLayout) -> (size: u32)
        ensures
            size == self.size_of_layout(layout),
    {
        match layout {
            EventLayout::Note => self.note,
            EventLayout::NoteExpression => self.note_expression,
            EventLayout::ParamValue => self.param_value,
            EventLayout::ParamMod => self.param_mod,
            EventLayout::ParamGesture => self.param_gesture,
            EventLayout::Transport => self.transport,
            EventLayout::Unread => 0,
        }
    }
}

/// The layout that the events of a type have.
pub open spec fn type_layout(event_type: u16) -> EventLayout {
    if event_type == CLAP_EVENT_NOTE_ON || event_type == CLAP_EVENT_NOTE_OFF || event_type
        == CLAP_EVENT_NOTE_CHOKE || event_type == CLAP_EVENT_NOTE_END {
        EventLayout::Note
    } else if event_type == CLAP_EVENT_NOTE_EXPRESSION {
        EventLayout::NoteExpression
    } else if event_type == CLAP_EVENT_PARAM_VALUE {
        EventLayout::ParamValue
    } else if event_type == CLAP_EVENT_PARAM_MOD {
        EventLayout::ParamMod
    } else if event_type == CLAP_EVENT_PARAM_GESTURE_BEGIN || event_type
        == CLAP_EVENT_PARAM_GESTURE_END {
        EventLayout::ParamGesture
    } else if event_type == CLAP_EVENT_TRANSPORT {
        EventLayout::Transport
    } else {
        EventLayout::Unread
    }
}

/// How the body of an event reads: by its type, where the event belongs to the core events and
/// is as large as its layout.
pub open spec fn layout_of(header: EventHeader, sizes: EventSizes) -> EventLayout {
    let layout = type_layout(header.event_type);
    if header.space_id == CLAP_CORE_EVENT_SPACE_ID && header.size >= sizes.size_of_layout(layout) {
        layout
    } else {
        EventLayout::Unread
    }
}

/// How the body of an event reads.
pub fn event_layout(header: &EventHeader, sizes: &EventSizes) -> (layout: EventLayout)
    ensures
        layout == layout_of(*header, *sizes),
{
    if header.space_id != CLAP_CORE_EVENT_SPACE_ID {
        return EventLayout::Unread;
    }
    let t: u16 = header.event_type;
    let layout = if t == CLAP_EVENT_NOTE_ON || t == CLAP_EVENT_NOTE_OFF || t
        == CLAP_EVENT_NOTE_CHOKE || t == CLAP_EVENT_NOTE_END {
        EventLayout::Note
    } else if t == CLAP_EVENT_NOTE_EXPRESSION {
        EventLayout::NoteExpression
    } else if t == CLAP_EVENT_PARAM_VALUE {
        EventLayout::ParamValue
    } else if t == CLAP_EVENT_PARAM_MOD {
        EventLayout::ParamMod
    } else if t == CLAP_EVENT_PARAM_GESTURE_BEGIN || t == CLAP_EVENT_PARAM_GESTURE_END {
        EventLayout::ParamGesture
    } else if t == CLAP_EVENT_TRANSPORT {
        EventLayout::Transport
    } else {
        EventLayout::Unread
    };
    if header.size >= sizes.size(layout) {
        layout
    } else {
        EventLayout::Unread
    }
}

impl EventBody {
    /// How the body was read.
    pub open spec fn layout(self) -> EventLayout {
        match self {
            EventBody::Note { .. } => EventLayout::Note,
            EventBody::NoteExpression { .. } => EventLayout::NoteExpression,
            EventBody::ParamValue { .. } => EventLayout::ParamValue,
            EventBody::ParamMod { .. } => EventLayout::ParamMod,
            EventBody::ParamGesture { .. } => EventLayout::ParamGesture,
            EventBody::Transport { .. } => EventLayout::Transport,
            EventBody::Unread => EventLayout::Unread,
        }
    }
}

/// The event that a header and a body make.
pub open spec fn decoded(raw: RawEvent) -> InputEvent {
    let time = raw.header.time;
    let t = raw.header.event_type;
    match raw.body {
        EventBody::Note { note_id, port_index, channel, key, velocity } => {
            let event = NoteEvent { time, note_id, port_index, channel, key, velocity };
            if t == CLAP_EVENT_NOTE_ON {
                InputEvent::NoteOn(event)
            } else if t == CLAP_EVENT_NOTE_OFF {
                InputEvent::NoteOff(event)
            } else if t == CLAP_EVENT_NOTE_CHOKE {
                InputEvent::NoteChoke(event)
            } else {
                InputEvent::NoteEnd(event)
            }
        },
        EventBody::NoteExpression { expression_id, note_id, port_index, channel, key, value } => {
            InputEvent::NoteExpression(
                NoteExpressionEvent { time, expression_id, note_id, port_index, channel, key, value },
            )
        },
        EventBody::ParamValue { parameter_id, value, note_id, port_index, channel, key } => {
            InputEvent::ParamValue(
                ParameterValueEvent { time, parameter_id, value, note_id, port_index, channel, key },
            )
        },
        EventBody::ParamMod { parameter_id, amount, note_id, port_index, channel, key } => {
            InputEvent::ParamMod(
                ParameterModEvent { time, parameter_id, amount, note_id, port_index, channel, key },
            )
        },
        EventBody::ParamGesture { parameter_id } => {
            let event = ParameterGestureEvent { time, parameter_id };
            if t == CLAP_EVENT_PARAM_GESTURE_BEGIN {
                InputEvent::ParamGestureBegin(event)
            } else {
                InputEvent::ParamGestureEnd(event)
            }
        },
        EventBody::Transport { flags, tempo, tempo_inc, song_pos_beats, song_pos_seconds, loop_start_beats, loop_end_beats, loop_start_seconds, loop_end_seconds, bar_start, bar_number, tsig_num, tsig_denom } => {
            InputEvent::Transport(
                TransportEvent { time, flags, tempo, tempo_inc, song_pos_beats, song_pos_seconds, loop_start_beats, loop_end_beats, loop_start_seconds, loop_end_seconds, bar_start, bar_number, tsig_num, tsig_denom },
            )
        },
        EventBody::Unread => InputEvent::Unknown(
            UnknownEvent { time, space_id: raw.header.space_id, event_type: t },
        ),
    }
}

impl InputEvent {
    /// The event that a header and a body make. The body was read as the header says.
    pub fn from_header(raw: &RawEvent, sizes: &EventSizes) -> (event: Self)
        requires
            raw.body.layout() == layout_of(raw.header, *sizes),
        ensures
            event == decoded(*raw),
    {
        let time: u32 = raw.header.time;
        let t: u16 = raw.header.event_type;
        match raw.body {
            EventBody::Note { note_id, port_index, channel, key, velocity } => {
                let event = NoteEvent { time, note_id, port_index, channel, key, velocity };
                if t == CLAP_EVENT_NOTE_ON {
                    InputEvent::NoteOn(event)
                } else if t == CLAP_EVENT_NOTE_OFF {
                    InputEvent::NoteOff(event)
                } else if t == CLAP_EVENT_NOTE_CHOKE {
                    InputEvent::NoteChoke(event)
                } else {
                    InputEvent::NoteEnd(event)
                }
            },
            EventBody::NoteExpression { expression_id, note_id, port_index, channel, key, value } => {
                InputEvent::NoteExpression(
                    NoteExpressionEvent { time, expression_id, note_id, port_index, channel, key, value },
                )
            },
            EventBody::ParamValue { parameter_id, value, note_id, port_index, channel, key } => {
                InputEvent::ParamValue(
                    ParameterValueEvent { time, parameter_id, value, note_id, port_index, channel, key },
                )
            },
            EventBody::ParamMod { parameter_id, amount, note_id, port_index, channel, key } => {
                InputEvent::ParamMod(
                    ParameterModEvent { time, parameter_id, amount, note_id, port_index, channel, key },
                )
            },
            EventBody::ParamGesture { parameter_id } => {
                let event = ParameterGestureEvent { time, parameter_id };
                if t == CLAP_EVENT_PARAM_GESTURE_BEGIN {
                    InputEvent::ParamGestureBegin(event)
                } else {
                    InputEvent::ParamGestureEnd(event)
                }
            },
            EventBody::Transport { flags, tempo, tempo_inc, song_pos_beats, song_pos_seconds, loop_start_beats, loop_end_beats, loop_start_seconds, loop_end_seconds, bar_start, bar_number, tsig_num, tsig_denom } => {
                InputEvent::Transport(
                    TransportEvent { time, flags, tempo, tempo_inc, song_pos_beats, song_pos_seconds, loop_start_beats, loop_end_beats, loop_start_seconds, loop_end_seconds, bar_start, bar_number, tsig_num, tsig_denom },
                )
            },
            EventBody::Unread => InputEvent::Unknown(
                UnknownEvent { time, space_id: raw.header.space_id, event_type: t },
            ),
        }
    }

    /// When the event happens, in frames from the start of the block.
    pub open spec fn at(self) -> u32 {
        match self {
            InputEvent::NoteOn(event) => event.time,
            InputEvent::NoteOff(event) => event.time,
            InputEvent::NoteChoke(event) => event.time,
            InputEvent::NoteEnd(event) => event.time,
            InputEvent::NoteExpression(event) => event.time,
            InputEvent::ParamValue(event) => event.time,
            InputEvent::ParamMod(event) => event.time,
            InputEvent::ParamGestureBegin(event) => event.time,
            InputEvent::ParamGestureEnd(event) => event.time,
            InputEvent::Transport(event) => event.time,
            InputEvent::Unknown(event) => event.time,
        }
    }

    /// When the event happens, in frames from the start of the block.
    pub fn time(&self) -> (time: u32)
        ensures
            time == self.at(),
    {
        match self {
            InputEvent::NoteOn(event) => event.time,
            InputEvent::NoteOff(event) => event.time,
            InputEvent::NoteChoke(event) => event.time,
            InputEvent::NoteEnd(event) => event.time,
            InputEvent::NoteExpression(event) => event.time,
            InputEvent::ParamValue(event) => event.time,
            InputEvent::ParamMod(event) => event.time,
            InputEvent::ParamGestureBegin(event) => event.time,
            InputEvent::ParamGestureEnd(event) => event.time,
            InputEvent::Transport(event) => event.time,
            InputEvent::Unknown(event) => event.time,
        }
    }
}

/// The header of an event that goes out.
pub open spec fn core_header(time: u32, event_type: u16, size: u32) -> EventHeader {
    EventHeader { size, time, space_id: CLAP_CORE_EVENT_SPACE_ID, event_type, flags: 0 }
}

/// The header and the body that an event goes out as.
pub open spec fn encoded(event: OutputEvent, sizes: EventSizes) -> RawEvent {
    match event {
        OutputEvent::NoteOn(event) => RawEvent {
            header: core_header(event.time, CLAP_EVENT_NOTE_ON, sizes.note),
            body: EventBody::Note {
                note_id: event.note_id,
                port_index: event.port_index,
                channel: event.channel,
                key: event.key,
                velocity: event.velocity,
            },
        },
        OutputEvent::NoteOff(event) => RawEvent {
            header: core_header(event.time, CLAP_EVENT_NOTE_OFF, sizes.note),
            body: EventBody::Note {
                note_id: event.note_id,
                port_index: event.port_index,
                channel: event.channel,
                key: event.key,
                velocity: event.velocity,
            },
        },
        OutputEvent::NoteChoke(event) => RawEvent {
            header: core_header(event.time, CLAP_EVENT_NOTE_CHOKE, sizes.note),
            body: EventBody::Note {
                note_id: event.note_id,
                port_index: event.port_index,
                channel: event.channel,
                key: event.key,
                velocity: event.velocity,
            },
        },
        OutputEvent::NoteEnd(event) => RawEvent {
            header: core_header(event.time, CLAP_EVENT_NOTE_END, sizes.note),
            body: EventBody::Note {
                note_id: event.note_id,
                port_index: event.port_index,
                channel: event.channel,
                key: event.key,
                velocity: event.velocity,
            },
        },
        OutputEvent::NoteExpression(event) => RawEvent {
            header: core_header(event.time, CLAP_EVENT_NOTE_EXPRESSION, sizes.note_expression),
            body: EventBody::NoteExpression {
                expression_id: event.expression_id,
                note_id: event.note_id,
                port_index: event.port_index,
                channel: event.channel,
                key: event.key,
                value: event.value,
            },
        },
        OutputEvent::ParamValue(event) => RawEvent {
            header: core_header(event.time, CLAP_EVENT_PARAM_VALUE, sizes.param_value),
            body: EventBody::ParamValue {
                parameter_id: event.parameter_id,
                value: event.value,
                note_id: event.note_id,
                port_index: event.port_index,
                channel: event.channel,
                key: event.key,
            },
        },
        OutputEvent::ParamMod(event) => RawEvent {
            header: core_header(event.time, CLAP_EVENT_PARAM_MOD, sizes.param_mod),
            body: EventBody::ParamMod {
                parameter_id: event.parameter_id,
                amount: event.amount,
                note_id: event.note_id,
                port_index: event.port_index,
                channel: event.channel,
                key: event.key,
            },
        },
        OutputEvent::ParamGestureBegin(event) => RawEvent {
            header: core_header(event.time, CLAP_EVENT_PARAM_GESTURE_BEGIN, sizes.param_gesture),
            body: EventBody::ParamGesture {
                parameter_id: event.parameter_id,
            },
        },
        OutputEvent::ParamGestureEnd(event) => RawEvent {
            header: core_header(event.time, CLAP_EVENT_PARAM_GESTURE_END, sizes.param_gesture),
            body: EventBody::ParamGesture {
                parameter_id: event.parameter_id,
            },
        },
    }
}

fn event_header(time: u32, event_type: u16, size: u32) -> (header: EventHeader)
    ensures
        header == core_header(time, event_type, size),
{
    EventHeader { size, time, space_id: CLAP_CORE_EVENT_SPACE_ID, event_type, flags: 0 }
}

impl OutputEvent {
    /// The header and the body that the event goes out as.
    pub fn to_raw(self, sizes: &EventSizes) -> (raw: RawEvent)
        ensures
            raw == encoded(self, *sizes),
    {
        match self {
            OutputEvent::NoteOn(event) => RawEvent {
                header: event_header(event.time, CLAP_EVENT_NOTE_ON, sizes.note),
                body: EventBody::Note {
                    note_id: event.note_id,
                    port_index: event.port_index,
                    channel: event.channel,
                    key: event.key,
                    velocity: event.velocity,
                },
            },
            OutputEvent::NoteOff(event) => RawEvent {
                header: event_header(event.time, CLAP_EVENT_NOTE_OFF, sizes.note),
                body: EventBody::Note {
                    note_id: event.note_id,
                    port_index: event.port_index,
                    channel: event.channel,
                    key: event.key,
                    velocity: event.velocity,
                },
            },
            OutputEvent::NoteChoke(event) => RawEvent {
                header: event_header(event.time, CLAP_EVENT_NOTE_CHOKE, sizes.note),
                body: EventBody::Note {
                    note_id: event.note_id,
                    port_index: event.port_index,
                    channel: event.channel,
                    key: event.key,
                    velocity: event.velocity,
                },
            },
            OutputEvent::NoteEnd(event) => RawEvent {
                header: event_header(event.time, CLAP_EVENT_NOTE_END, sizes.note),
                body: EventBody::Note {
                    note_id: event.note_id,
                    port_index: event.port_index,
                    channel: event.channel,
                    key: event.key,
                    velocity: event.velocity,
                },
            },
            OutputEvent::NoteExpression(event) => RawEvent {
                header: event_header(event.time, CLAP_EVENT_NOTE_EXPRESSION, sizes.note_expression),
                body: EventBody::NoteExpression {
                    expression_id: event.expression_id,
                    note_id: event.note_id,
                    port_index: event.port_index,
                    channel: event.channel,
                    key: event.key,
                    value: event.value,
                },
            },
            OutputEvent::ParamValue(event) => RawEvent {
                header: event_header(event.time, CLAP_EVENT_PARAM_VALUE, sizes.param_value),
                body: EventBody::ParamValue {
                    parameter_id: event.parameter_id,
                    value: event.value,
                    note_id: event.note_id,
                    port_index: event.port_index,
                    channel: event.channel,
                    key: event.key,
                },
            },
            OutputEvent::ParamMod(event) => RawEvent {
                header: event_header(event.time, CLAP_EVENT_PARAM_MOD, sizes.param_mod),
                body: EventBody::ParamMod {
                    parameter_id: event.parameter_id,
                    amount: event.amount,
                    note_id: event.note_id,
                    port_index: event.port_index,
                    channel: event.channel,
                    key: event.key,
                },
            },
            OutputEvent::ParamGestureBegin(event) => RawEvent {
                header: event_header(event.time, CLAP_EVENT_PARAM_GESTURE_BEGIN, sizes.param_gesture),
                body: EventBody::ParamGesture {
                    parameter_id: event.parameter_id,
                },
            },
            OutputEvent::ParamGestureEnd(event) => RawEvent {
                header: event_header(event.time, CLAP_EVENT_PARAM_GESTURE_END, sizes.param_gesture),
                body: EventBody::ParamGesture {
                    parameter_id: event.parameter_id,
                },
            },
        }
    }

    /// The same event, coming in.
    pub open spec fn as_input(self) -> InputEvent {
        match self {
            OutputEvent::NoteOn(event) => InputEvent::NoteOn(event),
            OutputEvent::NoteOff(event) => InputEvent::NoteOff(event),
            OutputEvent::NoteChoke(event) => InputEvent::NoteChoke(event),
            OutputEvent::NoteEnd(event) => InputEvent::NoteEnd(event),
            OutputEvent::NoteExpression(event) => InputEvent::NoteExpression(event),
            OutputEvent::ParamValue(event) => InputEvent::ParamValue(event),
            OutputEvent::ParamMod(event) => InputEvent::ParamMod(event),
            OutputEvent::ParamGestureBegin(event) => InputEvent::ParamGestureBegin(event),
            OutputEvent::ParamGestureEnd(event) => InputEvent::ParamGestureEnd(event),
        }
    }
}

/// An event that goes out is read as itself where it comes in: its body has the layout that its
/// header announces, and the two make the same event.
pub proof fn events_survive_the_interface(event: OutputEvent, sizes: EventSizes)
    ensures
        ({
            let raw = encoded(event, sizes);
            &&& raw.body.layout() == layout_of(raw.header, sizes)
            &&& decoded(raw) == event.as_input()
        }),
{
}

/// An event that is smaller than its type asks for, or that is no core event, is unknown: its
/// body is never read.
pub proof fn short_and_foreign_events_are_unknown(raw: RawEvent, sizes: EventSizes)
    requires
        raw.body.layout() == layout_of(raw.header, sizes),
        raw.header.space_id != CLAP_CORE_EVENT_SPACE_ID || raw.header.size < sizes.size_of_layout(
            type_layout(raw.header.event_type),
        ),
    ensures
        decoded(raw) is Unknown,
{
}

/// A transport that comes in carries each field of its body under the same name, at the time of
/// its header.
pub proof fn a_transport_keeps_its_fields(raw: RawEvent)
    ensures
        raw.body matches EventBody::Transport {
            flags,
            tempo,
            tempo_inc,
            song_pos_beats,
            song_pos_seconds,
            loop_start_beats,
            loop_end_beats,
            loop_start_seconds,
            loop_end_seconds,
            bar_start,
            bar_number,
            tsig_num,
            tsig_denom,
        } ==> {
            &&& decoded(raw) matches InputEvent::Transport(event)
            &&& event.time == raw.header.time
            &&& event.flags == flags
            &&& event.tempo == tempo
            &&& event.tempo_inc == tempo_inc
            &&& event.song_pos_beats == song_pos_beats
            &&& event.song_pos_seconds == song_pos_seconds
            &&& event.loop_start_beats == loop_start_beats
            &&& event.loop_end_beats == loop_end_beats
            &&& event.loop_start_seconds == loop_start_seconds
            &&& event.loop_end_seconds == loop_end_seconds
            &&& event.bar_start == bar_start
            &&& event.bar_number == bar_number
            &&& event.tsig_num == tsig_num
            &&& event.tsig_denom == tsig_denom
        },
{
}

/// The note that an event is about, where it is about one that begins or ends.
pub open spec fn note_in(event: InputEvent) -> Option<NoteEvent> {
    match event {
        InputEvent::NoteOn(note) => Some(note),
        InputEvent::NoteOff(note) => Some(note),
        InputEvent::NoteChoke(note) => Some(note),
        InputEvent::NoteEnd(note) => Some(note),
        _ => None,
    }
}

/// A note that comes in carries each field of its body under the same name, at the time of its
/// header, and does what the type of its header says.
pub proof fn a_note_keeps_its_fields(raw: RawEvent)
    ensures
        raw.body matches EventBody::Note { note_id, port_index, channel, key, velocity } ==> {
            &&& note_in(decoded(raw)) matches Some(note)
            &&& note.time == raw.header.time
            &&& note.note_id == note_id
            &&& note.port_index == port_index
            &&& note.channel == channel
            &&& note.key == key
            &&& note.velocity == velocity
            &&& raw.header.event_type == CLAP_EVENT_NOTE_ON ==> decoded(raw) is NoteOn
            &&& raw.header.event_type == CLAP_EVENT_NOTE_OFF ==> decoded(raw) is NoteOff
            &&& raw.header.event_type == CLAP_EVENT_NOTE_CHOKE ==> decoded(raw) is NoteChoke
            &&& raw.header.event_type == CLAP_EVENT_NOTE_END ==> decoded(raw) is NoteEnd
        },
        raw.body matches EventBody::NoteExpression {
            expression_id,
            note_id,
            port_index,
            channel,
            key,
            value,
        } ==> {
            &&& decoded(raw) matches InputEvent::NoteExpression(event)
            &&& event.time == raw.header.time
            &&& event.expression_id == expression_id
            &&& event.note_id == note_id
            &&& event.port_index == port_index
            &&& event.channel == channel
            &&& event.key == key
            &&& event.value == value
        },
{
}

/// A parameter event that comes in carries each field of its body under the same name, at the
/// time of its header, and begins or ends a gesture as the type of its header says.
pub proof fn a_parameter_event_keeps_its_fields(raw: RawEvent)
    ensures
        raw.body matches EventBody::ParamValue {
            parameter_id,
            value,
            note_id,
            port_index,
            channel,
            key,
        } ==> {
            &&& decoded(raw) matches InputEvent::ParamValue(event)
            &&& event.time == raw.header.time
            &&& event.parameter_id == parameter_id
            &&& event.value == value
            &&& event.note_id == note_id
            &&& event.port_index == port_index
            &&& event.channel == channel
            &&& event.key == key
        },
        raw.body matches EventBody::ParamMod {
            parameter_id,
            amount,
            note_id,
            port_index,
            channel,
            key,
        } ==> {
            &&& decoded(raw) matches InputEvent::ParamMod(event)
            &&& event.time == raw.header.time
            &&& event.parameter_id == parameter_id
            &&& event.amount == amount
            &&& event.note_id == note_id
            &&& event.port_index == port_index
            &&& event.channel == channel
            &&& event.key == key
        },
        raw.body matches EventBody::ParamGesture { parameter_id } ==> {
            &&& raw.header.event_type == CLAP_EVENT_PARAM_GESTURE_BEGIN ==> (decoded(
                raw,
            ) matches InputEvent::ParamGestureBegin(event) && event.time == raw.header.time
                && event.parameter_id == parameter_id)
            &&& raw.header.event_type == CLAP_EVENT_PARAM_GESTURE_END ==> (decoded(
                raw,
            ) matches InputEvent::ParamGestureEnd(event) && event.time == raw.header.time
                && event.parameter_id == parameter_id)
        },
        raw.body is Unread ==> {
            &&& decoded(raw) matches InputEvent::Unknown(event)
            &&& event.time == raw.header.time
            &&& event.space_id == raw.header.space_id
            &&& event.event_type == raw.header.event_type
        },
{
}

/// Whatever comes in happens when its header says, and whatever goes out says when it happens.
pub proof fn events_keep_their_time(raw: RawEvent, event: OutputEvent, sizes: EventSizes)
    ensures
        decoded(raw).at() == raw.header.time,
        encoded(event, sizes).header.time == event.as_input().at(),
{
}

/// A core event that is as large as its type asks for is read in the layout of its type, and in
/// no other.
pub proof fn types_tell_layouts_apart(header: EventHeader, sizes: EventSizes)
    requires
        header.space_id == CLAP_CORE_EVENT_SPACE_ID,
    ensures
        header.event_type == CLAP_EVENT_NOTE_ON || header.event_type == CLAP_EVENT_NOTE_OFF
            || header.event_type == CLAP_EVENT_NOTE_CHOKE || header.event_type
            == CLAP_EVENT_NOTE_END ==> (layout_of(header, sizes) == EventLayout::Note
            <==> header.size >= sizes.note),
        header.event_type == CLAP_EVENT_NOTE_EXPRESSION ==> (layout_of(header, sizes)
            == EventLayout::NoteExpression <==> header.size >= sizes.note_expression),
        header.event_type == CLAP_EVENT_PARAM_VALUE ==> (layout_of(header, sizes)
            == EventLayout::ParamValue <==> header.size >= sizes.param_value),
        header.event_type == CLAP_EVENT_PARAM_MOD ==> (layout_of(header, sizes)
            == EventLayout::ParamMod <==> header.size >= sizes.param_mod),
        header.event_type == CLAP_EVENT_PARAM_GESTURE_BEGIN || header.event_type
            == CLAP_EVENT_PARAM_GESTURE_END ==> (layout_of(header, sizes)
            == EventLayout::ParamGesture <==> header.size >= sizes.param_gesture),
        header.event_type == CLAP_EVENT_TRANSPORT ==> (layout_of(header, sizes)
            == EventLayout::Transport <==> header.size >= sizes.transport),
        ({
            let known = header.event_type == CLAP_EVENT_NOTE_ON || header.event_type
                == CLAP_EVENT_NOTE_OFF || header.event_type == CLAP_EVENT_NOTE_CHOKE
                || header.event_type == CLAP_EVENT_NOTE_END || header.event_type
                == CLAP_EVENT_NOTE_EXPRESSION || header.event_type == CLAP_EVENT_PARAM_VALUE
                || header.event_type == CLAP_EVENT_PARAM_MOD || header.event_type
                == CLAP_EVENT_PARAM_GESTURE_BEGIN || header.event_type
                == CLAP_EVENT_PARAM_GESTURE_END || header.event_type == CLAP_EVENT_TRANSPORT;
            !known ==> layout_of(header, sizes) == EventLayout::Unread
        }),
{
}

/// An event that goes out is a core event without flags, exactly as large as its layout.
pub proof fn outgoing_events_fill_their_layout(event: OutputEvent, sizes: EventSizes)
    ensures
        ({
            let header = encoded(event, sizes).header;
            &&& header.space_id == CLAP_CORE_EVENT_SPACE_ID
            &&& header.flags == 0
            &&& event is NoteOn || event is NoteOff || event is NoteChoke || event is NoteEnd
                ==> header.size == sizes.note
            &&& event is NoteExpression ==> header.size == sizes.note_expression
            &&& event is ParamValue ==> header.size == sizes.param_value
            &&& event is ParamMod ==> header.size == sizes.param_mod
            &&& event is ParamGestureBegin || event is ParamGestureEnd ==> header.size
                == sizes.param_gesture
        }),
{
}

/// The events of two lists, one behind the other, are those of both; a slot without an event adds
/// none, and a slot with one adds that one.
pub proof fn slots_give_their_events_in_order(
    first: Seq<Option<InputEvent>>,
    second: Seq<Option<InputEvent>>,
    event: InputEvent,
)
    ensures
        events_from(first + second, 0) == events_from(first, 0) + events_from(second, 0),
        events_from(seq![None::<InputEvent>], 0) == Seq::<InputEvent>::empty(),
        events_from(seq![Some(event)], 0) == seq![event],
{
    lemma_slots(first, second, 0);
    reveal_with_fuel(events_from, 2);
    assert(events_from(seq![Some(event)], 0) =~= seq![event]);
}

proof fn lemma_slots(
    first: Seq<Option<InputEvent>>,
    second: Seq<Option<InputEvent>>,
    i: int,
)
    requires
        0 <= i <= first.len(),
    ensures
        events_from(first + second, i) == events_from(first, i) + events_from(second, 0),
    decreases first.len() - i,
{
    let all = first + second;
    if i == first.len() {
        lemma_slots_behind(first, second, 0);
        assert(events_from(first, i) + events_from(second, 0) =~= events_from(second, 0));
    } else {
        lemma_slots(first, second, i + 1);
        assert(all[i] == first[i]);
        assert(events_from(all, i) =~= events_from(first, i) + events_from(second, 0));
    }
}

proof fn lemma_slots_behind(
    first: Seq<Option<InputEvent>>,
    second: Seq<Option<InputEvent>>,
    i: int,
)
    requires
        0 <= i <= second.len(),
    ensures
        events_from(first + second, first.len() + i) == events_from(second, i),
    decreases second.len() - i,
{
    if i < second.len() {
        assert((first + second)[first.len() + i] == second[i]);
        lemma_slots_behind(first, second, i + 1);
    }
}

/// The values among two lists of events, one behind the other, are those of both; a value is
/// among itself, and no other event adds one.
pub proof fn values_are_found_in_order(
    first: Seq<InputEvent>,
    second: Seq<InputEvent>,
    value: ParameterValueEvent,
    other: InputEvent,
)
    ensures
        values_among(first + second) == values_among(first) + values_among(second),
        values_among(seq![InputEvent::ParamValue(value)]) == seq![value],
        !(other is ParamValue) ==> values_among(seq![other]) == Seq::<
            ParameterValueEvent,
        >::empty(),
    decreases second.len(),
{
    reveal_with_fuel(values_among, 2);
    assert(seq![other].drop_last() =~= Seq::<InputEvent>::empty());
    assert(seq![InputEvent::ParamValue(value)].drop_last() =~= Seq::<InputEvent>::empty());
    assert(values_among(seq![InputEvent::ParamValue(value)]) =~= seq![value]);
    if second.len() == 0 {
        assert(first + second =~= first);
        assert(values_among(first) + values_among(second) =~= values_among(first));
    } else {
        values_are_found_in_order(first, second.drop_last(), value, other);
        assert((first + second).drop_last() =~= first + second.drop_last());
        assert((first + second).last() == second.last());
        assert(values_among(first + second) =~= values_among(first) + values_among(second));
    }
}

// Lists of events

/// The events that come in with a block. A slot that the host left empty is `None`.
#[derive(Debug, Clone, Copy)]
pub struct InputEvents<'a> {
    pub events: &'a [Option<InputEvent>],
}

/// The events of the slots from `i` on that are not empty.
pub open spec fn events_from(slots: Seq<Option<InputEvent>>, i: int) -> Seq<InputEvent>
    decreases slots.len() - i,
{
    if i < 0 || i >= slots.len() {
        Seq::empty()
    } else {
        match slots[i] {
            Some(event) => seq![event] + events_from(slots, i + 1),
            None => events_from(slots, i + 1),
        }
    }
}

/// The values of parameters among events.
pub open spec fn values_among(events: Seq<InputEvent>) -> Seq<ParameterValueEvent>
    decreases events.len(),
{
    if events.len() == 0 {
        Seq::empty()
    } else {
        let before = values_among(events.drop_last());
        match events.last() {
            InputEvent::ParamValue(event) => before.push(event),
            _ => before,
        }
    }
}

impl<'a> InputEvents<'a> {
    /// How many slots there are.
    pub fn len(&self) -> (count: usize)
        ensures
            count == self.events@.len(),
    {
        self.events.len()
    }

    /// Whether there is no slot.
    pub fn is_empty(&self) -> (empty: bool)
        ensures
            empty == (self.events@.len() == 0),
    {
        self.events.len() == 0
    }

    /// The event in a slot, where there is one.
    pub fn get(&self, index: usize) -> (event: Option<InputEvent>)
        ensures
            event == if index < self.events@.len() {
                self.events@[index as int]
            } else {
                None
            },
    {
        if index < self.events.len() {
            self.events[index]
        } else {
            None
        }
    }

    /// The events one after the other.
    pub fn iter(&self) -> (iter: InputEventsIter<'a>)
        ensures
            iter.remaining() == events_from(self.events@, 0),
    {
        InputEventsIter { events: *self, index: 0 }
    }

    /// The new values of parameters, in order.
    pub fn parameter_values(&self) -> (values: Vec<ParameterValueEvent>)
        ensures
            values@ == values_among(events_from(self.events@, 0)),
    {
        let mut values: Vec<ParameterValueEvent> = Vec::new();
        let ghost all = events_from(self.events@, 0);
        let ghost mut seen: Seq<InputEvent> = Seq::empty();
        let mut i: usize = 0;
        assert(seen + events_from(self.events@, 0) =~= all);
        while i < self.events.len()
            invariant
                i <= self.events@.len(),
                all == seen + events_from(self.events@, i as int),
                values@ == values_among(seen),
            decreases self.events@.len() - i,
        {
            if let Some(event) = self.events[i] {
                proof {
                    assert(seen + (seq![event] + events_from(self.events@, i + 1)) =~= seen.push(
                        event,
                    ) + events_from(self.events@, i + 1));
                    assert(seen.push(event).drop_last() =~= seen);
                    seen = seen.push(event);
                }
                if let InputEvent::ParamValue(value) = event {
                    values.push(value);
                }
            }
            i += 1;
        }
        assert(seen + Seq::<InputEvent>::empty() =~= seen);
        values
    }
}

/// The events of a block, one after the other.
#[derive(Debug, Clone, Copy)]
pub struct InputEventsIter<'a> {
    events: InputEvents<'a>,
    index: usize,
}

impl<'a> InputEventsIter<'a> {
    /// The events that are left.
    pub closed spec fn remaining(self) -> Seq<InputEvent> {
        events_from(self.events.events@, self.index as int)
    }

    /// The next event. Empty slots are passed over.
    pub fn next(&mut self) -> (event: Option<InputEvent>)
        ensures
            match event {
                Some(event) => old(self).remaining() == seq![event] + final(self).remaining(),
                None => {
                    &&& old(self).remaining() == Seq::<InputEvent>::empty()
                    &&& final(self).remaining() == Seq::<InputEvent>::empty()
                },
            },
    {
        while self.index < self.events.events.len()
            invariant
                self.remaining() == old(self).remaining(),
            decreases self.events.events@.len() - self.index,
        {
            let event = self.events.events[self.index];
            self.index = self.index + 1;
            if event.is_some() {
                return event;
            }
        }
        None
    }
}

/// Events are read, timed and written as the laws above say.
pub proof fn events_are_read_and_written(
    raw: RawEvent,
    sizes: EventSizes,
    layout: EventLayout,
    event: InputEvent,
    time: u32,
    outgoing: OutputEvent,
    written: RawEvent,
)
    requires
        raw.body.layout() == layout_of(raw.header, sizes),
        call_ensures(event_layout, (&raw.header, &sizes), layout),
        call_ensures(InputEvent::from_header, (&raw, &sizes), event),
        call_ensures(InputEvent::time, (&event,), time),
        call_ensures(OutputEvent::to_raw, (outgoing, &sizes), written),
    ensures
        layout == raw.body.layout(),
        event == decoded(raw),
        time == raw.header.time,
        written == encoded(outgoing, sizes),
        decoded(written) == outgoing.as_input(),
        raw.body matches EventBody::Transport { tempo, song_pos_beats, song_pos_seconds, .. } ==> {
            &&& event matches InputEvent::Transport(transport)
            &&& transport.tempo == tempo
            &&& transport.song_pos_beats == song_pos_beats
            &&& transport.song_pos_seconds == song_pos_seconds
        },
{
    events_survive_the_interface(outgoing, sizes);
    events_keep_their_time(raw, outgoing, sizes);
}

/// A list has as many slots as the host passed and gives the event of each; the values among its
/// events come in their order.
pub proof fn lists_give_the_events_of_their_slots(
    list: InputEvents<'_>,
    count: usize,
    empty: bool,
    index: usize,
    event: Option<InputEvent>,
    values: Vec<ParameterValueEvent>,
)
    requires
        call_ensures(InputEvents::len, (&list,), count),
        call_ensures(InputEvents::is_empty, (&list,), empty),
        call_ensures(InputEvents::get, (&list, index), event),
        call_ensures(InputEvents::parameter_values, (&list,), values),
    ensures
        count == list.events@.len(),
        empty <==> count == 0,
        index < count ==> event == list.events@[index as int],
        index >= count ==> event is None,
        values@ == values_among(events_from(list.events@, 0)),
{
}

} // verus!
