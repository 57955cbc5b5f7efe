//! What the host is told of audio and note ports, and what it may ask of them.

use vstd::prelude::*;

use crate::clap_abi::{
    CLAP_AUDIO_PORT_IS_MAIN,
    CLAP_AUDIO_PORT_PREFERS_64BITS,
    CLAP_AUDIO_PORT_REQUIRES_COMMON_SAMPLE_SIZE,
    CLAP_AUDIO_PORT_SUPPORTS_64BITS,
    CLAP_PORT_MONO,
    CLAP_PORT_STEREO,
};
use crate::text;
use crate::wrac_clap_adapter::api::{
    AudioPortConfigurationRequest,
    AudioPortFlags,
    AudioPortInfo,
    AudioPortType,
    NotePortInfo,
};
use crate::wrac_clap_adapter::ffi::{fill_c_char_array, fixed_field, TextArgument};
use crate::wrac_clap_adapter::process_buffer::AudioBufferError;

verus! {

/// How many bytes the name of a port takes.
pub const CLAP_NAME_SIZE: usize = 256;

/// The port that stands for no port.
pub const CLAP_INVALID_ID: u32 = u32::MAX;

/// `flag` where `set` holds, no flag otherwise.
pub open spec fn flag_when(set: bool, flag: u32) -> int {
    if set {
        flag as int
    } else {
        0
    }
}

/// The number by which the host knows what an audio port supports.
pub open spec fn audio_flags_value(flags: AudioPortFlags) -> int {
    flag_when(flags.is_main, CLAP_AUDIO_PORT_IS_MAIN) + flag_when(
        flags.supports_64bits,
        CLAP_AUDIO_PORT_SUPPORTS_64BITS,
    ) + flag_when(flags.prefers_64bits, CLAP_AUDIO_PORT_PREFERS_64BITS) + flag_when(
        flags.requires_common_sample_size,
        CLAP_AUDIO_PORT_REQUIRES_COMMON_SAMPLE_SIZE,
    )
}

/// The number by which the host knows what an audio port supports.
pub fn audio_port_flags(flags: AudioPortFlags) -> (raw: u32)
    ensures
        raw == audio_flags_value(flags),
{
    let mut raw: u32 = 0;
    if flags.is_main {
        raw += CLAP_AUDIO_PORT_IS_MAIN;
    }
    if flags.supports_64bits {
        raw += CLAP_AUDIO_PORT_SUPPORTS_64BITS;
    }
    if flags.prefers_64bits {
        raw += CLAP_AUDIO_PORT_PREFERS_64BITS;
    }
    if flags.requires_common_sample_size {
        raw += CLAP_AUDIO_PORT_REQUIRES_COMMON_SAMPLE_SIZE;
    }
    raw
}

/// The name of a kind of signal in the interface. A kind without a name has none; one that the
/// product names has the name at its position in the product's list.
pub fn audio_port_type<'a>(port_type: AudioPortType, names: &[&'a str]) -> (name: Option<&'a str>)
    ensures
        match port_type {
            AudioPortType::Unspecified => name is None,
            AudioPortType::Mono => name matches Some(text) && text@ == CLAP_PORT_MONO@,
            AudioPortType::Stereo => name matches Some(text) && text@ == CLAP_PORT_STEREO@,
            AudioPortType::Other(index) => if index < names@.len() {
                name == Some(names@[index as int])
            } else {
                name is None
            },
        },
{
    match port_type {
        AudioPortType::Unspecified => None,
        AudioPortType::Mono => Some(CLAP_PORT_MONO),
        AudioPortType::Stereo => Some(CLAP_PORT_STEREO),
        AudioPortType::Other(index) => {
            let index: usize = index as usize;
            if index < names.len() {
                Some(names[index])
            } else {
                None
            }
        },
    }
}

/// The kind of signal that a host names. A name that the adapter does not know lives no longer
/// than the call, so a port of such a kind is told by its channel count alone.
pub open spec fn port_type_named(name: TextArgument<'_>) -> AudioPortType {
    match name {
        TextArgument::Text(name) => if name@ == CLAP_PORT_MONO@ {
            AudioPortType::Mono
        } else if name@ == CLAP_PORT_STEREO@ {
            AudioPortType::Stereo
        } else {
            AudioPortType::Unspecified
        },
        _ => AudioPortType::Unspecified,
    }
}

/// The kind of signal that a host names.
pub fn convert_port_type(name: TextArgument<'_>) -> (port_type: AudioPortType)
    ensures
        port_type == port_type_named(name),
{
    match name {
        TextArgument::Text(name) => if text::same_text(name, CLAP_PORT_MONO) {
            AudioPortType::Mono
        } else if text::same_text(name, CLAP_PORT_STEREO) {
            AudioPortType::Stereo
        } else {
            AudioPortType::Unspecified
        },
        _ => AudioPortType::Unspecified,
    }
}

/// A layout that a host asks for, as it names the kind of signal.
#[derive(Debug, Clone, Copy)]
pub struct RawConfigurationRequest<'a> {
    pub is_input: bool,
    pub port_index: u32,
    pub channel_count: u32,
    pub port_type: TextArgument<'a>,
}

impl<'a> RawConfigurationRequest<'a> {
    /// The layout that the host asks for.
    pub open spec fn request(self) -> AudioPortConfigurationRequest {
        AudioPortConfigurationRequest {
            is_input: self.is_input,
            port_index: self.port_index,
            channel_count: self.channel_count,
            port_type: port_type_named(self.port_type),
        }
    }
}

/// The layouts that a host asks for, in order.
pub fn convert_requests(raw: &[RawConfigurationRequest<'_>]) -> (requests: Vec<
    AudioPortConfigurationRequest,
>)
    ensures
        requests@ == Seq::new(raw@.len(), |i: int| raw@[i].request()),
{
    let mut requests: Vec<AudioPortConfigurationRequest> = Vec::new();
    let mut i: usize = 0;
    while i < raw.len()
        invariant
            i <= raw@.len(),
            requests@ == Seq::new(i as nat, |j: int| raw@[j].request()),
        decreases raw@.len() - i,
    {
        let request = raw[i];
        requests.push(
            AudioPortConfigurationRequest {
                is_input: request.is_input,
                port_index: request.port_index,
                channel_count: request.channel_count,
                port_type: convert_port_type(request.port_type),
            },
        );
        i += 1;
        assert(requests@ =~= Seq::new(i as nat, |j: int| raw@[j].request()));
    }
    requests
}

/// How many items of an array that the host passes may be read: all of them, where the array is
/// there or has none.
pub fn external_length(is_null: bool, len: u32) -> (length: Result<u32, AudioBufferError>)
    ensures
        length == if is_null && len > 0 {
            Err::<u32, AudioBufferError>(AudioBufferError::InvalidPortBuffer)
        } else {
            Ok(len)
        },
{
    if len == 0 {
        Ok(0)
    } else if is_null {
        Err(AudioBufferError::InvalidPortBuffer)
    } else {
        Ok(len)
    }
}

/// What the host is told of an audio port. Its kind of signal is given apart.
#[derive(Debug, Clone, Copy)]
pub struct RawAudioPort {
    pub id: u32,
    pub flags: u32,
    pub channel_count: u32,
    pub in_place_pair: u32,
    pub name: [u8; 256],
}

/// What the host is told of an audio port.
pub fn raw_audio_port(port: &AudioPortInfo) -> (raw: RawAudioPort)
    ensures
        raw.id == port.id,
        raw.flags == audio_flags_value(port.flags),
        raw.channel_count == port.channel_count,
        raw.in_place_pair == match port.in_place_pair {
            Some(pair) => pair,
            None => CLAP_INVALID_ID,
        },
        raw.name@ == fixed_field(256, port.name@),
{
    let mut name: [u8; 256] = [0;256];
    fill_c_char_array(&mut name, port.name);
    RawAudioPort {
        id: port.id,
        flags: audio_port_flags(port.flags),
        channel_count: port.channel_count,
        in_place_pair: match port.in_place_pair {
            Some(pair) => pair,
            None => CLAP_INVALID_ID,
        },
        name,
    }
}

/// What the host is told of a note port.
#[derive(Debug, Clone, Copy)]
pub struct RawNotePort {
    pub id: u32,
    pub supported_dialects: u32,
    pub preferred_dialect: u32,
    pub name: [u8; 256],
}

/// What the host is told of a note port.
pub fn raw_note_port(port: &NotePortInfo) -> (raw: RawNotePort)
    ensures
        raw.id == port.id,
        raw.supported_dialects == port.supported_dialects@,
        raw.preferred_dialect == port.preferred_dialect@,
        raw.name@ == fixed_field(256, port.name@),
{
    let mut name: [u8; 256] = [0;256];
    fill_c_char_array(&mut name, port.name);
    RawNotePort {
        id: port.id,
        supported_dialects: port.supported_dialects.bits(),
        preferred_dialect: port.preferred_dialect.bits(),
        name,
    }
}

/// Whether a note port that the host asked for and that does not exist is looked up among the
/// output ports. A validator asks for output ports as if they were input ports; no other host
/// is answered so.
pub fn looks_among_outputs(found: bool, is_input: bool, process_name: &str) -> (looks: bool)
    ensures
        looks == (!found && is_input && text::occurs_in("clap-validator"@, process_name@)),
{
    !found && is_input && text::contains(process_name, "clap-validator")
}

/// The host reads each property of an audio port in the bit of that property, and no other bit
/// is set.
pub proof fn each_property_has_its_bit(flags: AudioPortFlags, bits: u32)
    requires
        bits == audio_flags_value(flags),
    ensures
        bits & 1 != 0 <==> flags.is_main,
        bits & 2 != 0 <==> flags.supports_64bits,
        bits & 4 != 0 <==> flags.prefers_64bits,
        bits & 8 != 0 <==> flags.requires_common_sample_size,
        bits < 16,
{
    let a0: u32 = if flags.is_main { 1 } else { 0 };
    let a1: u32 = if flags.supports_64bits { 2 } else { 0 };
    let a2: u32 = if flags.prefers_64bits { 4 } else { 0 };
    let a3: u32 = if flags.requires_common_sample_size { 8 } else { 0 };
    assert(bits == a0 + a1 + a2 + a3);
    assert((bits & 1) == a0 && (bits & 2) == a1 && (bits & 4) == a2 && (bits & 8) == a3 && bits < 16) by (bit_vector)
        requires
            bits == a0 + a1 + a2 + a3,
            a0 == 0 || a0 == 1,
            a1 == 0 || a1 == 2,
            a2 == 0 || a2 == 4,
            a3 == 0 || a3 == 8,
    ;
}

/// The kinds of signal that have a name are told by it and found again by it; any other name, and
/// none, is a port of no particular kind.
pub proof fn kinds_of_signal_are_found_by_name<'a>(
    port_type: AudioPortType,
    names: &[&'a str],
    name: Option<&'a str>,
    other: TextArgument<'a>,
)
    requires
        call_ensures(audio_port_type, (port_type, names), name),
    ensures
        port_type == AudioPortType::Mono ==> name is Some && name->Some_0@ == "mono"@,
        port_type == AudioPortType::Stereo ==> name is Some && name->Some_0@ == "stereo"@,
        port_type == AudioPortType::Mono || port_type == AudioPortType::Stereo ==> port_type_named(
            TextArgument::Text(name->Some_0),
        ) == port_type,
        port_type == AudioPortType::Unspecified ==> name is None,
        !(other is Text) ==> port_type_named(other) == AudioPortType::Unspecified,
        other matches TextArgument::Text(text) ==> text@ != "mono"@ && text@ != "stereo"@
            ==> port_type_named(other) == AudioPortType::Unspecified,
{
    reveal_strlit("mono");
    reveal_strlit("stereo");
    assert("mono"@.len() != "stereo"@.len());
}

/// A layout is asked for as the host has put it: each field under its own name.
pub proof fn layouts_are_asked_for_as_they_are_put(raw: RawConfigurationRequest<'_>)
    ensures
        raw.request().is_input == raw.is_input,
        raw.request().port_index == raw.port_index,
        raw.request().channel_count == raw.channel_count,
        raw.request().port_type == AudioPortType::Mono <==> (raw.port_type
            matches TextArgument::Text(name) && name@ == "mono"@),
        raw.request().port_type == AudioPortType::Stereo <==> (raw.port_type
            matches TextArgument::Text(name) && name@ == "stereo"@),
{
    reveal_strlit("mono");
    reveal_strlit("stereo");
    assert("mono"@.len() != "stereo"@.len());
}

/// An array is read where it is there or empty, up to its length; only one that is missing and
/// not empty is refused.
pub proof fn missing_arrays_are_refused(
    is_null: bool,
    len: u32,
    length: Result<u32, AudioBufferError>,
)
    requires
        call_ensures(external_length, (is_null, len), length),
    ensures
        !is_null ==> length == Ok::<u32, AudioBufferError>(len),
        len == 0 ==> length == Ok::<u32, AudioBufferError>(0),
        is_null && len > 0 ==> length == Err::<u32, AudioBufferError>(
            AudioBufferError::InvalidPortBuffer,
        ),
{
}

/// A host is told of an audio port what the plugin says, each field under its own name; a port
/// without a pair names none.
pub proof fn audio_ports_are_told_as_they_are(port: AudioPortInfo, raw: RawAudioPort)
    requires
        call_ensures(raw_audio_port, (&port,), raw),
    ensures
        raw.id == port.id,
        raw.channel_count == port.channel_count,
        port.in_place_pair matches Some(pair) ==> raw.in_place_pair == pair,
        port.in_place_pair is None ==> raw.in_place_pair == 0xffff_ffff,
        raw.flags & 1 != 0 <==> port.flags.is_main,
        raw.flags & 2 != 0 <==> port.flags.supports_64bits,
        raw.flags & 4 != 0 <==> port.flags.prefers_64bits,
        raw.flags & 8 != 0 <==> port.flags.requires_common_sample_size,
        raw.name@ == fixed_field(256, port.name@),
{
    each_property_has_its_bit(port.flags, raw.flags);
}

/// A host is told of a note port what the plugin says, each field under its own name.
pub proof fn note_ports_are_told_as_they_are(port: NotePortInfo, raw: RawNotePort)
    requires
        call_ensures(raw_note_port, (&port,), raw),
    ensures
        raw.id == port.id,
        raw.supported_dialects == port.supported_dialects@,
        raw.preferred_dialect == port.preferred_dialect@,
        raw.name@ == fixed_field(256, port.name@),
{
}

/// A port that was not found is looked for among the outputs only where an input was asked for, and
/// only for the validator.
pub proof fn only_the_validator_looks_among_outputs(
    found: bool,
    is_input: bool,
    process_name: &str,
    looks: bool,
)
    requires
        call_ensures(looks_among_outputs, (found, is_input, process_name), looks),
    ensures
        looks ==> !found && is_input && text::occurs_in("clap-validator"@, process_name@),
        !found && is_input && text::occurs_in("clap-validator"@, process_name@) ==> looks,
{
}

/// Requests are handed on one for one, each at its place, and the properties of a port each with
/// its bit.
pub proof fn requests_keep_their_places(
    raw: &[RawConfigurationRequest<'_>],
    requests: Vec<AudioPortConfigurationRequest>,
    flags: AudioPortFlags,
    bits: u32,
    i: int,
)
    requires
        call_ensures(convert_requests, (raw,), requests),
        call_ensures(audio_port_flags, (flags,), bits),
    ensures
        requests@.len() == raw@.len(),
        0 <= i < raw@.len() ==> requests@[i] == raw@[i].request(),
        bits == audio_flags_value(flags),
{
}

} // verus!
