//! The audio ports of the plugin: one main input and one main output with as many channels.

use vstd::prelude::*;

use crate::wrac_clap_adapter::api::{
    AudioPortConfigurationRequest,
    AudioPortFlags,
    AudioPortInfo,
    AudioPortType,
    PluginError,
    PluginResult,
};

verus! {

/// The layout that host and plugin have agreed on.
#[derive(Debug, Clone, Copy, PartialEq, Eq, Structural)]
pub struct AudioLayout {
    pub channel_count: u32,
}

/// The kind of signal of a port with so many channels.
pub open spec fn port_type_of(channel_count: u32) -> AudioPortType {
    if channel_count == 1 {
        AudioPortType::Mono
    } else if channel_count == 2 {
        AudioPortType::Stereo
    } else {
        AudioPortType::Unspecified
    }
}

/// The kind of signal of a port with so many channels.
pub fn audio_port_type(channel_count: u32) -> (port_type: AudioPortType)
    ensures
        port_type == port_type_of(channel_count),
{
    if channel_count == 1 {
        AudioPortType::Mono
    } else if channel_count == 2 {
        AudioPortType::Stereo
    } else {
        AudioPortType::Unspecified
    }
}

/// Whether the plugin can have what a request asks for: one channel that is mono, or two that
/// are stereo, where the kind is given.
pub open spec fn is_supported(request: AudioPortConfigurationRequest) -> bool {
    ||| request.channel_count == 1 && (request.port_type is Mono || request.port_type
        is Unspecified)
    ||| request.channel_count == 2 && (request.port_type is Stereo || request.port_type
        is Unspecified)
}

/// Whether the plugin can have what a request asks for.
pub fn is_supported_audio_port_request(request: &AudioPortConfigurationRequest) -> (supported: bool)
    ensures
        supported == is_supported(*request),
{
    match request.port_type {
        AudioPortType::Unspecified => request.channel_count == 1 || request.channel_count == 2,
        AudioPortType::Mono => request.channel_count == 1,
        AudioPortType::Stereo => request.channel_count == 2,
        AudioPortType::Other(_) => false,
    }
}

/// How many channels a port has after requests: as many as the last request for it asks for.
pub open spec fn channels_after(
    current: u32,
    requests: Seq<AudioPortConfigurationRequest>,
    is_input: bool,
) -> u32
    decreases requests.len(),
{
    if requests.len() == 0 {
        current
    } else if requests.last().is_input == is_input {
        requests.last().channel_count
    } else {
        channels_after(current, requests.drop_last(), is_input)
    }
}

/// Whether the plugin can have what every request asks for, each on the one port that there is.
pub open spec fn all_supported(requests: Seq<AudioPortConfigurationRequest>) -> bool {
    forall|i: int|
        0 <= i < requests.len() ==> (#[trigger] requests[i]).port_index == 0 && is_supported(
            requests[i],
        )
}

/// How many channels the plugin has after requests, where it can have what they ask for and
/// input and output come out alike.
pub open spec fn resolved(current: u32, requests: Seq<AudioPortConfigurationRequest>) -> Option<
    u32,
> {
    if all_supported(requests) && channels_after(current, requests, true) == channels_after(
        current,
        requests,
        false,
    ) {
        Some(channels_after(current, requests, true))
    } else {
        None
    }
}

/// How many channels the plugin has after requests.
pub fn resolve_audio_channel_count(
    current_channel_count: u32,
    requests: &[AudioPortConfigurationRequest],
) -> (channel_count: Option<u32>)
    ensures
        channel_count == resolved(current_channel_count, requests@),
{
    let mut input_channel_count: u32 = current_channel_count;
    let mut output_channel_count: u32 = current_channel_count;
    let mut i: usize = 0;
    while i < requests.len()
        invariant
            i <= requests@.len(),
            input_channel_count == channels_after(
                current_channel_count,
                requests@.take(i as int),
                true,
            ),
            output_channel_count == channels_after(
                current_channel_count,
                requests@.take(i as int),
                false,
            ),
            all_supported(requests@.take(i as int)),
        decreases requests@.len() - i,
    {
        let request = requests[i];
        if request.port_index != 0 || !is_supported_audio_port_request(&request) {
            assert(!all_supported(requests@)) by {
                assert(requests@[i as int] == request);
            }
            return None;
        }
        if request.is_input {
            input_channel_count = request.channel_count;
        } else {
            output_channel_count = request.channel_count;
        }
        i += 1;
        assert(requests@.take(i as int).drop_last() =~= requests@.take(i - 1));
    }
    assert(requests@.take(i as int) =~= requests@);
    if input_channel_count == output_channel_count {
        Some(input_channel_count)
    } else {
        None
    }
}

/// What the host learns of a port of a layout: there is one each way.
pub open spec fn port_of(layout: AudioLayout, is_input: bool) -> AudioPortInfo {
    AudioPortInfo {
        id: if is_input {
            1
        } else {
            2
        },
        name: if is_input {
            "Main In"
        } else {
            "Main Out"
        },
        flags: AudioPortFlags {
            is_main: true,
            supports_64bits: false,
            prefers_64bits: false,
            requires_common_sample_size: false,
        },
        channel_count: layout.channel_count,
        port_type: port_type_of(layout.channel_count),
        in_place_pair: None,
    }
}

impl AudioLayout {
    /// A layout with so many channels each way.
    pub fn new(channel_count: u32) -> (layout: Self)
        ensures
            layout.channel_count == channel_count,
    {
        AudioLayout { channel_count }
    }

    /// How many ports there are each way.
    pub fn audio_port_count(&self, _is_input: bool) -> (count: u32)
        ensures
            count == 1,
    {
        1
    }

    /// What the host learns of a port.
    pub fn audio_port_info(&self, index: u32, is_input: bool) -> (info: Option<AudioPortInfo>)
        ensures
            info == if index == 0 {
                Some(port_of(*self, is_input))
            } else {
                None
            },
    {
        if index != 0 {
            return None;
        }
        let flags = AudioPortFlags { is_main: true, ..AudioPortFlags::default() };
        Some(
            AudioPortInfo {
                id: if is_input {
                    1
                } else {
                    2
                },
                name: if is_input {
                    "Main In"
                } else {
                    "Main Out"
                },
                flags,
                channel_count: self.channel_count,
                port_type: audio_port_type(self.channel_count),
                in_place_pair: None,
            },
        )
    }

    /// Whether the layout can change as requests ask.
    pub fn can_apply_audio_port_configuration(
        &self,
        requests: &[AudioPortConfigurationRequest],
    ) -> (accepted: bool)
        ensures
            accepted == resolved(self.channel_count, requests@) is Some,
    {
        resolve_audio_channel_count(self.channel_count, requests).is_some()
    }

    /// Changes the layout as requests ask, or leaves it as it is where it cannot.
    pub fn apply_audio_port_configuration(
        &mut self,
        requests: &[AudioPortConfigurationRequest],
    ) -> (result: PluginResult<()>)
        ensures
            match resolved(old(self).channel_count, requests@) {
                Some(channel_count) => result is Ok && final(self).channel_count == channel_count,
                None => result == Err::<(), PluginError>(PluginError::InvalidState)
                    && *final(self) == *old(self),
            },
    {
        match resolve_audio_channel_count(self.channel_count, requests) {
            Some(channel_count) => {
                self.channel_count = channel_count;
                Ok(())
            },
            None => Err(PluginError::InvalidState),
        }
    }
}

/// A layout only ever changes to mono or stereo, both ways alike.
pub proof fn layouts_are_mono_or_stereo(current: u32, requests: Seq<AudioPortConfigurationRequest>)
    requires
        resolved(current, requests) is Some,
    ensures
        ({
            let count = resolved(current, requests)->Some_0;
            &&& count == current || count == 1 || count == 2
            &&& requests.len() > 0 ==> count == requests.last().channel_count
            &&& requests.len() == 0 ==> count == current
        }),
{
    lemma_channels_after(current, requests, true);
    if requests.len() > 0 {
        assert(is_supported(requests[requests.len() - 1]));
        if !requests.last().is_input {
            assert(channels_after(current, requests, false) == requests.last().channel_count);
        }
    }
}

proof fn lemma_channels_after(
    current: u32,
    requests: Seq<AudioPortConfigurationRequest>,
    is_input: bool,
)
    requires
        all_supported(requests),
    ensures
        ({
            let count = channels_after(current, requests, is_input);
            count == current || count == 1 || count == 2
        }),
    decreases requests.len(),
{
    if requests.len() > 0 {
        assert(is_supported(requests[requests.len() - 1]));
        assert(all_supported(requests.drop_last())) by {
            assert forall|i: int| 0 <= i < requests.len() - 1 implies (
            #[trigger] requests.drop_last()[i]).port_index == 0 && is_supported(
                requests.drop_last()[i],
            ) by {
                assert(requests[i].port_index == 0);
            }
        }
        lemma_channels_after(current, requests.drop_last(), is_input);
    }
}

/// A port has as many channels as the last request for it asks for, and as many as before where
/// none is for it.
pub proof fn the_last_request_for_a_port_counts(
    current: u32,
    requests: Seq<AudioPortConfigurationRequest>,
    is_input: bool,
    i: int,
)
    requires
        -1 <= i < requests.len(),
        i >= 0 ==> requests[i].is_input == is_input,
        forall|j: int| i < j < requests.len() ==> (#[trigger] requests[j]).is_input != is_input,
    ensures
        channels_after(current, requests, is_input) == if i >= 0 {
            requests[i].channel_count
        } else {
            current
        },
    decreases requests.len(),
{
    if requests.len() > 0 && requests.last().is_input != is_input {
        assert forall|j: int| i < j < requests.len() - 1 implies (
        #[trigger] requests.drop_last()[j]).is_input != is_input by {
            assert(requests[j].is_input != is_input);
        }
        the_last_request_for_a_port_counts(current, requests.drop_last(), is_input, i);
    }
}

/// A request for one channel or for two is met where the kind of signal suits the number or is
/// left open, and only on the first port each way; no other number of channels is.
pub proof fn mono_and_stereo_are_supported(
    request: AudioPortConfigurationRequest,
    supported: bool,
)
    requires
        call_ensures(is_supported_audio_port_request, (&request,), supported),
    ensures
        supported ==> request.channel_count == 1 || request.channel_count == 2,
        supported && request.port_type is Mono ==> request.channel_count == 1,
        supported && request.port_type is Stereo ==> request.channel_count == 2,
        supported ==> !(request.port_type is Other),
        request.channel_count == 1 && request.port_type is Mono ==> supported,
        request.channel_count == 2 && request.port_type is Stereo ==> supported,
        (request.channel_count == 1 || request.channel_count == 2) && request.port_type
            is Unspecified ==> supported,
        request.port_index != 0 ==> !all_supported(seq![request]),
        request.port_index == 0 ==> all_supported(seq![request]) == supported,
{
    assert(seq![request][0] == request);
    if request.port_index == 0 && supported {
        assert(all_supported(seq![request]));
    }
}

/// A layout that can change does change, to as many channels as both ports are asked to have; one
/// that cannot stays as it is, and the host is told so. A layout changes only where input and
/// output come out alike.
pub proof fn layouts_change_both_ways_alike(
    layout: &mut AudioLayout,
    requests: &[AudioPortConfigurationRequest],
    accepted: bool,
    result: PluginResult<()>,
)
    requires
        call_ensures(AudioLayout::can_apply_audio_port_configuration, (&*layout, requests), accepted),
        call_ensures(AudioLayout::apply_audio_port_configuration, (layout, requests), result),
    ensures
        accepted <==> result is Ok,
        !accepted ==> *final(layout) == *old(layout) && result->Err_0 is InvalidState,
        accepted ==> {
            let count = final(layout).channel_count;
            &&& count == channels_after(old(layout).channel_count, requests@, true)
            &&& count == channels_after(old(layout).channel_count, requests@, false)
            &&& forall|i: int|
                0 <= i < requests@.len() ==> (#[trigger] requests@[i]).port_index == 0 && (
                requests@[i].channel_count == 1 || requests@[i].channel_count == 2)
        },
        requests@.len() == 0 ==> accepted && *final(layout) == *old(layout),
{
    if accepted {
        assert forall|i: int| 0 <= i < requests@.len() implies (
        #[trigger] requests@[i]).port_index == 0 && (requests@[i].channel_count == 1
            || requests@[i].channel_count == 2) by {
            assert(is_supported(requests@[i]));
        }
    }
}

/// There is one main port each way. The two have ids and names of their own, as many channels as
/// the layout, and the kind of signal that suits the number; samples of double precision are not
/// taken, and no port is processed in the place of another.
pub proof fn the_two_ports_differ_in_name_alone(
    layout: AudioLayout,
    index: u32,
    input: Option<AudioPortInfo>,
    output: Option<AudioPortInfo>,
    is_input: bool,
    count: u32,
)
    requires
        call_ensures(AudioLayout::audio_port_info, (&layout, index, true), input),
        call_ensures(AudioLayout::audio_port_info, (&layout, index, false), output),
        call_ensures(AudioLayout::audio_port_count, (&layout, is_input), count),
    ensures
        count == 1,
        input is Some <==> index < count,
        output is Some <==> index < count,
        index == 0 ==> {
            let input = input->Some_0;
            let output = output->Some_0;
            &&& input.id == 1
            &&& output.id == 2
            &&& input.name@ == "Main In"@
            &&& output.name@ == "Main Out"@
            &&& input.channel_count == layout.channel_count
            &&& output.channel_count == layout.channel_count
            &&& input.port_type == output.port_type
            &&& input.flags == output.flags
            &&& input.flags.is_main && !input.flags.supports_64bits && !input.flags.prefers_64bits
            &&& !input.flags.requires_common_sample_size
            &&& input.in_place_pair is None && output.in_place_pair is None
            &&& input.port_type is Mono <==> layout.channel_count == 1
            &&& input.port_type is Stereo <==> layout.channel_count == 2
            &&& !(input.port_type is Other)
        },
{
}

} // verus!
