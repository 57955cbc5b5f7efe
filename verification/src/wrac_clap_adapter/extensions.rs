//! Which extensions a plugin instance offers.

use vstd::prelude::*;

use crate::clap_abi::{
    CLAP_EXT_AUDIO_PORTS,
    CLAP_EXT_CONFIGURABLE_AUDIO_PORTS,
    CLAP_EXT_CONFIGURABLE_AUDIO_PORTS_COMPAT,
    CLAP_EXT_GUI,
    CLAP_EXT_LATENCY,
    CLAP_EXT_NOTE_PORTS,
    CLAP_EXT_PARAMS,
    CLAP_EXT_RENDER,
    CLAP_EXT_STATE,
    CLAP_EXT_TAIL,
};
use crate::text;
use crate::wrac_clap_adapter::api::{PluginError, PluginResult};
use crate::wrac_clap_adapter::ffi::TextArgument;

verus! {

/// The extension by which wrappers learn how a plugin behaves as a VST3 plugin.
pub const CLAP_PLUGIN_AS_VST3: &'static str = "clap.plugin-info-as-vst3/0";

/// What a plugin supports. This is fixed when the instance is made.
#[derive(Debug, Clone, Copy, PartialEq, Eq, Structural)]
pub struct PluginCapabilities {
    pub audio_ports: bool,
    pub configurable_audio_ports: bool,
    pub note_ports: bool,
    pub parameters: bool,
    pub state: bool,
    pub gui: bool,
    pub render: bool,
    pub tail: bool,
}

/// An extension of a plugin instance.
#[derive(Debug, Clone, Copy, PartialEq, Eq, Structural)]
pub enum Extension {
    AudioPorts,
    ConfigurableAudioPorts,
    NotePorts,
    Params,
    State,
    Gui,
    Render,
    Tail,
    Latency,
    Vst3,
}

/// The extension that an id names. The configurable ports go by two names.
pub open spec fn extension_named(id: Seq<char>) -> Option<Extension> {
    if id == CLAP_EXT_AUDIO_PORTS@ {
        Some(Extension::AudioPorts)
    } else if id == CLAP_EXT_CONFIGURABLE_AUDIO_PORTS@ || id
        == CLAP_EXT_CONFIGURABLE_AUDIO_PORTS_COMPAT@ {
        Some(Extension::ConfigurableAudioPorts)
    } else if id == CLAP_EXT_NOTE_PORTS@ {
        Some(Extension::NotePorts)
    } else if id == CLAP_EXT_PARAMS@ {
        Some(Extension::Params)
    } else if id == CLAP_EXT_STATE@ {
        Some(Extension::State)
    } else if id == CLAP_EXT_GUI@ {
        Some(Extension::Gui)
    } else if id == CLAP_EXT_RENDER@ {
        Some(Extension::Render)
    } else if id == CLAP_EXT_TAIL@ {
        Some(Extension::Tail)
    } else if id == CLAP_EXT_LATENCY@ {
        Some(Extension::Latency)
    } else if id == CLAP_PLUGIN_AS_VST3@ {
        Some(Extension::Vst3)
    } else {
        None
    }
}

impl PluginCapabilities {
    /// Whether the instance offers an extension. Some wrappers ask for the latency without
    /// regard to what is supported, so it is always there, as is what concerns VST3.
    pub open spec fn offers(self, extension: Extension) -> bool {
        match extension {
            Extension::AudioPorts => self.audio_ports,
            Extension::ConfigurableAudioPorts => self.configurable_audio_ports,
            Extension::NotePorts => self.note_ports,
            Extension::Params => self.parameters,
            Extension::State => self.state,
            Extension::Gui => self.gui,
            Extension::Render => self.render,
            Extension::Tail => self.tail,
            Extension::Latency => true,
            Extension::Vst3 => true,
        }
    }

    fn supports(&self, extension: Extension) -> (supported: bool)
        ensures
            supported == self.offers(extension),
    {
        match extension {
            Extension::AudioPorts => self.audio_ports,
            Extension::ConfigurableAudioPorts => self.configurable_audio_ports,
            Extension::NotePorts => self.note_ports,
            Extension::Params => self.parameters,
            Extension::State => self.state,
            Extension::Gui => self.gui,
            Extension::Render => self.render,
            Extension::Tail => self.tail,
            Extension::Latency => true,
            Extension::Vst3 => true,
        }
    }
}

fn find_extension(id: &str) -> (extension: Option<Extension>)
    ensures
        extension == extension_named(id@),
{
    if text::same_text(id, CLAP_EXT_AUDIO_PORTS) {
        Some(Extension::AudioPorts)
    } else if text::same_text(id, CLAP_EXT_CONFIGURABLE_AUDIO_PORTS) || text::same_text(
        id,
        CLAP_EXT_CONFIGURABLE_AUDIO_PORTS_COMPAT,
    ) {
        Some(Extension::ConfigurableAudioPorts)
    } else if text::same_text(id, CLAP_EXT_NOTE_PORTS) {
        Some(Extension::NotePorts)
    } else if text::same_text(id, CLAP_EXT_PARAMS) {
        Some(Extension::Params)
    } else if text::same_text(id, CLAP_EXT_STATE) {
        Some(Extension::State)
    } else if text::same_text(id, CLAP_EXT_GUI) {
        Some(Extension::Gui)
    } else if text::same_text(id, CLAP_EXT_RENDER) {
        Some(Extension::Render)
    } else if text::same_text(id, CLAP_EXT_TAIL) {
        Some(Extension::Tail)
    } else if text::same_text(id, CLAP_EXT_LATENCY) {
        Some(Extension::Latency)
    } else if text::same_text(id, CLAP_PLUGIN_AS_VST3) {
        Some(Extension::Vst3)
    } else {
        None
    }
}

/// The extension that the host asks an instance for. `capabilities` is `None` where there is no
/// instance.
pub fn get_extension(
    capabilities: Option<PluginCapabilities>,
    id: TextArgument<'_>,
) -> (extension: Option<Extension>)
    ensures
        extension == match (capabilities, id) {
            (Some(capabilities), TextArgument::Text(id)) => match extension_named(id@) {
                Some(extension) => if capabilities.offers(extension) {
                    Some(extension)
                } else {
                    None
                },
                None => None,
            },
            _ => None,
        },
{
    match (capabilities, id) {
        (Some(capabilities), TextArgument::Text(id)) => match find_extension(id) {
            Some(extension) => if capabilities.supports(extension) {
                Some(extension)
            } else {
                None
            },
            None => None,
        },
        _ => None,
    }
}

/// How many frames the plugin delays the signal: none where it says nothing of latency.
pub fn latency_frames(reported: Option<u32>) -> (frames: u32)
    ensures
        frames == match reported {
            Some(frames) => frames,
            None => 0,
        },
{
    match reported {
        Some(frames) => frames,
        None => 0,
    }
}

/// How many MIDI channels a note port has as a VST3 event bus. Note ports carry no such number,
/// and every further channel would cost a host hundreds of controller parameters.
pub fn vst3_midi_channels() -> (channels: u32)
    ensures
        channels == 1,
{
    1
}

/// Which note expressions the plugin supports as a VST3 plugin: none.
pub fn vst3_note_expressions() -> (expressions: u32)
    ensures
        expressions == 0,
{
    0
}

/// What the product is told of its request to resize the GUI. `host_answer` is `None` where the
/// host has no extension for GUIs.
pub fn resize_result(host_answer: Option<bool>) -> (result: PluginResult<()>)
    ensures
        match host_answer {
            None => result matches Err(PluginError::Message(message)) && message@
                == "host does not expose CLAP GUI extension"@,
            Some(false) => result matches Err(PluginError::Message(message)) && message@
                == "host rejected GUI resize request"@,
            Some(true) => result is Ok,
        },
{
    match host_answer {
        None => Err(PluginError::Message("host does not expose CLAP GUI extension")),
        Some(accepted) => if accepted {
            Ok(())
        } else {
            Err(PluginError::Message("host rejected GUI resize request"))
        },
    }
}

proof fn lemma_extensions_have_names_of_their_own(id: Seq<char>)
    ensures
        id == "clap.audio-ports"@ ==> extension_named(id) == Some(Extension::AudioPorts),
        id == "clap.configurable-audio-ports/1"@ || id == "clap.configurable-audio-ports.draft1"@
            ==> extension_named(id) == Some(Extension::ConfigurableAudioPorts),
        id == "clap.note-ports"@ ==> extension_named(id) == Some(Extension::NotePorts),
        id == "clap.params"@ ==> extension_named(id) == Some(Extension::Params),
        id == "clap.state"@ ==> extension_named(id) == Some(Extension::State),
        id == "clap.gui"@ ==> extension_named(id) == Some(Extension::Gui),
        id == "clap.render"@ ==> extension_named(id) == Some(Extension::Render),
        id == "clap.tail"@ ==> extension_named(id) == Some(Extension::Tail),
        id == "clap.latency"@ ==> extension_named(id) == Some(Extension::Latency),
        id == "clap.plugin-info-as-vst3/0"@ ==> extension_named(id) == Some(Extension::Vst3),
{
    reveal_strlit("clap.audio-ports");
    reveal_strlit("clap.configurable-audio-ports/1");
    reveal_strlit("clap.configurable-audio-ports.draft1");
    reveal_strlit("clap.note-ports");
    reveal_strlit("clap.params");
    reveal_strlit("clap.state");
    reveal_strlit("clap.gui");
    reveal_strlit("clap.render");
    reveal_strlit("clap.tail");
    reveal_strlit("clap.latency");
    reveal_strlit("clap.plugin-info-as-vst3/0");
    assert(CLAP_EXT_AUDIO_PORTS@.len() == 16);
    assert(CLAP_EXT_CONFIGURABLE_AUDIO_PORTS@.len() == 31);
    assert(CLAP_EXT_CONFIGURABLE_AUDIO_PORTS_COMPAT@.len() == 36);
    assert(CLAP_EXT_NOTE_PORTS@.len() == 15);
    assert(CLAP_EXT_PARAMS@.len() == 11);
    assert(CLAP_EXT_STATE@.len() == 10);
    assert(CLAP_EXT_GUI@.len() == 8);
    assert(CLAP_EXT_RENDER@.len() == 11);
    assert(CLAP_EXT_TAIL@.len() == 9);
    assert(CLAP_EXT_LATENCY@.len() == 12);
    assert(CLAP_PLUGIN_AS_VST3@.len() == 26);
    assert(CLAP_EXT_PARAMS@[5] != CLAP_EXT_RENDER@[5]);
}

/// A host gets an extension exactly where it asks for it by its name and the plugin supports it.
/// The latency and what concerns VST3 are there whatever the plugin supports.
pub proof fn extensions_are_found_by_name(
    capabilities: PluginCapabilities,
    id: &str,
    answer: Option<Extension>,
)
    requires
        call_ensures(get_extension, (Some(capabilities), TextArgument::Text(id)), answer),
    ensures
        answer == Some(Extension::AudioPorts) <==> id@ == "clap.audio-ports"@
            && capabilities.audio_ports,
        answer == Some(Extension::ConfigurableAudioPorts) <==> (id@
            == "clap.configurable-audio-ports/1"@ || id@ == "clap.configurable-audio-ports.draft1"@)
            && capabilities.configurable_audio_ports,
        answer == Some(Extension::NotePorts) <==> id@ == "clap.note-ports"@
            && capabilities.note_ports,
        answer == Some(Extension::Params) <==> id@ == "clap.params"@ && capabilities.parameters,
        answer == Some(Extension::State) <==> id@ == "clap.state"@ && capabilities.state,
        answer == Some(Extension::Gui) <==> id@ == "clap.gui"@ && capabilities.gui,
        answer == Some(Extension::Render) <==> id@ == "clap.render"@ && capabilities.render,
        answer == Some(Extension::Tail) <==> id@ == "clap.tail"@ && capabilities.tail,
        answer == Some(Extension::Latency) <==> id@ == "clap.latency"@,
        answer == Some(Extension::Vst3) <==> id@ == "clap.plugin-info-as-vst3/0"@,
{
    lemma_extensions_have_names_of_their_own(id@);
}

/// Without an instance, or without a name, a host gets no extension.
pub proof fn no_extension_without_an_instance_and_a_name(
    capabilities: Option<PluginCapabilities>,
    id: TextArgument<'_>,
    answer: Option<Extension>,
)
    requires
        call_ensures(get_extension, (capabilities, id), answer),
        capabilities is None || !(id is Text),
    ensures
        answer is None,
{
}

/// The host is told of the latency that the plugin reports, and of none where it reports none.
pub proof fn latencies_are_told_as_reported(frames: u32, told: u32, otherwise: u32)
    requires
        call_ensures(latency_frames, (Some(frames),), told),
        call_ensures(latency_frames, (None,), otherwise),
    ensures
        told == frames,
        otherwise == 0,
{
}

/// The product learns that it is resized exactly where the host accepts, and else why not.
pub proof fn resizes_need_a_host_that_accepts(answer: Option<bool>, result: PluginResult<()>)
    requires
        call_ensures(resize_result, (answer,), result),
    ensures
        result is Ok <==> answer == Some(true),
        answer is None ==> result->Err_0->Message_0@ == "host does not expose CLAP GUI extension"@,
        answer == Some(false) ==> result->Err_0->Message_0@ == "host rejected GUI resize request"@,
{
}

/// As a VST3 plugin, a note port has one channel and there are no note expressions.
pub proof fn vst3_plugins_have_one_channel(channels: u32, expressions: u32)
    requires
        call_ensures(vst3_midi_channels, (), channels),
        call_ensures(vst3_note_expressions, (), expressions),
    ensures
        channels == 1,
        expressions == 0,
{
}

} // verus!
