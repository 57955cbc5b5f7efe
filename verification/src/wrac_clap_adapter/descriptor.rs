//! How a plugin describes itself to its host.

use vstd::prelude::*;

use crate::text;
use crate::wrac_clap_adapter::ffi::{four_char_code, terminated_code};

verus! {

/// What a plugin tells of itself.
#[derive(Debug, Clone, Copy)]
pub struct PluginDescriptor {
    pub id: &'static str,
    pub name: &'static str,
    pub vendor: &'static str,
    pub url: &'static str,
    pub manual_url: &'static str,
    pub support_url: &'static str,
    pub version: &'static str,
    pub description: &'static str,
    pub features: &'static [PluginFeature],
    pub auv2: Option<Auv2Descriptor>,
}

/// A property by which hosts sort plugins.
#[derive(Debug, Clone, Copy, PartialEq, Eq, Structural)]
pub enum PluginFeature {
    AudioEffect,
    Instrument,
    Distortion,
    Limiter,
    Mono,
    Stereo,
    Utility,
}

/// The identity of a plugin as an Audio Unit.
#[derive(Debug, Clone, Copy)]
pub struct Auv2Descriptor {
    pub manufacturer_code: [u8; 4],
    pub manufacturer_name: &'static str,
    pub plugin_type: [u8; 4],
    pub plugin_subtype: [u8; 4],
}

impl PluginFeature {
    /// The name that hosts know the feature by.
    pub open spec fn name(self) -> Seq<char> {
        match self {
            PluginFeature::AudioEffect => "audio-effect"@,
            PluginFeature::Instrument => "instrument"@,
            PluginFeature::Distortion => "distortion"@,
            PluginFeature::Limiter => "limiter"@,
            PluginFeature::Mono => "mono"@,
            PluginFeature::Stereo => "stereo"@,
            PluginFeature::Utility => "utility"@,
        }
    }

    /// The name that hosts know the feature by.
    pub fn as_str(self) -> (name: &'static str)
        ensures
            name@ == self.name(),
    {
        match self {
            PluginFeature::AudioEffect => "audio-effect",
            PluginFeature::Instrument => "instrument",
            PluginFeature::Distortion => "distortion",
            PluginFeature::Limiter => "limiter",
            PluginFeature::Mono => "mono",
            PluginFeature::Stereo => "stereo",
            PluginFeature::Utility => "utility",
        }
    }
}

/// Whether a text can end in a NUL byte: it holds none itself.
pub open spec fn can_be_terminated(text: Seq<char>) -> bool {
    forall|i: int| 0 <= i < text.len() ==> text[i] != '\0'
}

/// Whether a text can end in a NUL byte.
pub fn has_no_nul(text: &str) -> (fine: bool)
    ensures
        fine == can_be_terminated(text@),
{
    let chars = text::chars_of(text);
    let mut i: usize = 0;
    while i < chars.len()
        invariant
            i <= chars@.len(),
            chars@ == text@,
            forall|j: int| 0 <= j < i ==> text@[j] != '\0',
        decreases chars@.len() - i,
    {
        if chars[i] == '\0' {
            return false;
        }
        i += 1;
    }
    true
}

impl PluginDescriptor {
    /// The texts of the descriptor, in the order of its fields.
    pub open spec fn texts(self) -> Seq<Seq<char>> {
        seq![
            self.id@,
            self.name@,
            self.vendor@,
            self.url@,
            self.manual_url@,
            self.support_url@,
            self.version@,
            self.description@,
        ]
    }

    /// Whether the host can be given the descriptor: none of its texts holds a NUL, nor does the
    /// manufacturer's code or name.
    pub open spec fn is_presentable(self) -> bool {
        &&& forall|i: int| 0 <= i < self.texts().len() ==> can_be_terminated(#[trigger] self.texts()[i])
        &&& match self.auv2 {
            Some(auv2) => {
                &&& can_be_terminated(auv2.manufacturer_name@)
                &&& forall|i: int| 0 <= i < 4 ==> auv2.manufacturer_code[i] != 0
            },
            None => true,
        }
    }

    /// Whether the host can be given the descriptor.
    pub fn presentable(&self) -> (fine: bool)
        ensures
            fine == self.is_presentable(),
    {
        let ghost all = self.texts();
        if !has_no_nul(self.id) {
            assert(!can_be_terminated(all[0]));
            return false;
        }
        if !has_no_nul(self.name) {
            assert(!can_be_terminated(all[1]));
            return false;
        }
        if !has_no_nul(self.vendor) {
            assert(!can_be_terminated(all[2]));
            return false;
        }
        if !has_no_nul(self.url) {
            assert(!can_be_terminated(all[3]));
            return false;
        }
        if !has_no_nul(self.manual_url) {
            assert(!can_be_terminated(all[4]));
            return false;
        }
        if !has_no_nul(self.support_url) {
            assert(!can_be_terminated(all[5]));
            return false;
        }
        if !has_no_nul(self.version) {
            assert(!can_be_terminated(all[6]));
            return false;
        }
        if !has_no_nul(self.description) {
            assert(!can_be_terminated(all[7]));
            return false;
        }
        match self.auv2 {
            Some(auv2) => {
                let code = auv2.manufacturer_code;
                has_no_nul(auv2.manufacturer_name) && code[0] != 0 && code[1] != 0 && code[2] != 0
                    && code[3] != 0
            },
            None => true,
        }
    }

    /// The names of the features, in order.
    pub fn feature_names(&self) -> (names: Vec<&'static str>)
        ensures
            names@.len() == self.features@.len(),
            forall|i: int| 0 <= i < names@.len() ==> (#[trigger] names@[i])@ == self.features@[i].name(),
    {
        let mut names: Vec<&'static str> = Vec::new();
        let mut i: usize = 0;
        while i < self.features.len()
            invariant
                i <= self.features@.len(),
                names@.len() == i,
                forall|j: int| 0 <= j < i ==> (#[trigger] names@[j])@ == self.features@[j].name(),
            decreases self.features@.len() - i,
        {
            names.push(self.features[i].as_str());
            i += 1;
        }
        names
    }
}

/// The type and the subtype of the Audio Unit that the descriptor at `index` describes, each
/// ending in a zero.
pub fn auv2_info(descriptors: &[PluginDescriptor], index: u32) -> (info: Option<([u8; 5], [u8; 5])>)
    ensures
        match info {
            Some((plugin_type, plugin_subtype)) => {
                &&& index < descriptors@.len()
                &&& descriptors@[index as int].auv2 matches Some(auv2)
                &&& plugin_type@ == terminated_code(auv2.plugin_type@)
                &&& plugin_subtype@ == terminated_code(auv2.plugin_subtype@)
            },
            None => index >= descriptors@.len() || descriptors@[index as int].auv2 is None,
        },
{
    let index: usize = index as usize;
    if index >= descriptors.len() {
        return None;
    }
    match descriptors[index].auv2 {
        Some(auv2) => Some(
            (four_char_code(auv2.plugin_type), four_char_code(auv2.plugin_subtype)),
        ),
        None => None,
    }
}

/// Hosts know each feature by a name of its own, as CLAP writes it.
pub proof fn features_are_told_by_name(feature: PluginFeature, other: PluginFeature)
    ensures
        PluginFeature::AudioEffect.name() == "audio-effect"@,
        PluginFeature::Instrument.name() == "instrument"@,
        PluginFeature::Distortion.name() == "distortion"@,
        PluginFeature::Limiter.name() == "limiter"@,
        PluginFeature::Mono.name() == "mono"@,
        PluginFeature::Stereo.name() == "stereo"@,
        PluginFeature::Utility.name() == "utility"@,
        feature.name() == other.name() ==> feature == other,
{
    reveal_strlit("audio-effect");
    reveal_strlit("instrument");
    reveal_strlit("distortion");
    reveal_strlit("limiter");
    reveal_strlit("mono");
    reveal_strlit("stereo");
    reveal_strlit("utility");
    assert("audio-effect"@.len() == 12 && "mono"@.len() == 4 && "stereo"@.len() == 6);
    assert("instrument"@.len() == 10 && "distortion"@.len() == 10);
    assert("limiter"@.len() == 7 && "utility"@.len() == 7);
    assert("instrument"@[0] != "distortion"@[0]);
    assert("limiter"@[0] != "utility"@[0]);
}

/// A descriptor is kept from the host exactly where one of its texts, or the code or the name of
/// its manufacturer, holds a zero: the text would end there.
pub proof fn descriptors_are_presented_whole(descriptor: PluginDescriptor, fine: bool, i: int)
    requires
        call_ensures(PluginDescriptor::presentable, (&descriptor,), fine),
        fine,
    ensures
        0 <= i < descriptor.id@.len() ==> descriptor.id@[i] != '\0',
        0 <= i < descriptor.name@.len() ==> descriptor.name@[i] != '\0',
        0 <= i < descriptor.vendor@.len() ==> descriptor.vendor@[i] != '\0',
        0 <= i < descriptor.url@.len() ==> descriptor.url@[i] != '\0',
        0 <= i < descriptor.manual_url@.len() ==> descriptor.manual_url@[i] != '\0',
        0 <= i < descriptor.support_url@.len() ==> descriptor.support_url@[i] != '\0',
        0 <= i < descriptor.version@.len() ==> descriptor.version@[i] != '\0',
        0 <= i < descriptor.description@.len() ==> descriptor.description@[i] != '\0',
        descriptor.auv2 matches Some(auv2) ==> {
            &&& 0 <= i < auv2.manufacturer_name@.len() ==> auv2.manufacturer_name@[i] != '\0'
            &&& 0 <= i < 4 ==> auv2.manufacturer_code[i] != 0
        },
{
    let texts = descriptor.texts();
    assert(can_be_terminated(texts[0]));
    assert(can_be_terminated(texts[1]));
    assert(can_be_terminated(texts[2]));
    assert(can_be_terminated(texts[3]));
    assert(can_be_terminated(texts[4]));
    assert(can_be_terminated(texts[5]));
    assert(can_be_terminated(texts[6]));
    assert(can_be_terminated(texts[7]));
}

/// A descriptor without a zero in any of its texts can be presented.
pub proof fn descriptors_without_zeros_are_presented(descriptor: PluginDescriptor, fine: bool)
    requires
        call_ensures(PluginDescriptor::presentable, (&descriptor,), fine),
        !descriptor.id@.contains('\0'),
        !descriptor.name@.contains('\0'),
        !descriptor.vendor@.contains('\0'),
        !descriptor.url@.contains('\0'),
        !descriptor.manual_url@.contains('\0'),
        !descriptor.support_url@.contains('\0'),
        !descriptor.version@.contains('\0'),
        !descriptor.description@.contains('\0'),
        descriptor.auv2 matches Some(auv2) ==> !auv2.manufacturer_name@.contains('\0')
            && !auv2.manufacturer_code@.contains(0u8),
    ensures
        fine,
{
    let texts = descriptor.texts();
    assert forall|i: int| 0 <= i < texts.len() implies can_be_terminated(#[trigger] texts[i]) by {
        assert(!texts[i].contains('\0'));
    }
    if let Some(auv2) = descriptor.auv2 {
        assert forall|i: int| 0 <= i < 4 implies auv2.manufacturer_code[i] != 0 by {
            assert(auv2.manufacturer_code@[i] == auv2.manufacturer_code[i]);
        }
    }
}

/// An Audio Unit is told by the two codes of its own descriptor, each with a zero behind it, and
/// the type comes before the subtype.
pub proof fn audio_units_are_told_by_their_codes(
    descriptors: &[PluginDescriptor],
    index: u32,
    info: Option<([u8; 5], [u8; 5])>,
)
    requires
        call_ensures(auv2_info, (descriptors, index), info),
        index < descriptors@.len(),
        descriptors@[index as int].auv2 is Some,
    ensures
        info is Some,
        ({
            let auv2 = descriptors@[index as int].auv2->Some_0;
            let (plugin_type, plugin_subtype) = info->Some_0;
            &&& plugin_type@.take(4) == auv2.plugin_type@
            &&& plugin_subtype@.take(4) == auv2.plugin_subtype@
            &&& plugin_type@[4] == 0
            &&& plugin_subtype@[4] == 0
        }),
{
}

/// The features of a plugin are told one by one and in order, each by its own name.
pub proof fn features_are_told_in_order(descriptor: PluginDescriptor, names: Vec<&'static str>, i: int)
    requires
        call_ensures(PluginDescriptor::feature_names, (&descriptor,), names),
        0 <= i < descriptor.features@.len(),
    ensures
        names@.len() == descriptor.features@.len(),
        descriptor.features@[i] is AudioEffect <==> names@[i]@ == "audio-effect"@,
        descriptor.features@[i] is Instrument <==> names@[i]@ == "instrument"@,
        descriptor.features@[i] is Stereo <==> names@[i]@ == "stereo"@,
        descriptor.features@[i] is Mono <==> names@[i]@ == "mono"@,
        descriptor.features@[i] is Utility <==> names@[i]@ == "utility"@,
        descriptor.features@[i] is Limiter <==> names@[i]@ == "limiter"@,
        descriptor.features@[i] is Distortion <==> names@[i]@ == "distortion"@,
{
    let feature = descriptor.features@[i];
    features_are_told_by_name(feature, PluginFeature::AudioEffect);
    features_are_told_by_name(feature, PluginFeature::Instrument);
    features_are_told_by_name(feature, PluginFeature::Stereo);
    features_are_told_by_name(feature, PluginFeature::Mono);
    features_are_told_by_name(feature, PluginFeature::Utility);
    features_are_told_by_name(feature, PluginFeature::Limiter);
    features_are_told_by_name(feature, PluginFeature::Distortion);
}

} // verus!
