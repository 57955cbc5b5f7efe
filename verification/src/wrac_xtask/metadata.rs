//! Product metadata and the rules that it has to meet.

use vstd::prelude::*;

use crate::text::{
    chars_of, error_of, is_ascii_hexdigit, is_hex_digit, join2, join3, or_else, same_text, trim,
    trimmed,
};
use crate::wrac_xtask::targets::PluginFormat;

verus! {

/// What a plugin product says of itself in its package manifest.
#[derive(Debug)]
pub struct PluginMetadata {
    pub package_name: String,
    pub version: String,
    pub repository: Option<String>,
    pub company_name: String,
    pub auv2_manufacturer_code: String,
    pub aax_manufacturer_id: String,
    pub bundle_name: String,
    pub bundle_identifier: String,
    pub homepage_url: String,
    pub manual_url: String,
    pub support_url: String,
    pub description: String,
    pub copyright: String,
    /// The formats that the product ships in, which are also the default selection of
    /// every command.
    pub supported_formats: Vec<PluginFormat>,
    pub plugins: Vec<PluginProductMetadata>,
    pub validation: ValidationMetadata,
}

/// How validation of the product departs from the defaults.
#[derive(Debug)]
pub struct ValidationMetadata {
    pub disabled_rules: DisabledRules,
    pub clap_validator: ClapValidatorMetadata,
}

/// Why a rule is disabled.
#[derive(Debug)]
pub struct DisabledValidationRule {
    pub reason: String,
}

/// Which of the CLAP validator's tests are skipped, and why.
#[derive(Debug)]
pub struct ClapValidatorMetadata {
    pub skip_test_filter: Option<String>,
    pub skip_reason: Option<String>,
}

/// One plugin of the product.
#[derive(Debug)]
pub struct PluginProductMetadata {
    pub plugin_id: String,
    pub plugin_name: String,
    pub clap_features: Vec<String>,
    pub vst3_subcategories: String,
    pub vst3_component_id: String,
    pub standalone_name: String,
    pub auv2_type: String,
    pub auv2_subtype: String,
    pub aax_categories: Vec<String>,
    pub aax_product_id: String,
    pub aax_stem_configs: Vec<AaxStemConfigMetadata>,
}

/// One AAX stem configuration of a plugin.
#[derive(Debug)]
pub struct AaxStemConfigMetadata {
    pub name: String,
    pub input: String,
    pub output: String,
    pub plugin_id: String,
}

/// The disabled rules by rule id. No rule id occurs twice; the rules keep the order in
/// which they were first inserted.
#[derive(Debug)]
pub struct DisabledRules {
    entries: Vec<(String, DisabledValidationRule)>,
}

/// The position of `key` in a list of keyed texts.
pub open spec fn holds_key(entries: Seq<(Seq<char>, Seq<char>)>, key: Seq<char>, i: int) -> bool {
    0 <= i < entries.len() && entries[i].0 == key
}

/// The text stored under `key`, where there is one.
pub open spec fn lookup(entries: Seq<(Seq<char>, Seq<char>)>, key: Seq<char>) -> Option<Seq<char>> {
    if exists|i: int| holds_key(entries, key, i) {
        Some(entries[choose|i: int| holds_key(entries, key, i)].1)
    } else {
        None
    }
}

/// Whether every key of `entries` occurs once.
pub open spec fn distinct_keys(entries: Seq<(Seq<char>, Seq<char>)>) -> bool {
    forall|i: int, j: int|
        0 <= i < j < entries.len() ==> #[trigger] entries[i].0 != #[trigger] entries[j].0
}

/// The rule ids and reasons of `entries`.
spec fn texts_of(entries: Seq<(String, DisabledValidationRule)>) -> Seq<(Seq<char>, Seq<char>)> {
    Seq::new(entries.len(), |i: int| (entries[i].0@, entries[i].1.reason@))
}

impl View for DisabledRules {
    type V = Seq<(Seq<char>, Seq<char>)>;

    closed spec fn view(&self) -> Seq<(Seq<char>, Seq<char>)> {
        texts_of(self.entries@)
    }
}

impl DisabledRules {
    #[verifier::type_invariant]
    spec fn keys_are_distinct(self) -> bool {
        distinct_keys(self@)
    }

    /// No disabled rule.
    pub fn new() -> (rules: Self)
        ensures
            rules@ == Seq::<(Seq<char>, Seq<char>)>::empty(),
    {
        let rules = DisabledRules { entries: Vec::new() };
        assert(rules@ =~= Seq::<(Seq<char>, Seq<char>)>::empty());
        rules
    }

    /// How many rules are disabled.
    pub fn len(&self) -> (n: usize)
        ensures
            n == self@.len(),
            distinct_keys(self@),
    {
        proof {
            use_type_invariant(self);
        }
        self.entries.len()
    }

    /// The rule id and the reason at position `i`.
    pub fn entry(&self, i: usize) -> (entry: (&str, &str))
        requires
            i < self@.len(),
        ensures
            (entry.0@, entry.1@) == self@[i as int],
    {
        (self.entries[i].0.as_str(), self.entries[i].1.reason.as_str())
    }

    fn position(&self, rule_id: &str) -> (found: Option<usize>)
        ensures
            match found {
                Some(i) => holds_key(self@, rule_id@, i as int),
                None => forall|i: int| !holds_key(self@, rule_id@, i),
            },
    {
        let mut i: usize = 0;
        while i < self.entries.len()
            invariant
                i <= self.entries@.len(),
                forall|j: int| 0 <= j < i ==> !holds_key(self@, rule_id@, j),
            decreases self.entries@.len() - i,
        {
            assert(self@[i as int].0 == self.entries@[i as int].0@);
            if same_text(self.entries[i].0.as_str(), rule_id) {
                return Some(i);
            }
            i += 1;
        }
        None
    }

    /// The reason why `rule_id` is disabled, or `None` where it is not.
    pub fn get(&self, rule_id: &str) -> (reason: Option<&str>)
        ensures
            match reason {
                Some(text) => lookup(self@, rule_id@) == Some(text@),
                None => lookup(self@, rule_id@) is None,
            },
    {
        proof {
            use_type_invariant(self);
        }
        match self.position(rule_id) {
            Some(i) => {
                proof {
                    assert(holds_key(self@, rule_id@, i as int));
                    lemma_lookup(self@, rule_id@, i as int);
                    assert(self@[i as int].1 == self.entries@[i as int].1.reason@);
                }
                Some(self.entries[i].1.reason.as_str())
            },
            None => None,
        }
    }

    /// Disables `rule_id` for `rule.reason`, in place of an earlier reason where there is one.
    pub fn insert(&mut self, rule_id: String, rule: DisabledValidationRule)
        ensures
            match lookup(old(self)@, rule_id@) {
                Some(_) => exists|i: int|
                    holds_key(old(self)@, rule_id@, i) && final(self)@ == old(self)@.update(
                        i,
                        (rule_id@, rule.reason@),
                    ),
                None => final(self)@ == old(self)@.push((rule_id@, rule.reason@)),
            },
            lookup(final(self)@, rule_id@) == Some(rule.reason@),
            forall|key: Seq<char>|
                key != rule_id@ ==> #[trigger] lookup(final(self)@, key) == lookup(old(self)@, key),
    {
        proof {
            use_type_invariant(&*self);
        }
        let ghost before = self@;
        let ghost added = (rule_id@, rule.reason@);
        match self.position(rule_id.as_str()) {
            Some(i) => {
                let mut entries: Vec<(String, DisabledValidationRule)> = Vec::new();
                std::mem::swap(&mut entries, &mut self.entries);
                let ghost at = i as int;
                entries.set(i, (rule_id, rule));
                proof {
                    assert(texts_of(entries@) =~= before.update(at, added));
                    assert(holds_key(before, added.0, at));
                }
                let rules = DisabledRules { entries };
                proof {
                    assert forall|key: Seq<char>| key != added.0 implies #[trigger] lookup(
                        rules@,
                        key,
                    ) == lookup(before, key) by {
                        lemma_lookup_update(before, added, at, key);
                    }
                    assert(holds_key(rules@, added.0, at));
                    lemma_lookup(rules@, added.0, at);
                }
                *self = rules;
            },
            None => {
                let mut entries: Vec<(String, DisabledValidationRule)> = Vec::new();
                std::mem::swap(&mut entries, &mut self.entries);
                entries.push((rule_id, rule));
                proof {
                    assert(texts_of(entries@) =~= before.push(added));
                    assert forall|i: int| 0 <= i < before.len() implies #[trigger] before[i].0
                        != added.0 by {
                        assert(!holds_key(before, added.0, i));
                    }
                }
                let rules = DisabledRules { entries };
                proof {
                    assert forall|key: Seq<char>| key != added.0 implies #[trigger] lookup(
                        rules@,
                        key,
                    ) == lookup(before, key) by {
                        lemma_lookup_push(before, added, key);
                    }
                    assert(holds_key(rules@, added.0, before.len() as int));
                    lemma_lookup(rules@, added.0, before.len() as int);
                }
                *self = rules;
            },
        }
    }
}

proof fn lemma_lookup(entries: Seq<(Seq<char>, Seq<char>)>, key: Seq<char>, i: int)
    requires
        distinct_keys(entries),
        holds_key(entries, key, i),
    ensures
        lookup(entries, key) == Some(entries[i].1),
{
    let c = choose|i: int| holds_key(entries, key, i);
    assert(holds_key(entries, key, c));
    if c < i {
        assert(entries[c].0 != entries[i].0);
    }
    if i < c {
        assert(entries[i].0 != entries[c].0);
    }
}

proof fn lemma_lookup_push(
    entries: Seq<(Seq<char>, Seq<char>)>,
    added: (Seq<char>, Seq<char>),
    key: Seq<char>,
)
    requires
        distinct_keys(entries),
        distinct_keys(entries.push(added)),
        key != added.0,
    ensures
        lookup(entries.push(added), key) == lookup(entries, key),
{
    let after = entries.push(added);
    if exists|i: int| holds_key(after, key, i) {
        let i = choose|i: int| holds_key(after, key, i);
        assert(holds_key(entries, key, i));
        lemma_lookup(entries, key, i);
        lemma_lookup(after, key, i);
    } else {
        assert forall|i: int| !holds_key(entries, key, i) by {
            assert(!holds_key(after, key, i));
        }
    }
}

proof fn lemma_lookup_update(
    entries: Seq<(Seq<char>, Seq<char>)>,
    added: (Seq<char>, Seq<char>),
    at: int,
    key: Seq<char>,
)
    requires
        distinct_keys(entries),
        distinct_keys(entries.update(at, added)),
        holds_key(entries, added.0, at),
        key != added.0,
    ensures
        lookup(entries.update(at, added), key) == lookup(entries, key),
{
    let after = entries.update(at, added);
    if exists|i: int| holds_key(after, key, i) {
        let i = choose|i: int| holds_key(after, key, i);
        assert(holds_key(entries, key, i));
        lemma_lookup(entries, key, i);
        lemma_lookup(after, key, i);
    } else {
        assert forall|i: int| !holds_key(entries, key, i) by {
            assert(!holds_key(after, key, i));
        }
    }
}

// The rules on single values

/// Whether `text` is a feature that CLAP hosts know.
pub open spec fn is_clap_feature(text: Seq<char>) -> bool {
    ||| text == "audio-effect"@
    ||| text == "analyzer"@
    ||| text == "ambisonic"@
    ||| text == "chorus"@
    ||| text == "compressor"@
    ||| text == "de-esser"@
    ||| text == "delay"@
    ||| text == "instrument"@
    ||| text == "note-effect"@
    ||| text == "note-detector"@
    ||| text == "drum"@
    ||| text == "drum-machine"@
    ||| text == "equalizer"@
    ||| text == "expander"@
    ||| text == "filter"@
    ||| text == "flanger"@
    ||| text == "frequency-shifter"@
    ||| text == "gate"@
    ||| text == "glitch"@
    ||| text == "granular"@
    ||| text == "distortion"@
    ||| text == "limiter"@
    ||| text == "mastering"@
    ||| text == "mixing"@
    ||| text == "mono"@
    ||| text == "multi-effects"@
    ||| text == "phaser"@
    ||| text == "phase-vocoder"@
    ||| text == "pitch-correction"@
    ||| text == "pitch-shifter"@
    ||| text == "restoration"@
    ||| text == "reverb"@
    ||| text == "sampler"@
    ||| text == "stereo"@
    ||| text == "surround"@
    ||| text == "synthesizer"@
    ||| text == "transient-shaper"@
    ||| text == "tremolo"@
    ||| text == "utility"@
}

/// Whether `text` is an AAX plugin category.
pub open spec fn is_aax_category(text: Seq<char>) -> bool {
    ||| text == "eq"@
    ||| text == "dynamics"@
    ||| text == "pitch-shift"@
    ||| text == "reverb"@
    ||| text == "delay"@
    ||| text == "modulation"@
    ||| text == "harmonic"@
    ||| text == "noise-reduction"@
    ||| text == "dither"@
    ||| text == "sound-field"@
    ||| text == "hardware-generator"@
    ||| text == "software-generator"@
    ||| text == "wrapped-plugin"@
    ||| text == "effect"@
    ||| text == "midi-effect"@
}

/// Whether `text` is a stem format that AAX products can use.
pub open spec fn is_aax_stem_format(text: Seq<char>) -> bool {
    text == "mono"@ || text == "stereo"@
}

/// Whether `text` is four ASCII characters.
pub open spec fn is_four_ascii(text: Seq<char>) -> bool {
    text.len() == 4 && forall|i: int| 0 <= i < 4 ==> #[trigger] text[i] as u32 <= 127
}

/// `text` without any `c`.
pub open spec fn without(text: Seq<char>, c: char) -> Seq<char>
    decreases text.len(),
{
    if text.len() == 0 {
        text
    } else if text.last() == c {
        without(text.drop_last(), c)
    } else {
        without(text.drop_last(), c).push(text.last())
    }
}

/// Whether `text` holds only hexadecimal digits.
pub open spec fn all_hex(text: Seq<char>) -> bool {
    forall|i: int| 0 <= i < text.len() ==> is_hex_digit(#[trigger] text[i])
}

/// Whether `text` is a UUID: 32 hexadecimal digits, with hyphens anywhere.
pub open spec fn is_uuid(text: Seq<char>) -> bool {
    without(text, '-').len() == 32 && all_hex(without(text, '-'))
}

/// The error of an empty value.
pub open spec fn required_error(key: Seq<char>, value: Seq<char>) -> Option<Seq<char>> {
    if value.len() == 0 {
        Some(key + " must not be empty"@)
    } else {
        None
    }
}

/// The error of a value that is not four ASCII characters.
pub open spec fn four_ascii_error(key: Seq<char>, value: Seq<char>) -> Option<Seq<char>> {
    if is_four_ascii(value) {
        None
    } else {
        Some("package.metadata.wrac."@ + key + " must be exactly 4 ASCII bytes"@)
    }
}

/// The error of a value that is no UUID.
pub open spec fn uuid_error(label: Seq<char>, value: Seq<char>) -> Option<Seq<char>> {
    if is_uuid(value) {
        None
    } else {
        Some(label + " must be a UUID"@)
    }
}

/// The error of a feature that CLAP hosts do not know.
pub open spec fn clap_feature_error(feature: Seq<char>) -> Option<Seq<char>> {
    if is_clap_feature(feature) {
        None
    } else {
        Some("unsupported package.metadata.wrac.plugins.clap_features value: "@ + feature)
    }
}

/// The error of a text that is no AAX category.
pub open spec fn aax_category_error(category: Seq<char>) -> Option<Seq<char>> {
    if is_aax_category(category) {
        None
    } else {
        Some("unsupported package.metadata.wrac.plugins.aax_categories value: "@ + category)
    }
}

/// The error of a text that is no AAX stem format.
pub open spec fn aax_stem_format_error(label: Seq<char>, format: Seq<char>) -> Option<Seq<char>> {
    if is_aax_stem_format(format) {
        None
    } else {
        Some(label + " must be mono or stereo"@)
    }
}

/// Accepts the features that CLAP hosts know.
pub fn validate_clap_feature(text: &str) -> (result: Result<(), String>)
    ensures
        error_of(result) == clap_feature_error(text@),
{
    let known =
        same_text(text, "audio-effect")
        || same_text(text, "analyzer")
        || same_text(text, "ambisonic")
        || same_text(text, "chorus")
        || same_text(text, "compressor")
        || same_text(text, "de-esser")
        || same_text(text, "delay")
        || same_text(text, "instrument")
        || same_text(text, "note-effect")
        || same_text(text, "note-detector")
        || same_text(text, "drum")
        || same_text(text, "drum-machine")
        || same_text(text, "equalizer")
        || same_text(text, "expander")
        || same_text(text, "filter")
        || same_text(text, "flanger")
        || same_text(text, "frequency-shifter")
        || same_text(text, "gate")
        || same_text(text, "glitch")
        || same_text(text, "granular")
        || same_text(text, "distortion")
        || same_text(text, "limiter")
        || same_text(text, "mastering")
        || same_text(text, "mixing")
        || same_text(text, "mono")
        || same_text(text, "multi-effects")
        || same_text(text, "phaser")
        || same_text(text, "phase-vocoder")
        || same_text(text, "pitch-correction")
        || same_text(text, "pitch-shifter")
        || same_text(text, "restoration")
        || same_text(text, "reverb")
        || same_text(text, "sampler")
        || same_text(text, "stereo")
        || same_text(text, "surround")
        || same_text(text, "synthesizer")
        || same_text(text, "transient-shaper")
        || same_text(text, "tremolo")
        || same_text(text, "utility");
    if known {
        Ok(())
    } else {
        Err(join2("unsupported package.metadata.wrac.plugins.clap_features value: ", text))
    }
}

/// Accepts the AAX categories.
pub fn validate_aax_category(text: &str) -> (result: Result<(), String>)
    ensures
        error_of(result) == aax_category_error(text@),
{
    let known =
        same_text(text, "eq")
        || same_text(text, "dynamics")
        || same_text(text, "pitch-shift")
        || same_text(text, "reverb")
        || same_text(text, "delay")
        || same_text(text, "modulation")
        || same_text(text, "harmonic")
        || same_text(text, "noise-reduction")
        || same_text(text, "dither")
        || same_text(text, "sound-field")
        || same_text(text, "hardware-generator")
        || same_text(text, "software-generator")
        || same_text(text, "wrapped-plugin")
        || same_text(text, "effect")
        || same_text(text, "midi-effect");
    if known {
        Ok(())
    } else {
        Err(join2("unsupported package.metadata.wrac.plugins.aax_categories value: ", text))
    }
}

/// Accepts the AAX stem formats.
pub fn validate_aax_stem_format(label: &str, format: &str) -> (result: Result<(), String>)
    ensures
        error_of(result) == aax_stem_format_error(label@, format@),
{
    if same_text(format, "mono") || same_text(format, "stereo") {
        Ok(())
    } else {
        Err(join2(label, " must be mono or stereo"))
    }
}

/// Accepts a value that is not empty.
pub fn validate_required(key: &str, value: &str) -> (result: Result<(), String>)
    ensures
        error_of(result) == required_error(key@, value@),
{
    if value.is_empty() {
        Err(join2(key, " must not be empty"))
    } else {
        Ok(())
    }
}

/// Accepts a value of four ASCII characters.
pub fn validate_four_ascii(key: &str, value: &str) -> (result: Result<(), String>)
    ensures
        error_of(result) == four_ascii_error(key@, value@),
{
    let chars = chars_of(value);
    if chars.len() == 4 && (chars[0] as u32) < 128 && (chars[1] as u32) < 128 && (chars[2] as u32)
        < 128 && (chars[3] as u32) < 128 {
        Ok(())
    } else {
        Err(join3("package.metadata.wrac.", key, " must be exactly 4 ASCII bytes"))
    }
}

/// Accepts a UUID.
pub fn validate_uuid(label: &str, value: &str) -> (result: Result<(), String>)
    ensures
        error_of(result) == uuid_error(label@, value@),
{
    let chars = chars_of(value);
    let mut hex: Vec<char> = Vec::new();
    let mut i: usize = 0;
    while i < chars.len()
        invariant
            i <= chars@.len(),
            hex@ == without(chars@.take(i as int), '-'),
        decreases chars@.len() - i,
    {
        assert(chars@.take(i + 1).drop_last() =~= chars@.take(i as int));
        if chars[i] != '-' {
            hex.push(chars[i]);
        }
        i += 1;
    }
    assert(chars@.take(i as int) =~= value@);
    let mut all: bool = true;
    let mut k: usize = 0;
    while k < hex.len()
        invariant
            k <= hex@.len(),
            all == forall|j: int| 0 <= j < k ==> is_hex_digit(#[trigger] hex@[j]),
        decreases hex@.len() - k,
    {
        if !is_ascii_hexdigit(hex[k]) {
            all = false;
        }
        k += 1;
    }
    if hex.len() == 32 && all {
        Ok(())
    } else {
        Err(join2(label, " must be a UUID"))
    }
}

// The rules on the product

/// Whether the format at `i` stands in the list before.
pub open spec fn repeats_format(items: Seq<PluginFormat>, i: int) -> bool {
    exists|j: int| 0 <= j < i && #[trigger] items[j] == items[i]
}

/// Whether the plugin id of stem configuration `i` belongs to one before it.
pub open spec fn repeats_stem_id(items: Seq<AaxStemConfigMetadata>, i: int) -> bool {
    exists|j: int| 0 <= j < i && #[trigger] items[j].plugin_id@ == items[i].plugin_id@
}

/// Whether the id of plugin `i` belongs to one before it.
pub open spec fn repeats_plugin_id(items: Seq<PluginProductMetadata>, i: int) -> bool {
    exists|j: int| 0 <= j < i && #[trigger] items[j].plugin_id@ == items[i].plugin_id@
}

/// Whether the standalone name of plugin `i` belongs to one before it.
pub open spec fn repeats_standalone_name(items: Seq<PluginProductMetadata>, i: int) -> bool {
    exists|j: int| 0 <= j < i && #[trigger] items[j].standalone_name@ == items[i].standalone_name@
}

/// Whether the AUv2 type and subtype of plugin `i` belong to one before it.
pub open spec fn repeats_auv2_id(items: Seq<PluginProductMetadata>, i: int) -> bool {
    exists|j: int| 0 <= j < i && #[trigger] items[j].auv2_type@ == items[i].auv2_type@
        && items[j].auv2_subtype@ == items[i].auv2_subtype@
}

/// The first error of the formats from position `i` on.
pub open spec fn formats_error(formats: Seq<PluginFormat>, i: int) -> Option<Seq<char>>
    decreases formats.len() - i,
{
    if i < 0 || i >= formats.len() {
        None
    } else if repeats_format(formats, i) {
        Some("duplicate package.metadata.wrac.supported_formats entry: "@ + formats[i].label())
    } else {
        formats_error(formats, i + 1)
    }
}

/// The first error of the CLAP features from position `i` on.
pub open spec fn features_error(features: Seq<String>, i: int) -> Option<Seq<char>>
    decreases features.len() - i,
{
    if i < 0 || i >= features.len() {
        None
    } else {
        or_else(
            required_error("package.metadata.wrac.plugins.clap_features"@, features[i]@),
            or_else(clap_feature_error(features[i]@), features_error(features, i + 1)),
        )
    }
}

/// The first error of the AAX categories from position `i` on.
pub open spec fn categories_error(categories: Seq<String>, i: int) -> Option<Seq<char>>
    decreases categories.len() - i,
{
    if i < 0 || i >= categories.len() {
        None
    } else {
        or_else(aax_category_error(categories[i]@), categories_error(categories, i + 1))
    }
}

/// The first error of a stem configuration taken by itself.
pub open spec fn stem_error(config: AaxStemConfigMetadata) -> Option<Seq<char>> {
    or_else(
        required_error("package.metadata.wrac.plugins.aax_stem_configs.name"@, config.name@),
    or_else(
        aax_stem_format_error("package.metadata.wrac.plugins.aax_stem_configs.input"@, config.input@),
    or_else(
        aax_stem_format_error("package.metadata.wrac.plugins.aax_stem_configs.output"@, config.output@),
    or_else(
        four_ascii_error("plugins.aax_stem_configs.plugin_id"@, config.plugin_id@),
    None
    ))))
}

/// The first error of the stem configurations from position `i` on.
pub open spec fn stems_error(configs: Seq<AaxStemConfigMetadata>, i: int) -> Option<Seq<char>>
    decreases configs.len() - i,
{
    if i < 0 || i >= configs.len() {
        None
    } else {
        or_else(
            stem_error(configs[i]),
            if repeats_stem_id(configs, i) {
                Some(
                    "duplicate package.metadata.wrac.plugins.aax_stem_configs plugin_id: "@
                        + configs[i].plugin_id@,
                )
            } else {
                stems_error(configs, i + 1)
            },
        )
    }
}

/// The first error of a plugin's CLAP features.
pub open spec fn clap_features_error(plugin: PluginProductMetadata) -> Option<Seq<char>> {
    if plugin.clap_features@.len() == 0 {
        Some("package.metadata.wrac.plugins.clap_features must not be empty"@)
    } else {
        features_error(plugin.clap_features@, 0)
    }
}

/// The first error of a plugin's AAX categories.
pub open spec fn aax_categories_error(plugin: PluginProductMetadata) -> Option<Seq<char>> {
    if plugin.aax_categories@.len() == 0 {
        Some("package.metadata.wrac.plugins.aax_categories must not be empty"@)
    } else {
        categories_error(plugin.aax_categories@, 0)
    }
}

/// The first error of a plugin's AAX stem configurations.
pub open spec fn aax_stem_configs_error(plugin: PluginProductMetadata) -> Option<Seq<char>> {
    if plugin.aax_stem_configs@.len() == 0 {
        Some("package.metadata.wrac.plugins.aax_stem_configs must not be empty"@)
    } else {
        stems_error(plugin.aax_stem_configs@, 0)
    }
}

/// The first error of a plugin taken by itself.
pub open spec fn plugin_error(plugin: PluginProductMetadata) -> Option<Seq<char>> {
    or_else(
        plugin_names_error(plugin),
        or_else(
            clap_features_error(plugin),
            or_else(
                plugin_codes_error(plugin),
                or_else(
                    aax_categories_error(plugin),
                    or_else(
                        four_ascii_error("plugins.aax_product_id"@, plugin.aax_product_id@),
                        aax_stem_configs_error(plugin),
                    ),
                ),
            ),
        ),
    )
}

/// The first error of a plugin's id and name.
pub open spec fn plugin_names_error(plugin: PluginProductMetadata) -> Option<Seq<char>> {
    or_else(
        required_error("package.metadata.wrac.plugins.plugin_id"@, plugin.plugin_id@),
    or_else(
        required_error("package.metadata.wrac.plugins.plugin_name"@, plugin.plugin_name@),
    None
    ))
}

/// The first error of a plugin's VST3, standalone and AUv2 identity.
pub open spec fn plugin_codes_error(plugin: PluginProductMetadata) -> Option<Seq<char>> {
    or_else(
        required_error("package.metadata.wrac.plugins.vst3_subcategories"@, plugin.vst3_subcategories@),
    or_else(
        uuid_error("package.metadata.wrac.plugins.vst3_component_id"@, plugin.vst3_component_id@),
    or_else(
        required_error("package.metadata.wrac.plugins.standalone_name"@, plugin.standalone_name@),
    or_else(
        four_ascii_error("auv2_type"@, plugin.auv2_type@),
    or_else(
        four_ascii_error("auv2_subtype"@, plugin.auv2_subtype@),
    None
    )))))
}

/// The error of a plugin whose identity belongs to one before it.
pub open spec fn repeated_plugin_error(
    plugins: Seq<PluginProductMetadata>,
    i: int,
) -> Option<Seq<char>> {
    if repeats_plugin_id(plugins, i) {
        Some("duplicate package.metadata.wrac.plugins plugin_id: "@ + plugins[i].plugin_id@)
    } else if repeats_standalone_name(plugins, i) {
        Some(
            "duplicate package.metadata.wrac.plugins standalone_name: "@
                + plugins[i].standalone_name@,
        )
    } else if repeats_auv2_id(plugins, i) {
        Some(
            "duplicate package.metadata.wrac.plugins AUv2 type/subtype: "@ + plugins[i].auv2_type@
                + "/"@ + plugins[i].auv2_subtype@,
        )
    } else {
        None
    }
}

/// The first error of the plugins from position `i` on.
pub open spec fn plugins_error(plugins: Seq<PluginProductMetadata>, i: int) -> Option<Seq<char>>
    decreases plugins.len() - i,
{
    if i < 0 || i >= plugins.len() {
        None
    } else {
        or_else(
            plugin_error(plugins[i]),
            or_else(repeated_plugin_error(plugins, i), plugins_error(plugins, i + 1)),
        )
    }
}

/// The first error of the disabled rules from position `i` on.
pub open spec fn reasons_error(rules: Seq<(Seq<char>, Seq<char>)>, i: int) -> Option<Seq<char>>
    decreases rules.len() - i,
{
    if i < 0 || i >= rules.len() {
        None
    } else {
        or_else(
            required_error(
                "package.metadata.wrac.validation.disabled_rules."@ + rules[i].0 + ".reason"@,
                trimmed(rules[i].1),
            ),
            reasons_error(rules, i + 1),
        )
    }
}

/// The first error of the CLAP validator settings.
pub open spec fn clap_validator_error(settings: ClapValidatorMetadata) -> Option<Seq<char>> {
    match settings.skip_test_filter {
        None => None,
        Some(filter) => or_else(
            required_error(
                "package.metadata.wrac.validation.clap_validator.skip_test_filter"@,
                trimmed(filter@),
            ),
            required_error(
                "package.metadata.wrac.validation.clap_validator.skip_reason"@,
                match settings.skip_reason {
                    Some(reason) => trimmed(reason@),
                    None => Seq::empty(),
                },
            ),
        ),
    }
}

/// The first error of the product's own fields.
pub open spec fn product_error(metadata: PluginMetadata) -> Option<Seq<char>> {
    or_else(
        required_error("package.name"@, metadata.package_name@),
    or_else(
        required_error("package.version"@, metadata.version@),
    or_else(
        required_error("package.metadata.wrac.company_name"@, metadata.company_name@),
    or_else(
        four_ascii_error("auv2_manufacturer_code"@, metadata.auv2_manufacturer_code@),
    or_else(
        four_ascii_error("aax_manufacturer_id"@, metadata.aax_manufacturer_id@),
    or_else(
        required_error("package.metadata.wrac.bundle_name"@, metadata.bundle_name@),
    or_else(
        required_error("package.metadata.wrac.bundle_identifier"@, metadata.bundle_identifier@),
    or_else(
        required_error("package.metadata.wrac.homepage_url"@, metadata.homepage_url@),
    or_else(
        required_error("package.metadata.wrac.manual_url"@, metadata.manual_url@),
    or_else(
        required_error("package.metadata.wrac.support_url"@, metadata.support_url@),
    or_else(
        required_error("package.metadata.wrac.description"@, metadata.description@),
    or_else(
        required_error("package.metadata.wrac.copyright"@, metadata.copyright@),
    None
    ))))))))))))
}

/// The first error of the list of supported formats.
pub open spec fn supported_formats_error(formats: Seq<PluginFormat>) -> Option<Seq<char>> {
    if formats.len() == 0 {
        Some("package.metadata.wrac.supported_formats must not be empty"@)
    } else {
        formats_error(formats, 0)
    }
}

/// The first error of the list of plugins.
pub open spec fn all_plugins_error(plugins: Seq<PluginProductMetadata>) -> Option<Seq<char>> {
    if plugins.len() == 0 {
        Some("package.metadata.wrac.plugins must contain at least one plugin"@)
    } else {
        plugins_error(plugins, 0)
    }
}

/// The first error of the metadata, in the order in which the rules are applied.
pub open spec fn metadata_error(metadata: PluginMetadata) -> Option<Seq<char>> {
    or_else(
        product_error(metadata),
        or_else(
            supported_formats_error(metadata.supported_formats@),
            or_else(
                all_plugins_error(metadata.plugins@),
                or_else(
                    reasons_error(metadata.validation.disabled_rules@, 0),
                    clap_validator_error(metadata.validation.clap_validator),
                ),
            ),
        ),
    )
}

fn is_repeated_format(items: &Vec<PluginFormat>, i: usize) -> (repeated: bool)
    requires
        i < items@.len(),
    ensures
        repeated == repeats_format(items@, i as int),
{
    let mut j: usize = 0;
    while j < i
        invariant
            j <= i < items@.len(),
            forall|k: int| 0 <= k < j ==> !(#[trigger] items@[k] == items@[i as int]),
        decreases i - j,
    {
        if items[j] == items[i] {
            return true;
        }
        j += 1;
    }
    false
}

fn is_repeated_stem_id(items: &Vec<AaxStemConfigMetadata>, i: usize) -> (repeated: bool)
    requires
        i < items@.len(),
    ensures
        repeated == repeats_stem_id(items@, i as int),
{
    let mut j: usize = 0;
    while j < i
        invariant
            j <= i < items@.len(),
            forall|k: int| 0 <= k < j ==> !(#[trigger] items@[k].plugin_id@ == items@[i as int].plugin_id@),
        decreases i - j,
    {
        if same_text(items[j].plugin_id.as_str(), items[i].plugin_id.as_str()) {
            return true;
        }
        j += 1;
    }
    false
}

fn is_repeated_plugin_id(items: &Vec<PluginProductMetadata>, i: usize) -> (repeated: bool)
    requires
        i < items@.len(),
    ensures
        repeated == repeats_plugin_id(items@, i as int),
{
    let mut j: usize = 0;
    while j < i
        invariant
            j <= i < items@.len(),
            forall|k: int| 0 <= k < j ==> !(#[trigger] items@[k].plugin_id@ == items@[i as int].plugin_id@),
        decreases i - j,
    {
        if same_text(items[j].plugin_id.as_str(), items[i].plugin_id.as_str()) {
            return true;
        }
        j += 1;
    }
    false
}

fn is_repeated_standalone_name(items: &Vec<PluginProductMetadata>, i: usize) -> (repeated: bool)
    requires
        i < items@.len(),
    ensures
        repeated == repeats_standalone_name(items@, i as int),
{
    let mut j: usize = 0;
    while j < i
        invariant
            j <= i < items@.len(),
            forall|k: int| 0 <= k < j ==> !(#[trigger] items@[k].standalone_name@ == items@[i as int].standalone_name@),
        decreases i - j,
    {
        if same_text(items[j].standalone_name.as_str(), items[i].standalone_name.as_str()) {
            return true;
        }
        j += 1;
    }
    false
}

fn is_repeated_auv2_id(items: &Vec<PluginProductMetadata>, i: usize) -> (repeated: bool)
    requires
        i < items@.len(),
    ensures
        repeated == repeats_auv2_id(items@, i as int),
{
    let mut j: usize = 0;
    while j < i
        invariant
            j <= i < items@.len(),
            forall|k: int| 0 <= k < j ==> !(#[trigger] items@[k].auv2_type@ == items@[i as int].auv2_type@ && items@[k].auv2_subtype@ == items@[i as int].auv2_subtype@),
        decreases i - j,
    {
        if same_text(items[j].auv2_type.as_str(), items[i].auv2_type.as_str())
            && same_text(items[j].auv2_subtype.as_str(), items[i].auv2_subtype.as_str()) {
            return true;
        }
        j += 1;
    }
    false
}

fn validate_features(items: &Vec<String>) -> (result: Result<(), String>)
    ensures
        error_of(result) == features_error(items@, 0),
{
    let mut i: usize = 0;
    while i < items.len()
        invariant
            i <= items@.len(),
            features_error(items@, 0) == features_error(items@, i as int),
        decreases items@.len() - i,
    {
        if let Err(message) = validate_required(
            "package.metadata.wrac.plugins.clap_features",
            items[i].as_str(),
        ) {
            return Err(message);
        }
        if let Err(message) = validate_clap_feature(items[i].as_str()) {
            return Err(message);
        }
        i += 1;
    }
    Ok(())
}

fn validate_categories(items: &Vec<String>) -> (result: Result<(), String>)
    ensures
        error_of(result) == categories_error(items@, 0),
{
    let mut i: usize = 0;
    while i < items.len()
        invariant
            i <= items@.len(),
            categories_error(items@, 0) == categories_error(items@, i as int),
        decreases items@.len() - i,
    {
        if let Err(message) = validate_aax_category(items[i].as_str()) {
            return Err(message);
        }
        i += 1;
    }
    Ok(())
}

fn validate_stem_configs(items: &Vec<AaxStemConfigMetadata>) -> (result: Result<(), String>)
    ensures
        error_of(result) == stems_error(items@, 0),
{
    let mut i: usize = 0;
    while i < items.len()
        invariant
            i <= items@.len(),
            stems_error(items@, 0) == stems_error(items@, i as int),
        decreases items@.len() - i,
    {
        let config = &items[i];
        if let Err(message) = validate_required("package.metadata.wrac.plugins.aax_stem_configs.name", config.name.as_str()) {
            return Err(message);
        }
        if let Err(message) = validate_aax_stem_format("package.metadata.wrac.plugins.aax_stem_configs.input", config.input.as_str()) {
            return Err(message);
        }
        if let Err(message) = validate_aax_stem_format("package.metadata.wrac.plugins.aax_stem_configs.output", config.output.as_str()) {
            return Err(message);
        }
        if let Err(message) = validate_four_ascii("plugins.aax_stem_configs.plugin_id", config.plugin_id.as_str()) {
            return Err(message);
        }
        if is_repeated_stem_id(items, i) {
            return Err(
                join2(
                    "duplicate package.metadata.wrac.plugins.aax_stem_configs plugin_id: ",
                    config.plugin_id.as_str(),
                ),
            );
        }
        i += 1;
    }
    Ok(())
}

fn validate_formats(items: &Vec<PluginFormat>) -> (result: Result<(), String>)
    ensures
        error_of(result) == formats_error(items@, 0),
{
    let mut i: usize = 0;
    while i < items.len()
        invariant
            i <= items@.len(),
            formats_error(items@, 0) == formats_error(items@, i as int),
        decreases items@.len() - i,
    {
        if is_repeated_format(items, i) {
            return Err(
                join2(
                    "duplicate package.metadata.wrac.supported_formats entry: ",
                    items[i].display(),
                ),
            );
        }
        i += 1;
    }
    Ok(())
}

impl PluginProductMetadata {
    /// Applies the rules that concern one plugin by itself.
    fn validate(&self) -> (result: Result<(), String>)
        ensures
            error_of(result) == plugin_error(*self),
    {
        if let Err(message) = validate_required("package.metadata.wrac.plugins.plugin_id", self.plugin_id.as_str()) {
            return Err(message);
        }
        if let Err(message) = validate_required("package.metadata.wrac.plugins.plugin_name", self.plugin_name.as_str()) {
            return Err(message);
        }
        if self.clap_features.is_empty() {
            return Err("package.metadata.wrac.plugins.clap_features must not be empty".to_owned());
        }
        if let Err(message) = validate_features(&self.clap_features) {
            return Err(message);
        }
        if let Err(message) = validate_required("package.metadata.wrac.plugins.vst3_subcategories", self.vst3_subcategories.as_str()) {
            return Err(message);
        }
        if let Err(message) = validate_uuid("package.metadata.wrac.plugins.vst3_component_id", self.vst3_component_id.as_str()) {
            return Err(message);
        }
        if let Err(message) = validate_required("package.metadata.wrac.plugins.standalone_name", self.standalone_name.as_str()) {
            return Err(message);
        }
        if let Err(message) = validate_four_ascii("auv2_type", self.auv2_type.as_str()) {
            return Err(message);
        }
        if let Err(message) = validate_four_ascii("auv2_subtype", self.auv2_subtype.as_str()) {
            return Err(message);
        }
        if self.aax_categories.is_empty() {
            return Err("package.metadata.wrac.plugins.aax_categories must not be empty".to_owned());
        }
        if let Err(message) = validate_categories(&self.aax_categories) {
            return Err(message);
        }
        if let Err(message) = validate_four_ascii("plugins.aax_product_id", self.aax_product_id.as_str()) {
            return Err(message);
        }
        if self.aax_stem_configs.is_empty() {
            return Err("package.metadata.wrac.plugins.aax_stem_configs must not be empty".to_owned());
        }
        validate_stem_configs(&self.aax_stem_configs)
    }
}

fn validate_plugins(items: &Vec<PluginProductMetadata>) -> (result: Result<(), String>)
    ensures
        error_of(result) == plugins_error(items@, 0),
{
    let mut i: usize = 0;
    while i < items.len()
        invariant
            i <= items@.len(),
            plugins_error(items@, 0) == plugins_error(items@, i as int),
        decreases items@.len() - i,
    {
        let plugin = &items[i];
        if let Err(message) = plugin.validate() {
            return Err(message);
        }
        if is_repeated_plugin_id(items, i) {
            return Err(
                join2(
                    "duplicate package.metadata.wrac.plugins plugin_id: ",
                    plugin.plugin_id.as_str(),
                ),
            );
        }
        if is_repeated_standalone_name(items, i) {
            return Err(
                join2(
                    "duplicate package.metadata.wrac.plugins standalone_name: ",
                    plugin.standalone_name.as_str(),
                ),
            );
        }
        if is_repeated_auv2_id(items, i) {
            let mut message = join3(
                "duplicate package.metadata.wrac.plugins AUv2 type/subtype: ",
                plugin.auv2_type.as_str(),
                "/",
            );
            message.append(plugin.auv2_subtype.as_str());
            return Err(message);
        }
        i += 1;
    }
    Ok(())
}

fn validate_reasons(rules: &DisabledRules) -> (result: Result<(), String>)
    ensures
        error_of(result) == reasons_error(rules@, 0),
{
    let count: usize = rules.len();
    let mut i: usize = 0;
    while i < count
        invariant
            i <= count == rules@.len(),
            reasons_error(rules@, 0) == reasons_error(rules@, i as int),
        decreases count - i,
    {
        let (rule_id, reason) = rules.entry(i);
        let key = join3("package.metadata.wrac.validation.disabled_rules.", rule_id, ".reason");
        if let Err(message) = validate_required(key.as_str(), trim(reason).as_str()) {
            return Err(message);
        }
        i += 1;
    }
    Ok(())
}

impl ClapValidatorMetadata {
    fn validate(&self) -> (result: Result<(), String>)
        ensures
            error_of(result) == clap_validator_error(*self),
    {
        match &self.skip_test_filter {
            None => Ok(()),
            Some(filter) => {
                if let Err(message) = validate_required(
                    "package.metadata.wrac.validation.clap_validator.skip_test_filter",
                    trim(filter.as_str()).as_str(),
                ) {
                    return Err(message);
                }
                let reason = match &self.skip_reason {
                    Some(reason) => trim(reason.as_str()),
                    None => String::new(),
                };
                validate_required(
                    "package.metadata.wrac.validation.clap_validator.skip_reason",
                    reason.as_str(),
                )
            },
        }
    }
}

impl PluginMetadata {
    /// Applies every rule on the metadata in order and reports the first that is broken.
    pub fn validate(&self) -> (result: Result<(), String>)
        ensures
            error_of(result) == metadata_error(*self),
    {
        if let Err(message) = validate_required("package.name", self.package_name.as_str()) {
            return Err(message);
        }
        if let Err(message) = validate_required("package.version", self.version.as_str()) {
            return Err(message);
        }
        if let Err(message) = validate_required("package.metadata.wrac.company_name", self.company_name.as_str()) {
            return Err(message);
        }
        if let Err(message) = validate_four_ascii("auv2_manufacturer_code", self.auv2_manufacturer_code.as_str()) {
            return Err(message);
        }
        if let Err(message) = validate_four_ascii("aax_manufacturer_id", self.aax_manufacturer_id.as_str()) {
            return Err(message);
        }
        if let Err(message) = validate_required("package.metadata.wrac.bundle_name", self.bundle_name.as_str()) {
            return Err(message);
        }
        if let Err(message) = validate_required("package.metadata.wrac.bundle_identifier", self.bundle_identifier.as_str()) {
            return Err(message);
        }
        if let Err(message) = validate_required("package.metadata.wrac.homepage_url", self.homepage_url.as_str()) {
            return Err(message);
        }
        if let Err(message) = validate_required("package.metadata.wrac.manual_url", self.manual_url.as_str()) {
            return Err(message);
        }
        if let Err(message) = validate_required("package.metadata.wrac.support_url", self.support_url.as_str()) {
            return Err(message);
        }
        if let Err(message) = validate_required("package.metadata.wrac.description", self.description.as_str()) {
            return Err(message);
        }
        if let Err(message) = validate_required("package.metadata.wrac.copyright", self.copyright.as_str()) {
            return Err(message);
        }
        if self.supported_formats.is_empty() {
            return Err("package.metadata.wrac.supported_formats must not be empty".to_owned());
        }
        if let Err(message) = validate_formats(&self.supported_formats) {
            return Err(message);
        }
        if self.plugins.is_empty() {
            return Err("package.metadata.wrac.plugins must contain at least one plugin".to_owned());
        }
        if let Err(message) = validate_plugins(&self.plugins) {
            return Err(message);
        }
        if let Err(message) = validate_reasons(&self.validation.disabled_rules) {
            return Err(message);
        }
        self.validation.clap_validator.validate()
    }

    /// The name of the CLAP bundle.
    pub fn clap_bundle_name(&self) -> (name: String)
        ensures
            name@ == self.bundle_name@ + ".clap"@,
    {
        join2(self.bundle_name.as_str(), ".clap")
    }

    /// The name of the VST3 bundle.
    pub fn vst3_bundle_name(&self) -> (name: String)
        ensures
            name@ == self.bundle_name@ + ".vst3"@,
    {
        join2(self.bundle_name.as_str(), ".vst3")
    }

    /// The name of the AAX bundle.
    pub fn aax_bundle_name(&self) -> (name: String)
        ensures
            name@ == self.bundle_name@ + ".aaxplugin"@,
    {
        join2(self.bundle_name.as_str(), ".aaxplugin")
    }

    /// The name of the Audio Unit bundle.
    pub fn au_bundle_name(&self) -> (name: String)
        ensures
            name@ == self.bundle_name@ + ".component"@,
    {
        join2(self.bundle_name.as_str(), ".component")
    }

    /// The plugin whose id stands for the whole bundle: the first one.
    pub fn bundle_identity_plugin(&self) -> (plugin: &PluginProductMetadata)
        requires
            self.plugins@.len() > 0,
        ensures
            *plugin == self.plugins@[0],
    {
        &self.plugins[0]
    }
}

// What accepted metadata guarantees

/// Accepted metadata names at least one format and none twice, and at least one plugin, so
/// that the bundle has an identity. No two plugins share an id, a standalone name, or an
/// AUv2 type and subtype.
pub proof fn accepted_metadata_is_unambiguous(metadata: PluginMetadata)
    requires
        metadata_error(metadata) is None,
    ensures
        metadata.supported_formats@.len() > 0,
        metadata.plugins@.len() > 0,
        metadata.supported_formats@.no_duplicates(),
        forall|i: int, j: int|
            #![trigger metadata.plugins@[i], metadata.plugins@[j]]
            0 <= i < j < metadata.plugins@.len() ==> {
                let a = metadata.plugins@[i];
                let b = metadata.plugins@[j];
                &&& a.plugin_id@ != b.plugin_id@
                &&& a.standalone_name@ != b.standalone_name@
                &&& !(a.auv2_type@ == b.auv2_type@ && a.auv2_subtype@ == b.auv2_subtype@)
            },
{
    let formats = metadata.supported_formats@;
    let plugins = metadata.plugins@;
    assert forall|i: int, j: int| 0 <= i < j < formats.len() implies formats[i] != formats[j] by {
        lemma_formats_accepted(formats, 0, j);
    }
    assert forall|i: int, j: int|
        #![trigger plugins[i], plugins[j]]
        0 <= i < j < plugins.len() implies {
        let a = plugins[i];
        let b = plugins[j];
        &&& a.plugin_id@ != b.plugin_id@
        &&& a.standalone_name@ != b.standalone_name@
        &&& !(a.auv2_type@ == b.auv2_type@ && a.auv2_subtype@ == b.auv2_subtype@)
    } by {
        lemma_plugins_accepted(plugins, 0, j);
    }
}

/// Every plugin of accepted metadata has at least one stem configuration, and no two of them
/// share a plugin id.
pub proof fn accepted_stem_ids_are_distinct(metadata: PluginMetadata, i: int)
    requires
        metadata_error(metadata) is None,
        0 <= i < metadata.plugins@.len(),
    ensures
        metadata.plugins@[i].aax_stem_configs@.len() > 0,
        forall|j: int, k: int|
            #![trigger metadata.plugins@[i].aax_stem_configs@[j], metadata.plugins@[i].aax_stem_configs@[k]]
            0 <= j < k < metadata.plugins@[i].aax_stem_configs@.len()
                ==> metadata.plugins@[i].aax_stem_configs@[j].plugin_id@
                != metadata.plugins@[i].aax_stem_configs@[k].plugin_id@,
{
    lemma_plugins_accepted(metadata.plugins@, 0, i);
    let configs = metadata.plugins@[i].aax_stem_configs@;
    assert forall|j: int, k: int|
        #![trigger configs[j], configs[k]]
        0 <= j < k < configs.len() implies configs[j].plugin_id@ != configs[k].plugin_id@ by {
        lemma_stems_accepted(configs, 0, k);
    }
}

proof fn lemma_formats_accepted(formats: Seq<PluginFormat>, from: int, i: int)
    requires
        0 <= from <= i < formats.len(),
        formats_error(formats, from) is None,
    ensures
        !repeats_format(formats, i),
    decreases i - from,
{
    if from < i {
        lemma_formats_accepted(formats, from + 1, i);
    }
}

proof fn lemma_plugins_accepted(plugins: Seq<PluginProductMetadata>, from: int, i: int)
    requires
        0 <= from <= i < plugins.len(),
        plugins_error(plugins, from) is None,
    ensures
        plugin_error(plugins[i]) is None,
        repeated_plugin_error(plugins, i) is None,
    decreases i - from,
{
    if from < i {
        lemma_plugins_accepted(plugins, from + 1, i);
    }
}

proof fn lemma_stems_accepted(configs: Seq<AaxStemConfigMetadata>, from: int, i: int)
    requires
        0 <= from <= i < configs.len(),
        stems_error(configs, from) is None,
    ensures
        !repeats_stem_id(configs, i),
    decreases i - from,
{
    if from < i {
        lemma_stems_accepted(configs, from + 1, i);
    }
}

/// Whether a text is a code of four ASCII characters.
pub open spec fn is_code(text: Seq<char>) -> bool {
    text.len() == 4 && (text[0] as u32) < 0x80 && (text[1] as u32) < 0x80 && (text[2] as u32) < 0x80
        && (text[3] as u32) < 0x80
}

/// Whether a product says of itself what every product has to.
pub open spec fn product_is_complete(metadata: PluginMetadata) -> bool {
    &&& metadata.package_name@.len() > 0
    &&& metadata.version@.len() > 0
    &&& metadata.company_name@.len() > 0
    &&& is_code(metadata.auv2_manufacturer_code@)
    &&& is_code(metadata.aax_manufacturer_id@)
    &&& metadata.bundle_name@.len() > 0
    &&& metadata.bundle_identifier@.len() > 0
    &&& metadata.homepage_url@.len() > 0
    &&& metadata.manual_url@.len() > 0
    &&& metadata.support_url@.len() > 0
    &&& metadata.description@.len() > 0
    &&& metadata.copyright@.len() > 0
}

/// Whether a stem configuration has a name, a code of its own and formats that can be used.
pub open spec fn stem_is_complete(config: AaxStemConfigMetadata) -> bool {
    &&& config.name@.len() > 0
    &&& config.input@ == "mono"@ || config.input@ == "stereo"@
    &&& config.output@ == "mono"@ || config.output@ == "stereo"@
    &&& is_code(config.plugin_id@)
}

/// Whether a plugin says of itself what every plugin has to, in every format.
pub open spec fn plugin_is_complete(plugin: PluginProductMetadata) -> bool {
    &&& plugin.plugin_id@.len() > 0
    &&& plugin.plugin_name@.len() > 0
    &&& plugin.clap_features@.len() > 0
    &&& forall|i: int|
        0 <= i < plugin.clap_features@.len() ==> (#[trigger] plugin.clap_features@[i])@.len() > 0
            && is_clap_feature(plugin.clap_features@[i]@)
    &&& plugin.vst3_subcategories@.len() > 0
    &&& is_uuid(plugin.vst3_component_id@)
    &&& plugin.standalone_name@.len() > 0
    &&& is_code(plugin.auv2_type@)
    &&& is_code(plugin.auv2_subtype@)
    &&& plugin.aax_categories@.len() > 0
    &&& forall|i: int|
        0 <= i < plugin.aax_categories@.len() ==> is_aax_category(
            (#[trigger] plugin.aax_categories@[i])@,
        )
    &&& is_code(plugin.aax_product_id@)
    &&& plugin.aax_stem_configs@.len() > 0
    &&& forall|i: int|
        0 <= i < plugin.aax_stem_configs@.len() ==> stem_is_complete(
            #[trigger] plugin.aax_stem_configs@[i],
        )
    &&& forall|i: int, j: int|
        0 <= i < j < plugin.aax_stem_configs@.len() ==> (
        #[trigger] plugin.aax_stem_configs@[i]).plugin_id@ != (
        #[trigger] plugin.aax_stem_configs@[j]).plugin_id@
}

/// Whether two plugins can be told apart in every format.
pub open spec fn plugins_are_apart(a: PluginProductMetadata, b: PluginProductMetadata) -> bool {
    &&& a.plugin_id@ != b.plugin_id@
    &&& a.standalone_name@ != b.standalone_name@
    &&& a.auv2_type@ != b.auv2_type@ || a.auv2_subtype@ != b.auv2_subtype@
}

/// Metadata is accepted exactly where the product and each of its plugins say all that they have
/// to, no format is named twice, the plugins can be told apart, every rule that is disabled is so
/// for a reason, and so is every test that is left out.
pub proof fn complete_metadata_is_accepted(metadata: PluginMetadata, result: Result<(), String>)
    requires
        call_ensures(PluginMetadata::validate, (&metadata,), result),
    ensures
        result is Ok <==> {
            &&& product_is_complete(metadata)
            &&& metadata.supported_formats@.len() > 0
            &&& metadata.supported_formats@.no_duplicates()
            &&& metadata.plugins@.len() > 0
            &&& forall|i: int|
                0 <= i < metadata.plugins@.len() ==> plugin_is_complete(
                    #[trigger] metadata.plugins@[i],
                )
            &&& forall|i: int, j: int|
                0 <= i < j < metadata.plugins@.len() ==> plugins_are_apart(
                    #[trigger] metadata.plugins@[i],
                    #[trigger] metadata.plugins@[j],
                )
            &&& forall|i: int|
                0 <= i < metadata.validation.disabled_rules@.len() ==> trimmed(
                    (#[trigger] metadata.validation.disabled_rules@[i]).1,
                ).len() > 0
            &&& metadata.validation.clap_validator.skip_test_filter matches Some(filter) ==> {
                &&& trimmed(filter@).len() > 0
                &&& metadata.validation.clap_validator.skip_reason is Some
                &&& trimmed(metadata.validation.clap_validator.skip_reason->Some_0@).len() > 0
            }
        },
{
    lemma_product_accepted(metadata);
    lemma_formats_iff(metadata.supported_formats@, 0);
    lemma_plugins_iff(metadata.plugins@, 0);
    lemma_reasons_iff(metadata.validation.disabled_rules@, 0);
    let formats = metadata.supported_formats@;
    if forall|i: int| 0 <= i < formats.len() ==> !#[trigger] repeats_format(formats, i) {
        assert forall|i: int, j: int| 0 <= i < j < formats.len() implies formats[i]
            != formats[j] by {
            assert(!repeats_format(formats, j));
        }
    }
    if formats.no_duplicates() {
        assert forall|i: int| 0 <= i < formats.len() implies !#[trigger] repeats_format(
            formats,
            i,
        ) by {}
    }
    let plugins = metadata.plugins@;
    if forall|i: int| 0 <= i < plugins.len() ==> #[trigger] repeated_plugin_error(plugins, i) is None {
        assert forall|i: int, j: int| 0 <= i < j < plugins.len() implies plugins_are_apart(
            #[trigger] plugins[i],
            #[trigger] plugins[j],
        ) by {
            assert(repeated_plugin_error(plugins, j) is None);
        }
    }
    if forall|i: int, j: int|
        0 <= i < j < plugins.len() ==> plugins_are_apart(
            #[trigger] plugins[i],
            #[trigger] plugins[j],
        ) {
        assert forall|i: int| 0 <= i < plugins.len() implies #[trigger] repeated_plugin_error(
            plugins,
            i,
        ) is None by {}
    }
}

proof fn lemma_code(text: Seq<char>)
    ensures
        is_code(text) == is_four_ascii(text),
{
    if text.len() == 4 && is_code(text) {
        assert forall|i: int| 0 <= i < 4 implies #[trigger] text[i] as u32 <= 127 by {}
    }
}

proof fn lemma_product_accepted(metadata: PluginMetadata)
    ensures
        product_error(metadata) is None <==> product_is_complete(metadata),
{
    lemma_code(metadata.auv2_manufacturer_code@);
    lemma_code(metadata.aax_manufacturer_id@);
}

proof fn lemma_formats_iff(formats: Seq<PluginFormat>, from: int)
    requires
        0 <= from <= formats.len(),
    ensures
        formats_error(formats, from) is None <==> forall|i: int|
            from <= i < formats.len() ==> !#[trigger] repeats_format(formats, i),
    decreases formats.len() - from,
{
    if from < formats.len() {
        lemma_formats_iff(formats, from + 1);
    }
}

proof fn lemma_plugins_iff(plugins: Seq<PluginProductMetadata>, from: int)
    requires
        0 <= from <= plugins.len(),
    ensures
        plugins_error(plugins, from) is None <==> (forall|i: int|
            from <= i < plugins.len() ==> plugin_is_complete(#[trigger] plugins[i])) && (forall|i: int|
            from <= i < plugins.len() ==> #[trigger] repeated_plugin_error(plugins, i) is None),
    decreases plugins.len() - from,
{
    if from < plugins.len() {
        lemma_plugins_iff(plugins, from + 1);
        lemma_plugin_iff(plugins[from]);
        if plugins_error(plugins, from) is None {
            assert forall|i: int| from <= i < plugins.len() implies plugin_is_complete(
                #[trigger] plugins[i],
            ) by {
                if i > from {
                    assert(plugin_is_complete(plugins[i]));
                }
            }
        }
    }
}

proof fn lemma_plugin_iff(plugin: PluginProductMetadata)
    ensures
        plugin_error(plugin) is None <==> plugin_is_complete(plugin),
{
    lemma_code(plugin.auv2_type@);
    lemma_code(plugin.auv2_subtype@);
    lemma_code(plugin.aax_product_id@);
    lemma_features_iff(plugin.clap_features@, 0);
    lemma_categories_iff(plugin.aax_categories@, 0);
    lemma_stems_iff(plugin.aax_stem_configs@, 0);
    let configs = plugin.aax_stem_configs@;
    if forall|i: int| 0 <= i < configs.len() ==> !#[trigger] repeats_stem_id(configs, i) {
        assert forall|i: int, j: int| 0 <= i < j < configs.len() implies (
        #[trigger] configs[i]).plugin_id@ != (#[trigger] configs[j]).plugin_id@ by {
            assert(!repeats_stem_id(configs, j));
        }
    }
    if plugin_is_complete(plugin) {
        assert forall|i: int| 0 <= i < configs.len() implies !#[trigger] repeats_stem_id(
            configs,
            i,
        ) by {}
    }
}

proof fn lemma_features_iff(features: Seq<String>, from: int)
    requires
        0 <= from <= features.len(),
    ensures
        features_error(features, from) is None <==> forall|i: int|
            from <= i < features.len() ==> (#[trigger] features[i])@.len() > 0 && is_clap_feature(
                features[i]@,
            ),
    decreases features.len() - from,
{
    if from < features.len() {
        lemma_features_iff(features, from + 1);
    }
}

proof fn lemma_categories_iff(categories: Seq<String>, from: int)
    requires
        0 <= from <= categories.len(),
    ensures
        categories_error(categories, from) is None <==> forall|i: int|
            from <= i < categories.len() ==> is_aax_category((#[trigger] categories[i])@),
    decreases categories.len() - from,
{
    if from < categories.len() {
        lemma_categories_iff(categories, from + 1);
    }
}

proof fn lemma_stems_iff(configs: Seq<AaxStemConfigMetadata>, from: int)
    requires
        0 <= from <= configs.len(),
    ensures
        stems_error(configs, from) is None <==> (forall|i: int|
            from <= i < configs.len() ==> stem_is_complete(#[trigger] configs[i])) && (forall|i: int|
            from <= i < configs.len() ==> !#[trigger] repeats_stem_id(configs, i)),
    decreases configs.len() - from,
{
    if from < configs.len() {
        lemma_stems_iff(configs, from + 1);
        lemma_code(configs[from].plugin_id@);
        assert(stem_error(configs[from]) is None <==> stem_is_complete(configs[from]));
    }
}

proof fn lemma_reasons_iff(rules: Seq<(Seq<char>, Seq<char>)>, from: int)
    requires
        0 <= from <= rules.len(),
    ensures
        reasons_error(rules, from) is None <==> forall|i: int|
            from <= i < rules.len() ==> trimmed((#[trigger] rules[i]).1).len() > 0,
    decreases rules.len() - from,
{
    if from < rules.len() {
        lemma_reasons_iff(rules, from + 1);
    }
}

/// A product is refused for the first of its fields that is empty or no code, and told of that
/// very field.
pub proof fn refusals_name_the_first_field(metadata: PluginMetadata, result: Result<(), String>)
    requires
        call_ensures(PluginMetadata::validate, (&metadata,), result),
    ensures
        metadata.package_name@.len() == 0 ==> (result matches Err(message) && message@
            == "package.name"@ + " must not be empty"@),
        metadata.package_name@.len() > 0 && metadata.version@.len() == 0 ==> (result matches Err(message) && message@
            == "package.version"@ + " must not be empty"@),
        metadata.package_name@.len() > 0 && metadata.version@.len() > 0 && metadata.company_name@.len() == 0 ==> (result matches Err(message) && message@
            == "package.metadata.wrac.company_name"@ + " must not be empty"@),
        metadata.package_name@.len() > 0 && metadata.version@.len() > 0 && metadata.company_name@.len() > 0 && !is_code(metadata.auv2_manufacturer_code@) ==> (result matches Err(message) && message@
            == "package.metadata.wrac."@ + "auv2_manufacturer_code"@ + " must be exactly 4 ASCII bytes"@),
        metadata.package_name@.len() > 0 && metadata.version@.len() > 0 && metadata.company_name@.len() > 0 && is_code(metadata.auv2_manufacturer_code@) && !is_code(metadata.aax_manufacturer_id@) ==> (result matches Err(message) && message@
            == "package.metadata.wrac."@ + "aax_manufacturer_id"@ + " must be exactly 4 ASCII bytes"@),
        metadata.package_name@.len() > 0 && metadata.version@.len() > 0 && metadata.company_name@.len() > 0 && is_code(metadata.auv2_manufacturer_code@) && is_code(metadata.aax_manufacturer_id@) && metadata.bundle_name@.len() == 0 ==> (result matches Err(message) && message@
            == "package.metadata.wrac.bundle_name"@ + " must not be empty"@),
        metadata.package_name@.len() > 0 && metadata.version@.len() > 0 && metadata.company_name@.len() > 0 && is_code(metadata.auv2_manufacturer_code@) && is_code(metadata.aax_manufacturer_id@) && metadata.bundle_name@.len() > 0 && metadata.bundle_identifier@.len() == 0 ==> (result matches Err(message) && message@
            == "package.metadata.wrac.bundle_identifier"@ + " must not be empty"@),
        metadata.package_name@.len() > 0 && metadata.version@.len() > 0 && metadata.company_name@.len() > 0 && is_code(metadata.auv2_manufacturer_code@) && is_code(metadata.aax_manufacturer_id@) && metadata.bundle_name@.len() > 0 && metadata.bundle_identifier@.len() > 0 && metadata.homepage_url@.len() == 0 ==> (result matches Err(message) && message@
            == "package.metadata.wrac.homepage_url"@ + " must not be empty"@),
        metadata.package_name@.len() > 0 && metadata.version@.len() > 0 && metadata.company_name@.len() > 0 && is_code(metadata.auv2_manufacturer_code@) && is_code(metadata.aax_manufacturer_id@) && metadata.bundle_name@.len() > 0 && metadata.bundle_identifier@.len() > 0 && metadata.homepage_url@.len() > 0 && metadata.manual_url@.len() == 0 ==> (result matches Err(message) && message@
            == "package.metadata.wrac.manual_url"@ + " must not be empty"@),
        metadata.package_name@.len() > 0 && metadata.version@.len() > 0 && metadata.company_name@.len() > 0 && is_code(metadata.auv2_manufacturer_code@) && is_code(metadata.aax_manufacturer_id@) && metadata.bundle_name@.len() > 0 && metadata.bundle_identifier@.len() > 0 && metadata.homepage_url@.len() > 0 && metadata.manual_url@.len() > 0 && metadata.support_url@.len() == 0 ==> (result matches Err(message) && message@
            == "package.metadata.wrac.support_url"@ + " must not be empty"@),
        metadata.package_name@.len() > 0 && metadata.version@.len() > 0 && metadata.company_name@.len() > 0 && is_code(metadata.auv2_manufacturer_code@) && is_code(metadata.aax_manufacturer_id@) && metadata.bundle_name@.len() > 0 && metadata.bundle_identifier@.len() > 0 && metadata.homepage_url@.len() > 0 && metadata.manual_url@.len() > 0 && metadata.support_url@.len() > 0 && metadata.description@.len() == 0 ==> (result matches Err(message) && message@
            == "package.metadata.wrac.description"@ + " must not be empty"@),
        metadata.package_name@.len() > 0 && metadata.version@.len() > 0 && metadata.company_name@.len() > 0 && is_code(metadata.auv2_manufacturer_code@) && is_code(metadata.aax_manufacturer_id@) && metadata.bundle_name@.len() > 0 && metadata.bundle_identifier@.len() > 0 && metadata.homepage_url@.len() > 0 && metadata.manual_url@.len() > 0 && metadata.support_url@.len() > 0 && metadata.description@.len() > 0 && metadata.copyright@.len() == 0 ==> (result matches Err(message) && message@
            == "package.metadata.wrac.copyright"@ + " must not be empty"@),
        product_is_complete(metadata) && metadata.supported_formats@.len() == 0 ==> (result
            matches Err(message) && message@
            == "package.metadata.wrac.supported_formats must not be empty"@),
        product_is_complete(metadata) && metadata.supported_formats@.len() > 0
            && metadata.supported_formats@.no_duplicates() && metadata.plugins@.len() == 0 ==> (result
            matches Err(message) && message@
            == "package.metadata.wrac.plugins must contain at least one plugin"@),
{
    lemma_product_accepted(metadata);
    lemma_code(metadata.auv2_manufacturer_code@);
    lemma_code(metadata.aax_manufacturer_id@);
    let formats = metadata.supported_formats@;
    lemma_formats_iff(formats, 0);
    if formats.no_duplicates() {
        assert forall|i: int| 0 <= i < formats.len() implies !#[trigger] repeats_format(
            formats,
            i,
        ) by {}
    }
}

/// The features are those that CLAP hosts know, the categories those that AAX has, and stems are
/// mono or stereo; any other is refused and named.
pub proof fn values_are_those_that_hosts_know(
    text: &str,
    label: &str,
    feature: Result<(), String>,
    category: Result<(), String>,
    stem: Result<(), String>,
)
    requires
        call_ensures(validate_clap_feature, (text,), feature),
        call_ensures(validate_aax_category, (text,), category),
        call_ensures(validate_aax_stem_format, (label, text), stem),
    ensures
        feature is Ok <==> text@ == "audio-effect"@ || text@ == "analyzer"@ || text@ == "ambisonic"@ || text@ == "chorus"@
            || text@ == "compressor"@ || text@ == "de-esser"@ || text@ == "delay"@ || text@ == "instrument"@
            || text@ == "note-effect"@ || text@ == "note-detector"@ || text@ == "drum"@ || text@ == "drum-machine"@
            || text@ == "equalizer"@ || text@ == "expander"@ || text@ == "filter"@ || text@ == "flanger"@
            || text@ == "frequency-shifter"@ || text@ == "gate"@ || text@ == "glitch"@ || text@ == "granular"@
            || text@ == "distortion"@ || text@ == "limiter"@ || text@ == "mastering"@ || text@ == "mixing"@
            || text@ == "mono"@ || text@ == "multi-effects"@ || text@ == "phaser"@ || text@ == "phase-vocoder"@
            || text@ == "pitch-correction"@ || text@ == "pitch-shifter"@ || text@ == "restoration"@ || text@ == "reverb"@
            || text@ == "sampler"@ || text@ == "stereo"@ || text@ == "surround"@ || text@ == "synthesizer"@
            || text@ == "transient-shaper"@ || text@ == "tremolo"@ || text@ == "utility"@,
        category is Ok <==> text@ == "eq"@ || text@ == "dynamics"@ || text@ == "pitch-shift"@ || text@ == "reverb"@
            || text@ == "delay"@ || text@ == "modulation"@ || text@ == "harmonic"@ || text@ == "noise-reduction"@
            || text@ == "dither"@ || text@ == "sound-field"@ || text@ == "hardware-generator"@ || text@ == "software-generator"@
            || text@ == "wrapped-plugin"@ || text@ == "effect"@ || text@ == "midi-effect"@,
        stem is Ok <==> text@ == "mono"@ || text@ == "stereo"@,
        feature is Err ==> feature->Err_0@
            == "unsupported package.metadata.wrac.plugins.clap_features value: "@ + text@,
        category is Err ==> category->Err_0@
            == "unsupported package.metadata.wrac.plugins.aax_categories value: "@ + text@,
        stem is Err ==> stem->Err_0@ == label@ + " must be mono or stereo"@,
{
}

/// A value that has to be there is refused where it is empty, a code where it is not four ASCII
/// characters, and an id where it is no UUID; each refusal names the value.
pub proof fn refused_values_are_named(
    key: &str,
    value: &str,
    required: Result<(), String>,
    code: Result<(), String>,
    uuid: Result<(), String>,
)
    requires
        call_ensures(validate_required, (key, value), required),
        call_ensures(validate_four_ascii, (key, value), code),
        call_ensures(validate_uuid, (key, value), uuid),
    ensures
        required is Ok <==> value@.len() > 0,
        code is Ok <==> is_code(value@),
        uuid is Ok <==> is_uuid(value@),
        required is Err ==> required->Err_0@ == key@ + " must not be empty"@,
        code is Err ==> code->Err_0@ == "package.metadata.wrac."@ + key@
            + " must be exactly 4 ASCII bytes"@,
        uuid is Err ==> uuid->Err_0@ == key@ + " must be a UUID"@,
{
    lemma_code(value@);
}

proof fn lemma_without(a: Seq<char>, b: Seq<char>, c: char)
    ensures
        without(a + b, c) == without(a, c) + without(b, c),
        !a.contains(c) ==> without(a, c) == a,
    decreases a.len() + b.len(),
{
    if b.len() > 0 {
        lemma_without(a, b.drop_last(), c);
        assert((a + b).drop_last() =~= a + b.drop_last());
        assert((a + b).last() == b.last());
        assert(without(a + b, c) =~= without(a, c) + without(b, c));
    } else {
        assert(a + b =~= a);
        assert(without(a, c) + without(b, c) =~= without(a, c));
        if a.len() > 0 && !a.contains(c) {
            let rest = a.drop_last();
            assert forall|x: char| rest.contains(x) implies a.contains(x) by {
                let k = rest.index_of(x);
                assert(a[k] == x);
            }
            lemma_without(rest, Seq::empty(), c);
            assert(a.contains(a.last()));
            assert(rest.push(a.last()) =~= a);
        }
    }
}

/// A UUID is one wherever its hyphens stand; without any it is thirty-two hexadecimal digits.
pub proof fn hyphens_are_no_part_of_a_uuid(a: Seq<char>, b: Seq<char>)
    requires
        !a.contains('-'),
        !b.contains('-'),
    ensures
        is_uuid(a + seq!['-'] + b) == is_uuid(a + b),
        is_uuid(a) <==> a.len() == 32 && forall|i: int|
            0 <= i < a.len() ==> '0' <= #[trigger] a[i] <= '9' || 'a' <= a[i] <= 'f' || 'A' <= a[i]
                <= 'F',
{
    lemma_without(a, b, '-');
    lemma_without(b, Seq::empty(), '-');
    lemma_without(a + seq!['-'], b, '-');
    lemma_without(a, seq!['-'], '-');
    assert(seq!['-'].drop_last() =~= Seq::<char>::empty());
    reveal_with_fuel(without, 2);
    assert(without(seq!['-'], '-') =~= Seq::<char>::empty());
    assert(without(a, '-') + Seq::<char>::empty() =~= without(a, '-'));
    if is_uuid(a) {
        assert forall|i: int| 0 <= i < a.len() implies '0' <= #[trigger] a[i] <= '9' || 'a' <= a[i]
            <= 'f' || 'A' <= a[i] <= 'F' by {
            assert(is_hex_digit(without(a, '-')[i]));
        }
    }
}

/// Each bundle has the name of the product and the ending of its format, so no two of them are
/// named alike; the first plugin stands for all.
pub proof fn bundles_have_the_ending_of_their_format(
    metadata: PluginMetadata,
    clap: String,
    vst3: String,
    aax: String,
    au: String,
    plugin: &PluginProductMetadata,
)
    requires
        metadata.plugins@.len() > 0,
        call_ensures(PluginMetadata::clap_bundle_name, (&metadata,), clap),
        call_ensures(PluginMetadata::vst3_bundle_name, (&metadata,), vst3),
        call_ensures(PluginMetadata::aax_bundle_name, (&metadata,), aax),
        call_ensures(PluginMetadata::au_bundle_name, (&metadata,), au),
        call_ensures(PluginMetadata::bundle_identity_plugin, (&metadata,), plugin),
    ensures
        clap@ == metadata.bundle_name@ + ".clap"@,
        vst3@ == metadata.bundle_name@ + ".vst3"@,
        aax@ == metadata.bundle_name@ + ".aaxplugin"@,
        au@ == metadata.bundle_name@ + ".component"@,
        *plugin == metadata.plugins@[0],
{
}

/// A rule that was disabled is so for the reason that was given last; every other rule is as
/// before.
pub proof fn rules_are_disabled_for_the_last_reason(
    rules: &mut DisabledRules,
    rule_id: String,
    rule: DisabledValidationRule,
    asked: &str,
    before: Option<&str>,
    after: Option<&str>,
)
    requires
        call_ensures(DisabledRules::get, (&*rules, asked), before),
        call_ensures(DisabledRules::insert, (rules, rule_id, rule), ()),
        call_ensures(DisabledRules::get, (final(rules), asked), after),
    ensures
        asked@ == rule_id@ ==> after is Some && after->Some_0@ == rule.reason@,
        asked@ != rule_id@ ==> (after is Some <==> before is Some) && (after is Some
            ==> after->Some_0@ == before->Some_0@),
{
}

} // verus!
