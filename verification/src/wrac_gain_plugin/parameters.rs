//! The parameters of the plugin. Values of floating point are handled by their bits.

use vstd::prelude::*;

use crate::text;
use crate::wrac_clap_adapter::api::{ParameterFlags, PluginError, PluginResult};

verus! {

/// The id of the gain. Projects and automation hold it, so it never changes.
pub const PARAM_GAIN_ID: u32 = 1;

/// The id of the bypass. Projects and automation hold it, so it never changes.
pub const PARAM_BYPASS_ID: u32 = 9;

/// The bits of the gain that leaves the signal as it is, which is 1.
pub const UNITY_GAIN_BITS: u32 = 0x3f80_0000;

/// The bits of the largest gain, which is 2.
pub const MAX_GAIN_BITS: u32 = 0x4000_0000;

/// The first bits of a negative number.
pub const NEGATIVE_ZERO_BITS: u32 = 0x8000_0000;

/// The bits of infinity. What is above them, up to the first negative number, is no number.
pub const INFINITY_BITS: u32 = 0x7f80_0000;

/// The gain that is used where the gain with these bits is asked for: none below 0 and none
/// above 2. What is no number, and the zero with a sign, stays as it is.
pub open spec fn clamped_gain(bits: u32) -> u32 {
    if MAX_GAIN_BITS < bits <= INFINITY_BITS {
        MAX_GAIN_BITS
    } else if NEGATIVE_ZERO_BITS < bits <= NEGATIVE_ZERO_BITS + INFINITY_BITS {
        0
    } else {
        bits
    }
}

/// The gain that is used where the gain with these bits is asked for.
pub fn clamp_gain(bits: u32) -> (gain: u32)
    ensures
        gain == clamped_gain(bits),
{
    if MAX_GAIN_BITS < bits && bits <= INFINITY_BITS {
        MAX_GAIN_BITS
    } else if NEGATIVE_ZERO_BITS < bits && bits <= 0xff80_0000 {
        0
    } else {
        bits
    }
}

/// A gain that was clamped once stays as it is, and every number becomes a gain from 0 to 2.
pub proof fn clamping_a_gain_is_a_projection(bits: u32)
    ensures
        clamped_gain(clamped_gain(bits)) == clamped_gain(bits),
        bits <= INFINITY_BITS ==> clamped_gain(bits) <= MAX_GAIN_BITS,
        bits <= MAX_GAIN_BITS ==> clamped_gain(bits) == bits,
{
}

/// Whether the double with these bits turns a switch on: it is at least one half.
pub open spec fn is_on(bits: u64) -> bool {
    0x3fe0_0000_0000_0000 <= bits <= 0x7ff0_0000_0000_0000
}

/// Whether the double with these bits turns a switch on.
pub fn turns_on(bits: u64) -> (on: bool)
    ensures
        on == is_on(bits),
{
    0x3fe0_0000_0000_0000 <= bits && bits <= 0x7ff0_0000_0000_0000
}

/// How many parameters there are.
pub const PARAMETER_COUNT: u32 = 2;

/// The id of the parameter that a host finds at a position.
pub fn parameter_id_at(index: u32) -> (id: Option<u32>)
    ensures
        id == match index {
            0 => Some(PARAM_GAIN_ID),
            1 => Some(PARAM_BYPASS_ID),
            _ => None::<u32>,
        },
        id is Some == (index < PARAMETER_COUNT),
{
    match index {
        0 => Some(PARAM_GAIN_ID),
        1 => Some(PARAM_BYPASS_ID),
        _ => None,
    }
}

/// The name of a parameter.
pub fn parameter_name(id: u32) -> (name: Option<&'static str>)
    ensures
        match name {
            Some(name) => (id == PARAM_GAIN_ID && name@ == "Gain"@) || (id == PARAM_BYPASS_ID
                && name@ == "Bypass"@),
            None => id != PARAM_GAIN_ID && id != PARAM_BYPASS_ID,
        },
{
    if id == PARAM_GAIN_ID {
        Some("Gain")
    } else if id == PARAM_BYPASS_ID {
        Some("Bypass")
    } else {
        None
    }
}

/// How a parameter behaves. Both can be automated; the bypass is a choice of two values, since
/// generic editors of some hosts show nothing of a plugin without such a bypass.
pub open spec fn behaviour(id: u32) -> ParameterFlags {
    ParameterFlags {
        is_stepped: id == PARAM_BYPASS_ID,
        is_periodic: false,
        is_hidden: false,
        is_readonly: false,
        is_bypass: id == PARAM_BYPASS_ID,
        is_automatable: true,
        is_automatable_per_note_id: false,
        is_automatable_per_key: false,
        is_automatable_per_channel: false,
        is_automatable_per_port: false,
        is_modulatable: false,
        is_modulatable_per_note_id: false,
        is_modulatable_per_key: false,
        is_modulatable_per_channel: false,
        is_modulatable_per_port: false,
        requires_process: false,
        is_enum: id == PARAM_BYPASS_ID,
    }
}

/// How a parameter behaves.
pub fn parameter_behaviour(id: u32) -> (flags: ParameterFlags)
    ensures
        flags == behaviour(id),
{
    let is_bypass = id == PARAM_BYPASS_ID;
    ParameterFlags {
        is_stepped: is_bypass,
        is_bypass,
        is_automatable: true,
        is_enum: is_bypass,
        ..ParameterFlags::default()
    }
}

// Text

/// The text of a switch.
pub fn switch_text(on: bool) -> (text: &'static str)
    ensures
        text@ == if on {
            "On"@
        } else {
            "Off"@
        },
{
    if on {
        "On"
    } else {
        "Off"
    }
}

/// Which position of a switch a text names, in any case and with space around it.
pub open spec fn switch_named(text: Seq<char>) -> Option<bool> {
    let word = text::lower(text::trimmed(text));
    if word == "on"@ || word == "1"@ || word == "true"@ {
        Some(true)
    } else if word == "off"@ || word == "0"@ || word == "false"@ {
        Some(false)
    } else {
        None
    }
}

/// Which position of a switch a text names.
pub fn parse_switch(value: &str) -> (on: Option<bool>)
    ensures
        on == switch_named(value@),
{
    let trimmed = text::trim(value);
    let word = text::to_ascii_lowercase(trimmed.as_str());
    let word = word.as_str();
    if text::same_text(word, "on") || text::same_text(word, "1") || text::same_text(word, "true") {
        Some(true)
    } else if text::same_text(word, "off") || text::same_text(word, "0") || text::same_text(
        word,
        "false",
    ) {
        Some(false)
    } else {
        None
    }
}

/// A switch is found again by the text that shows it.
pub proof fn switch_texts_are_read_back()
    ensures
        switch_named("On"@) == Some(true),
        switch_named("Off"@) == Some(false),
{
    reveal_strlit("On");
    reveal_strlit("Off");
    reveal_strlit("on");
    reveal_strlit("off");
    reveal_strlit("1");
    reveal_strlit("true");
    reveal_with_fuel(text::trimmed_front, 2);
    reveal_with_fuel(text::trimmed_back, 2);
    assert(text::lower(text::trimmed("On"@)) =~= "on"@);
    assert(text::lower(text::trimmed("Off"@)) =~= "off"@);
    assert("off"@.len() != "on"@.len());
    assert("off"@.len() != "1"@.len());
    assert("off"@.len() != "true"@.len());
}

/// The number in a text of decibels: the text without the unit and the space around it.
pub open spec fn decibel_number(value: Seq<char>) -> Seq<char> {
    let outer = text::trimmed(value);
    let unit = "dB"@;
    if text::stands_at(outer, unit, outer.len() - unit.len()) {
        text::trimmed(outer.take(outer.len() - unit.len()))
    } else {
        text::trimmed(outer)
    }
}

/// The number in a text of decibels.
pub fn decibel_number_text(value: &str) -> (number: String)
    ensures
        number@ == decibel_number(value@),
{
    let outer = text::trim(value);
    if text::ends_with(outer.as_str(), "dB") {
        let chars = text::chars_of(outer.as_str());
        proof {
            reveal_strlit("dB");
        }
        let end: usize = chars.len() - 2;
        let mut inner: String = String::new();
        text::push_range(&mut inner, &chars, 0, end);
        assert(inner@ =~= outer@.take(end as int));
        text::trim(inner.as_str())
    } else {
        text::trim(outer.as_str())
    }
}

// By the id

/// The bits of 1 in double precision.
pub const ONE_BITS: u64 = 0x3ff0_0000_0000_0000;

/// The bits of the value that a parameter is reset to: a gain of 1, and no bypass.
pub fn parameter_default_value(id: u32) -> (result: PluginResult<u64>)
    ensures
        result == if id == PARAM_GAIN_ID {
            Ok::<u64, PluginError>(ONE_BITS)
        } else if id == PARAM_BYPASS_ID {
            Ok(0)
        } else {
            Err(PluginError::InvalidParameter)
        },
{
    match id {
        PARAM_GAIN_ID => Ok(ONE_BITS),
        PARAM_BYPASS_ID => Ok(0),
        _ => Err(PluginError::InvalidParameter),
    }
}

/// How the value of a parameter is shown.
#[derive(Debug, Clone, Copy)]
pub enum ValueText {
    /// As decibels of the gain.
    Decibels,
    Text { text: &'static str },
}

/// How the value of a parameter with these bits is shown.
pub fn parameter_value_text(id: u32, bits: u64) -> (result: PluginResult<ValueText>)
    ensures
        match result {
            Ok(ValueText::Decibels) => id == PARAM_GAIN_ID,
            Ok(ValueText::Text { text }) => id == PARAM_BYPASS_ID && text@ == if is_on(bits) {
                "On"@
            } else {
                "Off"@
            },
            Err(error) => id != PARAM_GAIN_ID && id != PARAM_BYPASS_ID && error
                == PluginError::InvalidParameter,
        },
{
    match id {
        PARAM_GAIN_ID => Ok(ValueText::Decibels),
        PARAM_BYPASS_ID => Ok(ValueText::Text { text: switch_text(turns_on(bits)) }),
        _ => Err(PluginError::InvalidParameter),
    }
}

/// What a text for a parameter says.
#[derive(Debug)]
pub enum ParameterText {
    /// The gain in decibels, where the text is a number.
    Decibels { number: String },
    Switch { on: bool },
}

/// What a text for a parameter says.
pub fn parameter_text_value(id: u32, value: &str) -> (result: PluginResult<ParameterText>)
    ensures
        match result {
            Ok(ParameterText::Decibels { number }) => id == PARAM_GAIN_ID && number@
                == decibel_number(value@),
            Ok(ParameterText::Switch { on }) => id == PARAM_BYPASS_ID && switch_named(value@)
                == Some(on),
            Err(error) => id != PARAM_GAIN_ID && (id == PARAM_BYPASS_ID ==> switch_named(value@)
                is None) && error == PluginError::InvalidParameter,
        },
{
    match id {
        PARAM_GAIN_ID => Ok(ParameterText::Decibels { number: decibel_number_text(value) }),
        PARAM_BYPASS_ID => match parse_switch(value) {
            Some(on) => Ok(ParameterText::Switch { on }),
            None => Err(PluginError::InvalidParameter),
        },
        _ => Err(PluginError::InvalidParameter),
    }
}

// What the bits mean

/// The bits stand for the numbers that they are named after: a single has its exponent above 23
/// bits and a double above 52, and both count it from the exponent of 1.
pub proof fn bits_are_those_of_their_numbers()
    ensures
        UNITY_GAIN_BITS == 127 * 0x80_0000,
        MAX_GAIN_BITS == (127 + 1) * 0x80_0000,
        INFINITY_BITS == 255 * 0x80_0000,
        NEGATIVE_ZERO_BITS == 256 * 0x80_0000,
        ONE_BITS == 1023 * 0x10_0000_0000_0000,
        PARAM_GAIN_ID == 1,
        PARAM_BYPASS_ID == 9,
        PARAMETER_COUNT == 2,
{
}

/// A gain from 0 to 2 is used as it is, one above 2 as 2 and one below 0 as 0; a larger number
/// never gives a smaller gain, and what is no number is left alone.
pub proof fn gains_are_kept_between_none_and_double(bits: u32, other: u32)
    ensures
        bits <= MAX_GAIN_BITS ==> clamped_gain(bits) == bits,
        MAX_GAIN_BITS < bits <= INFINITY_BITS ==> clamped_gain(bits) == MAX_GAIN_BITS,
        NEGATIVE_ZERO_BITS < bits <= 0xff80_0000 ==> clamped_gain(bits) == 0,
        INFINITY_BITS < bits < NEGATIVE_ZERO_BITS || 0xff80_0000 < bits ==> clamped_gain(bits)
            == bits,
        clamped_gain(NEGATIVE_ZERO_BITS) == NEGATIVE_ZERO_BITS,
        bits <= other <= INFINITY_BITS ==> clamped_gain(bits) <= clamped_gain(other),
{
}

/// A switch is on from one half on: every number from there up to infinity turns it on, and no
/// smaller number, no negative one and nothing that is no number does.
pub proof fn switches_turn_at_one_half(bits: u64, other: u64)
    ensures
        is_on(0x3fe0_0000_0000_0000) && is_on(ONE_BITS) && !is_on(0),
        bits < 0x3fe0_0000_0000_0000 ==> !is_on(bits),
        bits >= 0x8000_0000_0000_0000 ==> !is_on(bits),
        bits > 0x7ff0_0000_0000_0000 ==> !is_on(bits),
        bits <= other <= 0x7ff0_0000_0000_0000 && is_on(bits) ==> is_on(other),
{
}

/// A host finds the gain first and the bypass second; each has its name, its default and its
/// place among the parameters, and nothing else is one.
pub proof fn hosts_find_the_gain_and_the_bypass(
    index: u32,
    id: Option<u32>,
    of: u32,
    name: Option<&'static str>,
    default: PluginResult<u64>,
)
    requires
        call_ensures(parameter_id_at, (index,), id),
        call_ensures(parameter_name, (of,), name),
        call_ensures(parameter_default_value, (of,), default),
    ensures
        index == 0 ==> id == Some(PARAM_GAIN_ID),
        index == 1 ==> id == Some(PARAM_BYPASS_ID),
        index >= 2 ==> id is None,
        of == PARAM_GAIN_ID ==> name is Some && name->Some_0@ == "Gain"@ && default == Ok::<
            u64,
            PluginError,
        >(ONE_BITS),
        of == PARAM_BYPASS_ID ==> name is Some && name->Some_0@ == "Bypass"@ && default == Ok::<
            u64,
            PluginError,
        >(0),
        of != PARAM_GAIN_ID && of != PARAM_BYPASS_ID ==> name is None && default is Err,
        id is Some ==> id->Some_0 == PARAM_GAIN_ID || id->Some_0 == PARAM_BYPASS_ID,
{
}

/// Hosts may automate the gain and the bypass and modulate neither; both are shown, and the bypass
/// alone is a bypass, in two steps.
pub proof fn the_bypass_alone_is_a_switch(id: u32)
    ensures
        behaviour(id).is_automatable,
        !behaviour(id).is_hidden && !behaviour(id).is_readonly && !behaviour(id).is_modulatable,
        behaviour(PARAM_BYPASS_ID).is_bypass && behaviour(PARAM_BYPASS_ID).is_stepped && behaviour(
            PARAM_BYPASS_ID,
        ).is_enum,
        !behaviour(PARAM_GAIN_ID).is_bypass && !behaviour(PARAM_GAIN_ID).is_stepped && !behaviour(
            PARAM_GAIN_ID,
        ).is_enum,
{
}

/// Three words turn a switch on and three turn it off, in any case and with any space around
/// them; no other text does either.
pub proof fn switches_are_named_in_three_ways(value: Seq<char>)
    ensures
        ({
            let word = text::lower(text::trimmed(value));
            &&& switch_named(value) == Some(true) <==> word == "on"@ || word == "1"@ || word
                == "true"@
            &&& switch_named(value) == Some(false) <==> word == "off"@ || word == "0"@ || word
                == "false"@
        }),
{
    reveal_strlit("on");
    reveal_strlit("1");
    reveal_strlit("true");
    reveal_strlit("off");
    reveal_strlit("0");
    reveal_strlit("false");
    assert("1"@[0] != "0"@[0]);
    assert("on"@.len() == 2 && "true"@.len() == 4 && "off"@.len() == 3 && "false"@.len() == 5
        && "1"@.len() == 1 && "0"@.len() == 1);
}

/// The text of a switch, shown for a value, is read back as what the value stands for.
pub proof fn shown_switches_are_read_back(
    bits: u64,
    shown: PluginResult<ValueText>,
    text: &'static str,
    read: PluginResult<ParameterText>,
)
    requires
        call_ensures(parameter_value_text, (PARAM_BYPASS_ID, bits), shown),
        shown == Ok::<ValueText, PluginError>(ValueText::Text { text }),
        call_ensures(parameter_text_value, (PARAM_BYPASS_ID, text), read),
    ensures
        bits >= 0x3fe0_0000_0000_0000 && bits <= 0x7ff0_0000_0000_0000 ==> read == Ok::<
            ParameterText,
            PluginError,
        >(ParameterText::Switch { on: true }),
        bits < 0x3fe0_0000_0000_0000 ==> read == Ok::<ParameterText, PluginError>(
            ParameterText::Switch { on: false },
        ),
{
    switch_texts_are_read_back();
}

/// A number of decibels is read with or without its unit, and with or without space before it.
pub proof fn decibels_are_read_with_or_without_unit(number: Seq<char>, space: Seq<char>)
    requires
        number.len() > 0,
        !text::is_space(number[0]) && !text::is_space(number.last()),
        forall|i: int| 0 <= i < space.len() ==> text::is_space(#[trigger] space[i]),
    ensures
        decibel_number(number + space + "dB"@) == number,
        number.last() != 'B' ==> decibel_number(number) == number,
        number.last() != 'B' ==> decibel_number(space + number + space) == number,
{
    reveal_strlit("dB");
    let nothing = Seq::<char>::empty();
    let whole = number + space + "dB"@;
    text::trimming_takes_the_space_at_both_ends(nothing, whole, nothing);
    assert(nothing + whole + nothing =~= whole);
    assert(whole[0] == number[0]);
    assert(whole.subrange(whole.len() - 2, whole.len() as int) =~= "dB"@);
    assert(text::stands_at(whole, "dB"@, whole.len() - 2));
    text::trimming_takes_the_space_at_both_ends(nothing, number, space);
    assert(whole.take(whole.len() - 2) =~= nothing + number + space);
    if number.last() != 'B' {
        text::trimming_takes_the_space_at_both_ends(nothing, number, nothing);
        assert(nothing + number + nothing =~= number);
        text::trimming_takes_the_space_at_both_ends(space, number, space);
        if text::stands_at(number, "dB"@, number.len() - 2) {
            assert(number.subrange(number.len() - 2, number.len() as int)[1] == 'B');
            assert(false);
        }
    }
}

/// Gains, switches and texts go as the laws above say.
pub proof fn values_go_by_their_laws(
    bits: u32,
    gain: u32,
    value: u64,
    on: bool,
    id: u32,
    flags: ParameterFlags,
    shown: &str,
    named: &str,
    read: Option<bool>,
    number: String,
)
    requires
        call_ensures(clamp_gain, (bits,), gain),
        call_ensures(turns_on, (value,), on),
        call_ensures(parameter_behaviour, (id,), flags),
        call_ensures(switch_text, (on,), shown),
        call_ensures(parse_switch, (named,), read),
        call_ensures(decibel_number_text, (named,), number),
    ensures
        bits <= MAX_GAIN_BITS ==> gain == bits,
        MAX_GAIN_BITS < bits <= INFINITY_BITS ==> gain == MAX_GAIN_BITS,
        NEGATIVE_ZERO_BITS < bits <= 0xff80_0000 ==> gain == 0,
        on <==> 0x3fe0_0000_0000_0000 <= value <= 0x7ff0_0000_0000_0000,
        flags == behaviour(id),
        on ==> shown@ == "On"@,
        !on ==> shown@ == "Off"@,
        read == switch_named(named@),
        number@ == decibel_number(named@),
{
}

} // verus!
