//! What the adapter tells the host of a plugin's parameters.

use vstd::prelude::*;

use crate::clap_abi::{
    CLAP_PARAM_IS_STEPPED,
    CLAP_PARAM_IS_PERIODIC,
    CLAP_PARAM_IS_HIDDEN,
    CLAP_PARAM_IS_READONLY,
    CLAP_PARAM_IS_BYPASS,
    CLAP_PARAM_IS_AUTOMATABLE,
    CLAP_PARAM_IS_AUTOMATABLE_PER_NOTE_ID,
    CLAP_PARAM_IS_AUTOMATABLE_PER_KEY,
    CLAP_PARAM_IS_AUTOMATABLE_PER_CHANNEL,
    CLAP_PARAM_IS_AUTOMATABLE_PER_PORT,
    CLAP_PARAM_IS_MODULATABLE,
    CLAP_PARAM_IS_MODULATABLE_PER_NOTE_ID,
    CLAP_PARAM_IS_MODULATABLE_PER_KEY,
    CLAP_PARAM_IS_MODULATABLE_PER_CHANNEL,
    CLAP_PARAM_IS_MODULATABLE_PER_PORT,
    CLAP_PARAM_REQUIRES_PROCESS,
    CLAP_PARAM_IS_ENUM,
};
use crate::wrac_clap_adapter::api::ParameterFlags;

verus! {

/// `flag` where `on`, and zero otherwise.
#[verifier::opaque]
pub open spec fn flag_if(on: bool, flag: u32) -> int {
    if on {
        flag as int
    } else {
        0
    }
}

/// Sets the bit `flag`, which lies above all of `bits`, where `on`.
fn add_flag(bits: u32, on: bool, flag: u32) -> (result: u32)
    requires
        bits < flag,
        is_flag(flag),
    ensures
        result == bits + flag_if(on, flag),
        result < 2 * flag,
{
    reveal(flag_if);
    if on {
        assert(bits | flag == bits + flag) by (bit_vector)
            requires
                bits < flag,
                is_flag(flag),
        ;
        bits | flag
    } else {
        bits
    }
}

/// Whether `flag` is a single bit among the lowest seventeen.
spec fn is_flag(flag: u32) -> bool {
    ||| flag == 0x1
    ||| flag == 0x2
    ||| flag == 0x4
    ||| flag == 0x8
    ||| flag == 0x10
    ||| flag == 0x20
    ||| flag == 0x40
    ||| flag == 0x80
    ||| flag == 0x100
    ||| flag == 0x200
    ||| flag == 0x400
    ||| flag == 0x800
    ||| flag == 0x1000
    ||| flag == 0x2000
    ||| flag == 0x4000
    ||| flag == 0x8000
    ||| flag == 0x10000
}

/// The sum of the flags on how a parameter is shown and automated.
pub open spec fn presentation_flags(flags: ParameterFlags) -> int {
    flag_if(flags.is_stepped, CLAP_PARAM_IS_STEPPED)
        + flag_if(flags.is_periodic, CLAP_PARAM_IS_PERIODIC)
        + flag_if(flags.is_hidden, CLAP_PARAM_IS_HIDDEN)
        + flag_if(flags.is_readonly, CLAP_PARAM_IS_READONLY)
        + flag_if(flags.is_bypass, CLAP_PARAM_IS_BYPASS)
        + flag_if(flags.is_automatable, CLAP_PARAM_IS_AUTOMATABLE)
        + flag_if(flags.is_automatable_per_note_id, CLAP_PARAM_IS_AUTOMATABLE_PER_NOTE_ID)
        + flag_if(flags.is_automatable_per_key, CLAP_PARAM_IS_AUTOMATABLE_PER_KEY)
        + flag_if(flags.is_automatable_per_channel, CLAP_PARAM_IS_AUTOMATABLE_PER_CHANNEL)
        + flag_if(flags.is_automatable_per_port, CLAP_PARAM_IS_AUTOMATABLE_PER_PORT)
}

/// The sum of the flags on how a parameter is modulated and processed.
pub open spec fn processing_flags(flags: ParameterFlags) -> int {
    flag_if(flags.is_modulatable, CLAP_PARAM_IS_MODULATABLE)
        + flag_if(flags.is_modulatable_per_note_id, CLAP_PARAM_IS_MODULATABLE_PER_NOTE_ID)
        + flag_if(flags.is_modulatable_per_key, CLAP_PARAM_IS_MODULATABLE_PER_KEY)
        + flag_if(flags.is_modulatable_per_channel, CLAP_PARAM_IS_MODULATABLE_PER_CHANNEL)
        + flag_if(flags.is_modulatable_per_port, CLAP_PARAM_IS_MODULATABLE_PER_PORT)
        + flag_if(flags.requires_process, CLAP_PARAM_REQUIRES_PROCESS)
        + flag_if(flags.is_enum, CLAP_PARAM_IS_ENUM)
}

fn add_presentation_flags(flags: ParameterFlags) -> (bits: u32)
    ensures
        bits == presentation_flags(flags),
        bits < 0x400,
{
    let bits: u32 = 0;
    let bits: u32 = add_flag(bits, flags.is_stepped, CLAP_PARAM_IS_STEPPED);
    let bits: u32 = add_flag(bits, flags.is_periodic, CLAP_PARAM_IS_PERIODIC);
    let bits: u32 = add_flag(bits, flags.is_hidden, CLAP_PARAM_IS_HIDDEN);
    let bits: u32 = add_flag(bits, flags.is_readonly, CLAP_PARAM_IS_READONLY);
    let bits: u32 = add_flag(bits, flags.is_bypass, CLAP_PARAM_IS_BYPASS);
    let bits: u32 = add_flag(bits, flags.is_automatable, CLAP_PARAM_IS_AUTOMATABLE);
    let bits: u32 = add_flag(bits, flags.is_automatable_per_note_id, CLAP_PARAM_IS_AUTOMATABLE_PER_NOTE_ID);
    let bits: u32 = add_flag(bits, flags.is_automatable_per_key, CLAP_PARAM_IS_AUTOMATABLE_PER_KEY);
    let bits: u32 = add_flag(bits, flags.is_automatable_per_channel, CLAP_PARAM_IS_AUTOMATABLE_PER_CHANNEL);
    let bits: u32 = add_flag(bits, flags.is_automatable_per_port, CLAP_PARAM_IS_AUTOMATABLE_PER_PORT);
    bits
}

fn add_processing_flags(bits: u32, flags: ParameterFlags) -> (result: u32)
    requires
        bits < 0x400,
    ensures
        result == bits + processing_flags(flags),
{
    let bits: u32 = add_flag(bits, flags.is_modulatable, CLAP_PARAM_IS_MODULATABLE);
    let bits: u32 = add_flag(bits, flags.is_modulatable_per_note_id, CLAP_PARAM_IS_MODULATABLE_PER_NOTE_ID);
    let bits: u32 = add_flag(bits, flags.is_modulatable_per_key, CLAP_PARAM_IS_MODULATABLE_PER_KEY);
    let bits: u32 = add_flag(bits, flags.is_modulatable_per_channel, CLAP_PARAM_IS_MODULATABLE_PER_CHANNEL);
    let bits: u32 = add_flag(bits, flags.is_modulatable_per_port, CLAP_PARAM_IS_MODULATABLE_PER_PORT);
    let bits: u32 = add_flag(bits, flags.requires_process, CLAP_PARAM_REQUIRES_PROCESS);
    let bits: u32 = add_flag(bits, flags.is_enum, CLAP_PARAM_IS_ENUM);
    bits
}

/// The bits by which the host reads the flags of a parameter: the flags stand at different
/// places, so that their sum holds each of them that is set and nothing else.
pub fn parameter_flags(flags: ParameterFlags) -> (bits: u32)
    ensures
        bits == presentation_flags(flags) + processing_flags(flags),
{
    add_processing_flags(add_presentation_flags(flags), flags)
}

/// The host reads each flag in the bit of that flag, and no other bit is set.
pub proof fn each_flag_has_its_bit(flags: ParameterFlags, bits: u32)
    requires
        bits == presentation_flags(flags) + processing_flags(flags),
    ensures
        shows(bits, 0x1) == flags.is_stepped,
        shows(bits, 0x2) == flags.is_periodic,
        shows(bits, 0x4) == flags.is_hidden,
        shows(bits, 0x8) == flags.is_readonly,
        shows(bits, 0x10) == flags.is_bypass,
        shows(bits, 0x20) == flags.is_automatable,
        shows(bits, 0x40) == flags.is_automatable_per_note_id,
        shows(bits, 0x80) == flags.is_automatable_per_key,
        shows(bits, 0x100) == flags.is_automatable_per_channel,
        shows(bits, 0x200) == flags.is_automatable_per_port,
        shows(bits, 0x400) == flags.is_modulatable,
        shows(bits, 0x800) == flags.is_modulatable_per_note_id,
        shows(bits, 0x1000) == flags.is_modulatable_per_key,
        shows(bits, 0x2000) == flags.is_modulatable_per_channel,
        shows(bits, 0x4000) == flags.is_modulatable_per_port,
        shows(bits, 0x8000) == flags.requires_process,
        shows(bits, 0x10000) == flags.is_enum,
        bits < 0x2_0000,
{
    lemma_bits_are_parts(flags, bits);
    lemma_flags_show(flags, bits);
}

/// Whether a flag is set.
pub open spec fn shows(bits: u32, flag: u32) -> bool {
    bits & flag != 0
}

/// The part that a flag has in the bits.
#[verifier::opaque]
spec fn part(on: bool, flag: u32) -> u32 {
    if on {
        flag
    } else {
        0
    }
}

proof fn lemma_part_is_set(bits: u32, on: bool, flag: u32)
    requires
        flag > 0,
        bits & flag == part(on, flag),
    ensures
        shows(bits, flag) == on,
{
    reveal(part);
}

proof fn lemma_flags_show(flags: ParameterFlags, bits: u32)
    requires
        bits & 0x1 == part(flags.is_stepped, CLAP_PARAM_IS_STEPPED),
        bits & 0x2 == part(flags.is_periodic, CLAP_PARAM_IS_PERIODIC),
        bits & 0x4 == part(flags.is_hidden, CLAP_PARAM_IS_HIDDEN),
        bits & 0x8 == part(flags.is_readonly, CLAP_PARAM_IS_READONLY),
        bits & 0x10 == part(flags.is_bypass, CLAP_PARAM_IS_BYPASS),
        bits & 0x20 == part(flags.is_automatable, CLAP_PARAM_IS_AUTOMATABLE),
        bits & 0x40 == part(flags.is_automatable_per_note_id, CLAP_PARAM_IS_AUTOMATABLE_PER_NOTE_ID),
        bits & 0x80 == part(flags.is_automatable_per_key, CLAP_PARAM_IS_AUTOMATABLE_PER_KEY),
        bits & 0x100 == part(flags.is_automatable_per_channel, CLAP_PARAM_IS_AUTOMATABLE_PER_CHANNEL),
        bits & 0x200 == part(flags.is_automatable_per_port, CLAP_PARAM_IS_AUTOMATABLE_PER_PORT),
        bits & 0x400 == part(flags.is_modulatable, CLAP_PARAM_IS_MODULATABLE),
        bits & 0x800 == part(flags.is_modulatable_per_note_id, CLAP_PARAM_IS_MODULATABLE_PER_NOTE_ID),
        bits & 0x1000 == part(flags.is_modulatable_per_key, CLAP_PARAM_IS_MODULATABLE_PER_KEY),
        bits & 0x2000 == part(flags.is_modulatable_per_channel, CLAP_PARAM_IS_MODULATABLE_PER_CHANNEL),
        bits & 0x4000 == part(flags.is_modulatable_per_port, CLAP_PARAM_IS_MODULATABLE_PER_PORT),
        bits & 0x8000 == part(flags.requires_process, CLAP_PARAM_REQUIRES_PROCESS),
        bits & 0x10000 == part(flags.is_enum, CLAP_PARAM_IS_ENUM),
    ensures
        shows(bits, 0x1) == flags.is_stepped,
        shows(bits, 0x2) == flags.is_periodic,
        shows(bits, 0x4) == flags.is_hidden,
        shows(bits, 0x8) == flags.is_readonly,
        shows(bits, 0x10) == flags.is_bypass,
        shows(bits, 0x20) == flags.is_automatable,
        shows(bits, 0x40) == flags.is_automatable_per_note_id,
        shows(bits, 0x80) == flags.is_automatable_per_key,
        shows(bits, 0x100) == flags.is_automatable_per_channel,
        shows(bits, 0x200) == flags.is_automatable_per_port,
        shows(bits, 0x400) == flags.is_modulatable,
        shows(bits, 0x800) == flags.is_modulatable_per_note_id,
        shows(bits, 0x1000) == flags.is_modulatable_per_key,
        shows(bits, 0x2000) == flags.is_modulatable_per_channel,
        shows(bits, 0x4000) == flags.is_modulatable_per_port,
        shows(bits, 0x8000) == flags.requires_process,
        shows(bits, 0x10000) == flags.is_enum,
{
    lemma_part_is_set(bits, flags.is_stepped, CLAP_PARAM_IS_STEPPED);
    lemma_part_is_set(bits, flags.is_periodic, CLAP_PARAM_IS_PERIODIC);
    lemma_part_is_set(bits, flags.is_hidden, CLAP_PARAM_IS_HIDDEN);
    lemma_part_is_set(bits, flags.is_readonly, CLAP_PARAM_IS_READONLY);
    lemma_part_is_set(bits, flags.is_bypass, CLAP_PARAM_IS_BYPASS);
    lemma_part_is_set(bits, flags.is_automatable, CLAP_PARAM_IS_AUTOMATABLE);
    lemma_part_is_set(bits, flags.is_automatable_per_note_id, CLAP_PARAM_IS_AUTOMATABLE_PER_NOTE_ID);
    lemma_part_is_set(bits, flags.is_automatable_per_key, CLAP_PARAM_IS_AUTOMATABLE_PER_KEY);
    lemma_part_is_set(bits, flags.is_automatable_per_channel, CLAP_PARAM_IS_AUTOMATABLE_PER_CHANNEL);
    lemma_part_is_set(bits, flags.is_automatable_per_port, CLAP_PARAM_IS_AUTOMATABLE_PER_PORT);
    lemma_part_is_set(bits, flags.is_modulatable, CLAP_PARAM_IS_MODULATABLE);
    lemma_part_is_set(bits, flags.is_modulatable_per_note_id, CLAP_PARAM_IS_MODULATABLE_PER_NOTE_ID);
    lemma_part_is_set(bits, flags.is_modulatable_per_key, CLAP_PARAM_IS_MODULATABLE_PER_KEY);
    lemma_part_is_set(bits, flags.is_modulatable_per_channel, CLAP_PARAM_IS_MODULATABLE_PER_CHANNEL);
    lemma_part_is_set(bits, flags.is_modulatable_per_port, CLAP_PARAM_IS_MODULATABLE_PER_PORT);
    lemma_part_is_set(bits, flags.requires_process, CLAP_PARAM_REQUIRES_PROCESS);
    lemma_part_is_set(bits, flags.is_enum, CLAP_PARAM_IS_ENUM);
}

proof fn lemma_part(on: bool, flag: u32)
    ensures
        part(on, flag) == flag_if(on, flag),
        part(on, flag) & flag == part(on, flag),
{
    reveal(part);
    reveal(flag_if);
    assert(flag & flag == flag) by (bit_vector);
    assert(0u32 & flag == 0) by (bit_vector);
}

proof fn lemma_bits_are_parts(flags: ParameterFlags, bits: u32)
    requires
        bits == presentation_flags(flags) + processing_flags(flags),
    ensures
        bits & 0x1 == part(flags.is_stepped, CLAP_PARAM_IS_STEPPED),
        bits & 0x2 == part(flags.is_periodic, CLAP_PARAM_IS_PERIODIC),
        bits & 0x4 == part(flags.is_hidden, CLAP_PARAM_IS_HIDDEN),
        bits & 0x8 == part(flags.is_readonly, CLAP_PARAM_IS_READONLY),
        bits & 0x10 == part(flags.is_bypass, CLAP_PARAM_IS_BYPASS),
        bits & 0x20 == part(flags.is_automatable, CLAP_PARAM_IS_AUTOMATABLE),
        bits & 0x40 == part(flags.is_automatable_per_note_id, CLAP_PARAM_IS_AUTOMATABLE_PER_NOTE_ID),
        bits & 0x80 == part(flags.is_automatable_per_key, CLAP_PARAM_IS_AUTOMATABLE_PER_KEY),
        bits & 0x100 == part(flags.is_automatable_per_channel, CLAP_PARAM_IS_AUTOMATABLE_PER_CHANNEL),
        bits & 0x200 == part(flags.is_automatable_per_port, CLAP_PARAM_IS_AUTOMATABLE_PER_PORT),
        bits & 0x400 == part(flags.is_modulatable, CLAP_PARAM_IS_MODULATABLE),
        bits & 0x800 == part(flags.is_modulatable_per_note_id, CLAP_PARAM_IS_MODULATABLE_PER_NOTE_ID),
        bits & 0x1000 == part(flags.is_modulatable_per_key, CLAP_PARAM_IS_MODULATABLE_PER_KEY),
        bits & 0x2000 == part(flags.is_modulatable_per_channel, CLAP_PARAM_IS_MODULATABLE_PER_CHANNEL),
        bits & 0x4000 == part(flags.is_modulatable_per_port, CLAP_PARAM_IS_MODULATABLE_PER_PORT),
        bits & 0x8000 == part(flags.requires_process, CLAP_PARAM_REQUIRES_PROCESS),
        bits & 0x10000 == part(flags.is_enum, CLAP_PARAM_IS_ENUM),
        bits < 0x2_0000,
{
    lemma_part(flags.is_stepped, CLAP_PARAM_IS_STEPPED);
    lemma_part(flags.is_periodic, CLAP_PARAM_IS_PERIODIC);
    lemma_part(flags.is_hidden, CLAP_PARAM_IS_HIDDEN);
    lemma_part(flags.is_readonly, CLAP_PARAM_IS_READONLY);
    lemma_part(flags.is_bypass, CLAP_PARAM_IS_BYPASS);
    lemma_part(flags.is_automatable, CLAP_PARAM_IS_AUTOMATABLE);
    lemma_part(flags.is_automatable_per_note_id, CLAP_PARAM_IS_AUTOMATABLE_PER_NOTE_ID);
    lemma_part(flags.is_automatable_per_key, CLAP_PARAM_IS_AUTOMATABLE_PER_KEY);
    lemma_part(flags.is_automatable_per_channel, CLAP_PARAM_IS_AUTOMATABLE_PER_CHANNEL);
    lemma_part(flags.is_automatable_per_port, CLAP_PARAM_IS_AUTOMATABLE_PER_PORT);
    lemma_part(flags.is_modulatable, CLAP_PARAM_IS_MODULATABLE);
    lemma_part(flags.is_modulatable_per_note_id, CLAP_PARAM_IS_MODULATABLE_PER_NOTE_ID);
    lemma_part(flags.is_modulatable_per_key, CLAP_PARAM_IS_MODULATABLE_PER_KEY);
    lemma_part(flags.is_modulatable_per_channel, CLAP_PARAM_IS_MODULATABLE_PER_CHANNEL);
    lemma_part(flags.is_modulatable_per_port, CLAP_PARAM_IS_MODULATABLE_PER_PORT);
    lemma_part(flags.requires_process, CLAP_PARAM_REQUIRES_PROCESS);
    lemma_part(flags.is_enum, CLAP_PARAM_IS_ENUM);
    lemma_sum_of_bits(
        bits,
        part(flags.is_stepped, CLAP_PARAM_IS_STEPPED),
        part(flags.is_periodic, CLAP_PARAM_IS_PERIODIC),
        part(flags.is_hidden, CLAP_PARAM_IS_HIDDEN),
        part(flags.is_readonly, CLAP_PARAM_IS_READONLY),
        part(flags.is_bypass, CLAP_PARAM_IS_BYPASS),
        part(flags.is_automatable, CLAP_PARAM_IS_AUTOMATABLE),
        part(flags.is_automatable_per_note_id, CLAP_PARAM_IS_AUTOMATABLE_PER_NOTE_ID),
        part(flags.is_automatable_per_key, CLAP_PARAM_IS_AUTOMATABLE_PER_KEY),
        part(flags.is_automatable_per_channel, CLAP_PARAM_IS_AUTOMATABLE_PER_CHANNEL),
        part(flags.is_automatable_per_port, CLAP_PARAM_IS_AUTOMATABLE_PER_PORT),
        part(flags.is_modulatable, CLAP_PARAM_IS_MODULATABLE),
        part(flags.is_modulatable_per_note_id, CLAP_PARAM_IS_MODULATABLE_PER_NOTE_ID),
        part(flags.is_modulatable_per_key, CLAP_PARAM_IS_MODULATABLE_PER_KEY),
        part(flags.is_modulatable_per_channel, CLAP_PARAM_IS_MODULATABLE_PER_CHANNEL),
        part(flags.is_modulatable_per_port, CLAP_PARAM_IS_MODULATABLE_PER_PORT),
        part(flags.requires_process, CLAP_PARAM_REQUIRES_PROCESS),
        part(flags.is_enum, CLAP_PARAM_IS_ENUM),
    );
}

proof fn lemma_sum_of_bits(
    bits: u32,
    a0: u32,
    a1: u32,
    a2: u32,
    a3: u32,
    a4: u32,
    a5: u32,
    a6: u32,
    a7: u32,
    a8: u32,
    a9: u32,
    a10: u32,
    a11: u32,
    a12: u32,
    a13: u32,
    a14: u32,
    a15: u32,
    a16: u32,
)
    by (bit_vector)
    requires
        bits == a0 + a1 + a2 + a3 + a4 + a5 + a6 + a7 + a8 + a9 + a10 + a11 + a12 + a13 + a14 + a15 + a16,
        a0 & 0x1 == a0,
        a1 & 0x2 == a1,
        a2 & 0x4 == a2,
        a3 & 0x8 == a3,
        a4 & 0x10 == a4,
        a5 & 0x20 == a5,
        a6 & 0x40 == a6,
        a7 & 0x80 == a7,
        a8 & 0x100 == a8,
        a9 & 0x200 == a9,
        a10 & 0x400 == a10,
        a11 & 0x800 == a11,
        a12 & 0x1000 == a12,
        a13 & 0x2000 == a13,
        a14 & 0x4000 == a14,
        a15 & 0x8000 == a15,
        a16 & 0x10000 == a16,
    ensures
        bits & 0x1 == a0,
        bits & 0x2 == a1,
        bits & 0x4 == a2,
        bits & 0x8 == a3,
        bits & 0x10 == a4,
        bits & 0x20 == a5,
        bits & 0x40 == a6,
        bits & 0x80 == a7,
        bits & 0x100 == a8,
        bits & 0x200 == a9,
        bits & 0x400 == a10,
        bits & 0x800 == a11,
        bits & 0x1000 == a12,
        bits & 0x2000 == a13,
        bits & 0x4000 == a14,
        bits & 0x8000 == a15,
        bits & 0x10000 == a16,
        bits < 0x2_0000,
{
}

} // verus!
