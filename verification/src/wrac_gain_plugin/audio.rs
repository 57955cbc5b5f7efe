//! What the plugin does to a block of audio.
//!
//! A block is cut at the events that fall into it, and each part is played with the gain that
//! holds there. How a sample is multiplied by a gain is up to the caller, who knows numbers of
//! floating point.

use vstd::prelude::*;

use crate::wrac_clap_adapter::api::ProcessStatus;
use crate::wrac_clap_adapter::events::InputEvent;
use crate::wrac_clap_adapter::process_buffer::{
    address_at,
    addresses_are_valid,
    common_format,
    contents,
    larger,
    port_at,
    port_table,
    samples_at,
    table_len,
    with_samples,
    AudioBufferError,
    AudioChannelPair,
    AudioPairedChannels,
    AudioPortBuffer,
    AudioPortChannels,
    AudioProcessBuffer,
    AudioSampleFormat,
};
use crate::wrac_gain_plugin::parameters::{
    MAX_GAIN_BITS,
    PARAM_BYPASS_ID,
    PARAM_GAIN_ID,
    UNITY_GAIN_BITS,
};
use crate::wrac_gain_plugin::state::{
    parameter_update,
    update_of,
    ParameterStateSnapshot,
    ParameterUpdate,
};

verus! {

// The channels of a port

/// Whether the frames from `start` to `end` of a channel that goes out are what `f` makes of the
/// frames that come in, or silence where nothing comes in, while all else stays.
pub open spec fn channel_played<T: Default, F: Fn(T, u32) -> T>(
    f: F,
    gain: u32,
    read: Option<usize>,
    write: Option<usize>,
    start: int,
    end: int,
    before: Seq<Seq<T>>,
    after: Seq<Seq<T>>,
) -> bool {
    match write {
        None => after == before,
        Some(write) => {
            let old_samples = samples_at(before, write);
            let new_samples = samples_at(after, write);
            &&& after == with_samples(before, write, new_samples)
            &&& new_samples.len() == old_samples.len()
            &&& forall|i: int|
                0 <= i < new_samples.len() ==> if start <= i < end {
                    match read {
                        Some(read) => call_ensures(
                            f,
                            (samples_at(before, read)[i], gain),
                            #[trigger] new_samples[i],
                        ),
                        None => AudioChannelPair::<T>::is_silence(new_samples[i]),
                    }
                } else {
                    new_samples[i] == old_samples[i]
                }
        },
    }
}

/// Whether the first `n` channels of a port are played one after the other.
pub open spec fn channels_played<T: Default, F: Fn(T, u32) -> T>(
    f: F,
    gain: u32,
    input: Option<&[usize]>,
    output: Option<&[usize]>,
    start: int,
    end: int,
    n: nat,
    before: Seq<Seq<T>>,
    after: Seq<Seq<T>>,
) -> bool
    decreases n,
{
    if n == 0 {
        after == before
    } else {
        exists|middle: Seq<Seq<T>>|
            channels_played(f, gain, input, output, start, end, (n - 1) as nat, before, middle)
                && #[trigger] channel_played(
                f,
                gain,
                address_at(input, (n - 1) as usize),
                address_at(output, (n - 1) as usize),
                start,
                end,
                middle,
                after,
            )
    }
}

/// Whether every block has the same number of samples.
pub open spec fn all_have_length<T>(blocks: Seq<Seq<T>>, length: int) -> bool {
    forall|i: int| 0 <= i < blocks.len() ==> (#[trigger] blocks[i]).len() == length
}

/// Plays one channel.
fn play_channel<T: Copy + Default, F: Fn(T, u32) -> T>(
    channels: &mut AudioPairedChannels<'_, '_, T>,
    index: usize,
    start: usize,
    len: usize,
    f: &F,
    gain: u32,
)
    requires
        old(channels).is_well_formed(),
        forall|x: T| call_requires(*f, (x, gain)),
    ensures
        final(channels).is_well_formed(),
        final(channels).input_data == old(channels).input_data,
        final(channels).output_data == old(channels).output_data,
        final(channels).frames_count == old(channels).frames_count,
        final(final(channels).blocks)@ == final(old(channels).blocks)@,
        contents(final(channels).blocks@).len() == contents(old(channels).blocks@).len(),
        channel_played(
            *f,
            gain,
            address_at(old(channels).input_data, index),
            address_at(old(channels).output_data, index),
            start as int,
            start + len,
            contents(old(channels).blocks@),
            contents(final(channels).blocks@),
        ),
{
    let ghost before = contents(channels.blocks@);
    let multiply = |x: T| -> (y: T)
        requires
            call_requires(f, (x, gain)),
        ensures
            call_ensures(f, (x, gain), y),
        { f(x, gain) };
    if let Some(mut pair) = channels.channel_pair(index) {
        pair.map_samples_range(start, len, multiply);
    }
    proof {
        let after = contents(channels.blocks@);
        assert(before.len() == old(channels).blocks@.len());
        assert(after.len() == channels.blocks@.len());
        assert(after.len() == before.len());
        assert(all_have_length(after, channels.frames_count as int));
        assert forall|i: int| 0 <= i < channels.blocks@.len() implies (
        #[trigger] contents(channels.blocks@)[i]).len() == channels.frames_count by {
            assert(after[i].len() == channels.frames_count);
        }
    }
}

proof fn lemma_next_channel<T: Default, F: Fn(T, u32) -> T>(
    f: F,
    gain: u32,
    input: Option<&[usize]>,
    output: Option<&[usize]>,
    start: int,
    end: int,
    index: usize,
    before: Seq<Seq<T>>,
    middle: Seq<Seq<T>>,
    after: Seq<Seq<T>>,
)
    requires
        channels_played(f, gain, input, output, start, end, index as nat, before, middle),
        channel_played(
            f,
            gain,
            address_at(input, index),
            address_at(output, index),
            start,
            end,
            middle,
            after,
        ),
    ensures
        channels_played(f, gain, input, output, start, end, index as nat + 1, before, after),
{
    let n = index as nat + 1;
    assert((n - 1) as usize == index);
    assert(channels_played(f, gain, input, output, start, end, (n - 1) as nat, before, middle));
}

/// Plays the frames from `start` on of every channel of a port.
pub fn process_channels_range<T: Copy + Default, F: Fn(T, u32) -> T>(
    channels: &mut AudioPairedChannels<'_, '_, T>,
    start: usize,
    len: usize,
    f: &F,
    gain: u32,
)
    requires
        old(channels).is_well_formed(),
        forall|x: T| call_requires(*f, (x, gain)),
    ensures
        final(channels).is_well_formed(),
        final(channels).frames_count == old(channels).frames_count,
        final(final(channels).blocks)@ == final(old(channels).blocks)@,
        contents(final(channels).blocks@).len() == contents(old(channels).blocks@).len(),
        channels_played(
            *f,
            gain,
            old(channels).input_data,
            old(channels).output_data,
            start as int,
            start + len,
            larger(table_len(old(channels).input_data), table_len(old(channels).output_data)),
            contents(old(channels).blocks@),
            contents(final(channels).blocks@),
        ),
{
    let count: usize = channels.channel_pair_count();
    let mut index: usize = 0;
    while index < count
        invariant
            index <= count,
            channels.is_well_formed(),
            channels.input_data == old(channels).input_data,
            channels.output_data == old(channels).output_data,
            channels.frames_count == old(channels).frames_count,
            final(channels.blocks)@ == final(old(channels).blocks)@,
            contents(channels.blocks@).len() == contents(old(channels).blocks@).len(),
            forall|x: T| call_requires(*f, (x, gain)),
            channels_played(
                *f,
                gain,
                old(channels).input_data,
                old(channels).output_data,
                start as int,
                start + len,
                index as nat,
                contents(old(channels).blocks@),
                contents(channels.blocks@),
            ),
        decreases count - index,
    {
        let ghost middle = contents(channels.blocks@);
        play_channel(channels, index, start, len, f, gain);
        proof {
            lemma_next_channel(
                *f,
                gain,
                channels.input_data,
                channels.output_data,
                start as int,
                start + len,
                index,
                contents(old(channels).blocks@),
                middle,
                contents(channels.blocks@),
            );
        }
        index += 1;
    }
}

// The ports of a block

/// How many pairs of ports there are.
pub open spec fn pair_count(inputs: Seq<AudioPortBuffer<'_>>, outputs: Seq<AudioPortBuffer<'_>>) -> nat {
    larger(inputs.len(), outputs.len())
}

/// Whether a pair of ports is played, in the precision that the two have in common.
pub open spec fn pair_played<S: Default, D: Default, F: Fn(S, u32) -> S, G: Fn(D, u32) -> D>(
    f: F,
    g: G,
    gain: u32,
    input: Option<AudioPortBuffer<'_>>,
    output: Option<AudioPortBuffer<'_>>,
    start: int,
    end: int,
    before: (Seq<Seq<S>>, Seq<Seq<D>>),
    after: (Seq<Seq<S>>, Seq<Seq<D>>),
) -> bool {
    match common_format(input, output) {
        Ok(AudioSampleFormat::F32) => {
            let read = port_table(input, AudioSampleFormat::F32);
            let write = port_table(output, AudioSampleFormat::F32);
            let count = larger(table_len(read), table_len(write));
            &&& channels_played(f, gain, read, write, start, end, count, before.0, after.0)
            &&& after.1 == before.1
        },
        Ok(AudioSampleFormat::F64) => {
            let read = port_table(input, AudioSampleFormat::F64);
            let write = port_table(output, AudioSampleFormat::F64);
            let count = larger(table_len(read), table_len(write));
            &&& channels_played(g, gain, read, write, start, end, count, before.1, after.1)
            &&& after.0 == before.0
        },
        Err(_) => false,
    }
}

/// Whether the first `n` pairs of ports are played one after the other.
pub open spec fn pairs_played<S: Default, D: Default, F: Fn(S, u32) -> S, G: Fn(D, u32) -> D>(
    f: F,
    g: G,
    gain: u32,
    inputs: Seq<AudioPortBuffer<'_>>,
    outputs: Seq<AudioPortBuffer<'_>>,
    start: int,
    end: int,
    n: nat,
    before: (Seq<Seq<S>>, Seq<Seq<D>>),
    after: (Seq<Seq<S>>, Seq<Seq<D>>),
) -> bool
    decreases n,
{
    if n == 0 {
        after == before
    } else {
        exists|middle: (Seq<Seq<S>>, Seq<Seq<D>>)|
            pairs_played(f, g, gain, inputs, outputs, start, end, (n - 1) as nat, before, middle)
                && #[trigger] pair_played(
                f,
                g,
                gain,
                port_at(inputs, (n - 1) as usize),
                port_at(outputs, (n - 1) as usize),
                start,
                end,
                middle,
                after,
            )
    }
}

/// The first error among the pairs of ports from `i` on: two ports without a precision in
/// common.
pub open spec fn format_error(
    inputs: Seq<AudioPortBuffer<'_>>,
    outputs: Seq<AudioPortBuffer<'_>>,
    i: nat,
) -> Option<AudioBufferError>
    decreases pair_count(inputs, outputs) - i,
{
    if i >= pair_count(inputs, outputs) {
        None
    } else {
        match common_format(port_at(inputs, i as usize), port_at(outputs, i as usize)) {
            Err(error) => Some(error),
            Ok(_) => format_error(inputs, outputs, i + 1),
        }
    }
}

/// How many pairs of ports come before the first error.
pub open spec fn pairs_before_error(
    inputs: Seq<AudioPortBuffer<'_>>,
    outputs: Seq<AudioPortBuffer<'_>>,
    i: nat,
) -> nat
    decreases pair_count(inputs, outputs) - i,
{
    if i >= pair_count(inputs, outputs) {
        i
    } else {
        match common_format(port_at(inputs, i as usize), port_at(outputs, i as usize)) {
            Err(_) => i,
            Ok(_) => pairs_before_error(inputs, outputs, i + 1),
        }
    }
}

/// Whether every channel of the ports has its samples in the blocks.
pub open spec fn ports_are_backed(
    ports: Seq<AudioPortBuffer<'_>>,
    frames_count: u32,
    singles: int,
    doubles: int,
) -> bool {
    forall|i: int|
        0 <= i < ports.len() ==> {
            &&& addresses_are_valid(
                (#[trigger] ports[i]).table(AudioSampleFormat::F32),
                frames_count,
                singles,
            )
            &&& addresses_are_valid(
                ports[i].table(AudioSampleFormat::F64),
                frames_count,
                doubles,
            )
        }
}

/// Whether every channel of a block has its samples, one for each frame.
pub open spec fn is_backed<S, D>(audio: AudioProcessBuffer<'_, '_, S, D>) -> bool {
    &&& ports_are_backed(
        audio.inputs@,
        audio.frames_count,
        audio.singles@.len() as int,
        audio.doubles@.len() as int,
    )
    &&& ports_are_backed(
        audio.outputs@,
        audio.frames_count,
        audio.singles@.len() as int,
        audio.doubles@.len() as int,
    )
    &&& all_have_length(contents(audio.singles@), audio.frames_count as int)
    &&& all_have_length(contents(audio.doubles@), audio.frames_count as int)
}

/// The samples of a block.
pub open spec fn samples_of<S, D>(audio: AudioProcessBuffer<'_, '_, S, D>) -> (
    Seq<Seq<S>>,
    Seq<Seq<D>>,
) {
    (contents(audio.singles@), contents(audio.doubles@))
}

/// Plays one pair of ports.
fn play_pair<
    S: Copy + Default,
    D: Copy + Default,
    F: Fn(S, u32) -> S,
    G: Fn(D, u32) -> D,
>(
    audio: &mut AudioProcessBuffer<'_, '_, S, D>,
    index: usize,
    start: usize,
    len: usize,
    f: &F,
    g: &G,
    gain: u32,
) -> (result: Result<(), AudioBufferError>)
    requires
        is_backed(*old(audio)),
        index < pair_count(old(audio).inputs@, old(audio).outputs@),
        forall|x: S| call_requires(*f, (x, gain)),
        forall|x: D| call_requires(*g, (x, gain)),
    ensures
        is_backed(*final(audio)),
        final(audio).inputs@ == old(audio).inputs@,
        final(audio).outputs@ == old(audio).outputs@,
        final(audio).frames_count == old(audio).frames_count,
        final(final(audio).singles)@ == final(old(audio).singles)@,
        final(final(audio).doubles)@ == final(old(audio).doubles)@,
        ({
            let input = port_at(old(audio).inputs@, index);
            let output = port_at(old(audio).outputs@, index);
            match common_format(input, output) {
                Err(error) => result == Err::<(), AudioBufferError>(error) && samples_of(
                    *final(audio),
                ) == samples_of(*old(audio)),
                Ok(_) => result is Ok && pair_played(
                    *f,
                    *g,
                    gain,
                    input,
                    output,
                    start as int,
                    start + len,
                    samples_of(*old(audio)),
                    samples_of(*final(audio)),
                ),
            }
        }),
{
    let ghost input = port_at(audio.inputs@, index);
    let ghost output = port_at(audio.outputs@, index);
    let ghost frames = audio.frames_count;
    let ghost (singles, doubles) = samples_of(*audio);
    proof {
        let (n, m) = (singles.len() as int, doubles.len() as int);
        lemma_tables_are_valid(audio.inputs@, frames, n, m, index);
        lemma_tables_are_valid(audio.outputs@, frames, n, m, index);
    }
    let result = match audio.port_pair(index) {
        None => Ok(()),
        Some(mut pair) => match pair.channels() {
            Err(error) => Err(error),
            Ok(AudioPortChannels::F32(mut channels)) => {
                proof {
                    lemma_well_formed(channels, singles);
                }
                process_channels_range(&mut channels, start, len, f, gain);
                assert(all_have_length(contents(channels.blocks@), frames as int));
                Ok(())
            },
            Ok(AudioPortChannels::F64(mut channels)) => {
                proof {
                    lemma_well_formed(channels, doubles);
                }
                process_channels_range(&mut channels, start, len, g, gain);
                assert(all_have_length(contents(channels.blocks@), frames as int));
                Ok(())
            },
        },
    };
    proof {
        let (new_singles, new_doubles) = samples_of(*audio);
        assert(new_singles.len() == audio.singles@.len());
        assert(new_doubles.len() == audio.doubles@.len());
        assert(singles.len() == old(audio).singles@.len());
        assert(doubles.len() == old(audio).doubles@.len());
    }
    result
}

/// The table of a port leads into the blocks.
proof fn lemma_tables_are_valid(
    ports: Seq<AudioPortBuffer<'_>>,
    frames_count: u32,
    singles: int,
    doubles: int,
    index: usize,
)
    requires
        ports_are_backed(ports, frames_count, singles, doubles),
    ensures
        addresses_are_valid(
            port_table(port_at(ports, index), AudioSampleFormat::F32),
            frames_count,
            singles,
        ),
        addresses_are_valid(
            port_table(port_at(ports, index), AudioSampleFormat::F64),
            frames_count,
            doubles,
        ),
{
    if index < ports.len() {
        let port = ports[index as int];
        assert(addresses_are_valid(port.table(AudioSampleFormat::F32), frames_count, singles));
    }
}

proof fn lemma_well_formed<T>(channels: AudioPairedChannels<'_, '_, T>, samples: Seq<Seq<T>>)
    requires
        contents(channels.blocks@) == samples,
        addresses_are_valid(channels.input_data, channels.frames_count, samples.len() as int),
        addresses_are_valid(channels.output_data, channels.frames_count, samples.len() as int),
        all_have_length(samples, channels.frames_count as int),
    ensures
        channels.is_well_formed(),
{
    assert(samples.len() == channels.blocks@.len());
    assert forall|i: int| 0 <= i < channels.blocks@.len() implies (
    #[trigger] contents(channels.blocks@)[i]).len() == channels.frames_count by {
        assert(samples[i].len() == channels.frames_count);
    }
}

proof fn lemma_next_pair<S: Default, D: Default, F: Fn(S, u32) -> S, G: Fn(D, u32) -> D>(
    f: F,
    g: G,
    gain: u32,
    inputs: Seq<AudioPortBuffer<'_>>,
    outputs: Seq<AudioPortBuffer<'_>>,
    start: int,
    end: int,
    index: usize,
    before: (Seq<Seq<S>>, Seq<Seq<D>>),
    middle: (Seq<Seq<S>>, Seq<Seq<D>>),
    after: (Seq<Seq<S>>, Seq<Seq<D>>),
)
    requires
        pairs_played(f, g, gain, inputs, outputs, start, end, index as nat, before, middle),
        pair_played(
            f,
            g,
            gain,
            port_at(inputs, index),
            port_at(outputs, index),
            start,
            end,
            middle,
            after,
        ),
    ensures
        pairs_played(f, g, gain, inputs, outputs, start, end, index as nat + 1, before, after),
{
    let n = index as nat + 1;
    assert((n - 1) as usize == index);
    assert(pairs_played(f, g, gain, inputs, outputs, start, end, (n - 1) as nat, before, middle));
}

/// A range that ends where it begins, or before, is as good as any other such range, and playing
/// it changes no channel.
proof fn lemma_empty_channels<T: Default, F: Fn(T, u32) -> T>(
    f: F,
    gain: u32,
    input: Option<&[usize]>,
    output: Option<&[usize]>,
    start: int,
    end: int,
    other_end: int,
    n: nat,
    frames_count: u32,
    before: Seq<Seq<T>>,
    after: Seq<Seq<T>>,
)
    requires
        end <= start,
        other_end <= start,
        addresses_are_valid(output, frames_count, before.len() as int),
        channels_played(f, gain, input, output, start, end, n, before, after),
    ensures
        channels_played(f, gain, input, output, start, other_end, n, before, after),
        after == before,
    decreases n,
{
    if n > 0 {
        let index = (n - 1) as usize;
        let read = address_at(input, index);
        let write = address_at(output, index);
        let middle = choose|middle: Seq<Seq<T>>|
            channels_played(f, gain, input, output, start, end, (n - 1) as nat, before, middle)
                && #[trigger] channel_played(f, gain, read, write, start, end, middle, after);
        lemma_empty_channels(
            f,
            gain,
            input,
            output,
            start,
            end,
            other_end,
            (n - 1) as nat,
            frames_count,
            before,
            middle,
        );
        if let Some(write) = write {
            assert(samples_at(after, write) =~= samples_at(middle, write));
            assert(with_samples(middle, write, samples_at(middle, write)) =~= middle);
        }
        assert(channel_played(f, gain, read, write, start, other_end, middle, after));
    }
}

/// A range that ends where it begins, or before, is as good as any other such range, and playing
/// it changes nothing.
proof fn lemma_empty_pairs<S: Default, D: Default, F: Fn(S, u32) -> S, G: Fn(D, u32) -> D>(
    f: F,
    g: G,
    gain: u32,
    inputs: Seq<AudioPortBuffer<'_>>,
    outputs: Seq<AudioPortBuffer<'_>>,
    start: int,
    end: int,
    other_end: int,
    n: nat,
    frames_count: u32,
    before: (Seq<Seq<S>>, Seq<Seq<D>>),
    after: (Seq<Seq<S>>, Seq<Seq<D>>),
)
    requires
        end <= start,
        other_end <= start,
        ports_are_backed(outputs, frames_count, before.0.len() as int, before.1.len() as int),
        pairs_played(f, g, gain, inputs, outputs, start, end, n, before, after),
    ensures
        pairs_played(f, g, gain, inputs, outputs, start, other_end, n, before, after),
        after == before,
    decreases n,
{
    if n > 0 {
        let index = (n - 1) as usize;
        let input = port_at(inputs, index);
        let output = port_at(outputs, index);
        let middle = choose|middle: (Seq<Seq<S>>, Seq<Seq<D>>)|
            pairs_played(f, g, gain, inputs, outputs, start, end, (n - 1) as nat, before, middle)
                && #[trigger] pair_played(f, g, gain, input, output, start, end, middle, after);
        lemma_empty_pairs(
            f,
            g,
            gain,
            inputs,
            outputs,
            start,
            end,
            other_end,
            (n - 1) as nat,
            frames_count,
            before,
            middle,
        );
        lemma_tables_are_valid(
            outputs,
            frames_count,
            before.0.len() as int,
            before.1.len() as int,
            index,
        );
        let single = AudioSampleFormat::F32;
        let double = AudioSampleFormat::F64;
        match common_format(input, output) {
            Ok(AudioSampleFormat::F32) => lemma_empty_channels(
                f,
                gain,
                port_table(input, single),
                port_table(output, single),
                start,
                end,
                other_end,
                larger(table_len(port_table(input, single)), table_len(port_table(output, single))),
                frames_count,
                middle.0,
                after.0,
            ),
            Ok(AudioSampleFormat::F64) => lemma_empty_channels(
                g,
                gain,
                port_table(input, double),
                port_table(output, double),
                start,
                end,
                other_end,
                larger(table_len(port_table(input, double)), table_len(port_table(output, double))),
                frames_count,
                middle.1,
                after.1,
            ),
            Err(_) => {},
        }
        assert(pair_played(f, g, gain, input, output, start, other_end, middle, after));
        assert(after == before);
    }
}

/// Plays the frames from `start` to `end` of every port, up to the first pair of ports without a
/// precision in common. A range that ends where it begins, or before, has no frames.
pub fn process_audio_range<
    S: Copy + Default,
    D: Copy + Default,
    F: Fn(S, u32) -> S,
    G: Fn(D, u32) -> D,
>(
    audio: &mut AudioProcessBuffer<'_, '_, S, D>,
    start: usize,
    end: usize,
    f: &F,
    g: &G,
    gain: u32,
) -> (result: Result<(), AudioBufferError>)
    requires
        is_backed(*old(audio)),
        forall|x: S| call_requires(*f, (x, gain)),
        forall|x: D| call_requires(*g, (x, gain)),
    ensures
        is_backed(*final(audio)),
        final(audio).inputs@ == old(audio).inputs@,
        final(audio).outputs@ == old(audio).outputs@,
        final(audio).frames_count == old(audio).frames_count,
        final(final(audio).singles)@ == final(old(audio).singles)@,
        final(final(audio).doubles)@ == final(old(audio).doubles)@,
        result == match format_error(old(audio).inputs@, old(audio).outputs@, 0) {
            None => Ok::<(), AudioBufferError>(()),
            Some(error) => Err(error),
        },
        pairs_played(
            *f,
            *g,
            gain,
            old(audio).inputs@,
            old(audio).outputs@,
            start as int,
            end as int,
            pairs_before_error(old(audio).inputs@, old(audio).outputs@, 0),
            samples_of(*old(audio)),
            samples_of(*final(audio)),
        ),
        end <= start ==> samples_of(*final(audio)) == samples_of(*old(audio)),
{
    let len: usize = if end > start {
        end - start
    } else {
        0
    };
    let ghost reached = start + len;
    let count: usize = audio.port_pair_count();
    let mut index: usize = 0;
    while index < count
        invariant
            index <= count,
            reached == start + len,
            reached == if end > start {
                end as int
            } else {
                start as int
            },
            is_backed(*old(audio)),
            is_backed(*audio),
            audio.inputs@ == old(audio).inputs@,
            audio.outputs@ == old(audio).outputs@,
            audio.frames_count == old(audio).frames_count,
            final(audio.singles)@ == final(old(audio).singles)@,
            final(audio.doubles)@ == final(old(audio).doubles)@,
            count == pair_count(old(audio).inputs@, old(audio).outputs@),
            forall|x: S| call_requires(*f, (x, gain)),
            forall|x: D| call_requires(*g, (x, gain)),
            format_error(old(audio).inputs@, old(audio).outputs@, 0) == format_error(
                old(audio).inputs@,
                old(audio).outputs@,
                index as nat,
            ),
            pairs_before_error(old(audio).inputs@, old(audio).outputs@, 0) == pairs_before_error(
                old(audio).inputs@,
                old(audio).outputs@,
                index as nat,
            ),
            pairs_played(
                *f,
                *g,
                gain,
                old(audio).inputs@,
                old(audio).outputs@,
                start as int,
                reached,
                index as nat,
                samples_of(*old(audio)),
                samples_of(*audio),
            ),
        decreases count - index,
    {
        let ghost middle = samples_of(*audio);
        if let Err(error) = play_pair(audio, index, start, len, f, g, gain) {
            proof {
                if end <= start {
                    lemma_empty_pairs(
                        *f,
                        *g,
                        gain,
                        audio.inputs@,
                        audio.outputs@,
                        start as int,
                        reached,
                        end as int,
                        index as nat,
                        audio.frames_count,
                        samples_of(*old(audio)),
                        samples_of(*audio),
                    );
                }
            }
            return Err(error);
        }
        proof {
            lemma_next_pair(
                *f,
                *g,
                gain,
                audio.inputs@,
                audio.outputs@,
                start as int,
                reached,
                index,
                samples_of(*old(audio)),
                middle,
                samples_of(*audio),
            );
        }
        index += 1;
    }
    proof {
        if end <= start {
            lemma_empty_pairs(
                *f,
                *g,
                gain,
                audio.inputs@,
                audio.outputs@,
                start as int,
                reached,
                end as int,
                index as nat,
                audio.frames_count,
                samples_of(*old(audio)),
                samples_of(*audio),
            );
        }
    }
    Ok(())
}

// A block

/// How far a block has been played, and with what.
#[derive(Debug, Clone, Copy, PartialEq, Eq, Structural)]
pub struct GainBlock {
    pub frames_count: u32,
    /// The first frame that was not played yet.
    pub segment_start: u32,
    pub parameters: ParameterStateSnapshot,
}

/// The frame at which an event cuts a block. An event behind the end of the block cuts at the
/// end.
pub open spec fn cut_at(time: u32, frames_count: u32) -> u32 {
    if time < frames_count {
        time
    } else {
        frames_count
    }
}

/// What an event sets. `narrowed` is the bits of the gain that the value of the event stands for.
pub open spec fn update_by(event: InputEvent, narrowed: u32) -> Option<ParameterUpdate> {
    match event {
        InputEvent::ParamValue(event) => update_of(event.parameter_id, event.value, narrowed),
        _ => None,
    }
}

impl GainBlock {
    /// Whether the block was not played beyond its end.
    pub open spec fn wf(self) -> bool {
        self.segment_start <= self.frames_count
    }

    /// A block of which nothing was played.
    pub fn new(frames_count: u32, parameters: ParameterStateSnapshot) -> (block: Self)
        ensures
            block.wf(),
            block == (GainBlock { frames_count, segment_start: 0, parameters }),
    {
        GainBlock { frames_count, segment_start: 0, parameters }
    }

    /// The block once it was played up to a frame.
    pub open spec fn played_to(self, frame: u32) -> Self {
        GainBlock {
            segment_start: if frame > self.segment_start {
                frame
            } else {
                self.segment_start
            },
            ..self
        }
    }

    /// The block once an update came.
    pub open spec fn updated(self, update: Option<ParameterUpdate>) -> Self {
        match update {
            Some(update) => GainBlock { parameters: self.parameters.updated(update), ..self },
            None => self,
        }
    }

    /// Plays up to a frame with the gain that holds now.
    fn play_to<S: Copy + Default, D: Copy + Default, F: Fn(S, u32) -> S, G: Fn(D, u32) -> D>(
        &mut self,
        audio: &mut AudioProcessBuffer<'_, '_, S, D>,
        frame: u32,
        f: &F,
        g: &G,
    ) -> (result: Result<(), AudioBufferError>)
        requires
            is_backed(*old(audio)),
            forall|x: S, gain: u32| call_requires(*f, (x, gain)),
            forall|x: D, gain: u32| call_requires(*g, (x, gain)),
        ensures
            is_backed(*final(audio)),
            final(audio).inputs@ == old(audio).inputs@,
            final(audio).outputs@ == old(audio).outputs@,
            final(audio).frames_count == old(audio).frames_count,
            final(final(audio).singles)@ == final(old(audio).singles)@,
            final(final(audio).doubles)@ == final(old(audio).doubles)@,
            range_played(
                *f,
                *g,
                old(self).parameters.effective_gain(),
                old(audio).inputs@,
                old(audio).outputs@,
                old(self).segment_start,
                frame,
                samples_of(*old(audio)),
                samples_of(*final(audio)),
            ),
            result == range_result(
                old(audio).inputs@,
                old(audio).outputs@,
                old(self).segment_start,
                frame,
            ),
            *final(self) == if result is Ok {
                old(self).played_to(frame)
            } else {
                *old(self)
            },
    {
        if frame > self.segment_start {
            let gain: u32 = self.parameters.gain_in_effect();
            if let Err(error) = process_audio_range(
                audio,
                self.segment_start as usize,
                frame as usize,
                f,
                g,
                gain,
            ) {
                return Err(error);
            }
            self.segment_start = frame;
        }
        Ok(())
    }

    /// Plays up to an event, and lets the event take effect.
    pub fn event<S: Copy + Default, D: Copy + Default, F: Fn(S, u32) -> S, G: Fn(D, u32) -> D>(
        &mut self,
        audio: &mut AudioProcessBuffer<'_, '_, S, D>,
        event: &InputEvent,
        narrowed: u32,
        f: &F,
        g: &G,
    ) -> (result: Result<Option<ParameterUpdate>, AudioBufferError>)
        requires
            old(self).wf(),
            is_backed(*old(audio)),
            forall|x: S, gain: u32| call_requires(*f, (x, gain)),
            forall|x: D, gain: u32| call_requires(*g, (x, gain)),
        ensures
            final(self).wf(),
            is_backed(*final(audio)),
            final(audio).inputs@ == old(audio).inputs@,
            final(audio).outputs@ == old(audio).outputs@,
            final(audio).frames_count == old(audio).frames_count,
            final(final(audio).singles)@ == final(old(audio).singles)@,
            final(final(audio).doubles)@ == final(old(audio).doubles)@,
            ({
                let cut = cut_at(event.at(), old(self).frames_count);
                let update = update_by(*event, narrowed);
                &&& range_played(
                    *f,
                    *g,
                    old(self).parameters.effective_gain(),
                    old(audio).inputs@,
                    old(audio).outputs@,
                    old(self).segment_start,
                    cut,
                    samples_of(*old(audio)),
                    samples_of(*final(audio)),
                )
                &&& match range_result(
                    old(audio).inputs@,
                    old(audio).outputs@,
                    old(self).segment_start,
                    cut,
                ) {
                    Ok(_) => {
                        &&& result == Ok::<Option<ParameterUpdate>, AudioBufferError>(update)
                        &&& *final(self) == old(self).played_to(cut).updated(update)
                    },
                    Err(error) => {
                        &&& result == Err::<Option<ParameterUpdate>, AudioBufferError>(error)
                        &&& *final(self) == *old(self)
                    },
                }
            }),
    {
        let time: u32 = event.time();
        let cut: u32 = if time < self.frames_count {
            time
        } else {
            self.frames_count
        };
        if let Err(error) = self.play_to(audio, cut, f, g) {
            return Err(error);
        }
        let update = match event {
            InputEvent::ParamValue(event) => parameter_update(
                event.parameter_id,
                event.value,
                narrowed,
            ),
            _ => None,
        };
        if let Some(update) = update {
            self.parameters.store(update);
        }
        Ok(update)
    }

    /// Plays the rest of the block.
    pub fn finish<S: Copy + Default, D: Copy + Default, F: Fn(S, u32) -> S, G: Fn(D, u32) -> D>(
        &mut self,
        audio: &mut AudioProcessBuffer<'_, '_, S, D>,
        f: &F,
        g: &G,
    ) -> (result: Result<ProcessStatus, AudioBufferError>)
        requires
            old(self).wf(),
            is_backed(*old(audio)),
            forall|x: S, gain: u32| call_requires(*f, (x, gain)),
            forall|x: D, gain: u32| call_requires(*g, (x, gain)),
        ensures
            is_backed(*final(audio)),
            final(audio).inputs@ == old(audio).inputs@,
            final(audio).outputs@ == old(audio).outputs@,
            final(audio).frames_count == old(audio).frames_count,
            final(final(audio).singles)@ == final(old(audio).singles)@,
            final(final(audio).doubles)@ == final(old(audio).doubles)@,
            ({
                let end = old(self).frames_count;
                &&& range_played(
                    *f,
                    *g,
                    old(self).parameters.effective_gain(),
                    old(audio).inputs@,
                    old(audio).outputs@,
                    old(self).segment_start,
                    end,
                    samples_of(*old(audio)),
                    samples_of(*final(audio)),
                )
                &&& match range_result(
                    old(audio).inputs@,
                    old(audio).outputs@,
                    old(self).segment_start,
                    end,
                ) {
                    Ok(_) => {
                        &&& result == Ok::<ProcessStatus, AudioBufferError>(
                            ProcessStatus::ContinueIfNotQuiet,
                        )
                        &&& *final(self) == old(self).played_to(end)
                    },
                    Err(error) => {
                        &&& result == Err::<ProcessStatus, AudioBufferError>(error)
                        &&& *final(self) == *old(self)
                    },
                }
            }),
    {
        let end: u32 = self.frames_count;
        if let Err(error) = self.play_to(audio, end, f, g) {
            return Err(error);
        }
        Ok(ProcessStatus::ContinueIfNotQuiet)
    }
}

/// Whether the frames from `start` to `end` of every port are played, up to the first pair of
/// ports without a precision in common. Where there are no such frames nothing changes.
pub open spec fn range_played<S: Default, D: Default, F: Fn(S, u32) -> S, G: Fn(D, u32) -> D>(
    f: F,
    g: G,
    gain: u32,
    inputs: Seq<AudioPortBuffer<'_>>,
    outputs: Seq<AudioPortBuffer<'_>>,
    start: u32,
    end: u32,
    before: (Seq<Seq<S>>, Seq<Seq<D>>),
    after: (Seq<Seq<S>>, Seq<Seq<D>>),
) -> bool {
    if start < end {
        pairs_played(
            f,
            g,
            gain,
            inputs,
            outputs,
            start as int,
            end as int,
            pairs_before_error(inputs, outputs, 0),
            before,
            after,
        )
    } else {
        after == before
    }
}

/// Whether the frames from `start` to `end` can be played.
pub open spec fn range_result(
    inputs: Seq<AudioPortBuffer<'_>>,
    outputs: Seq<AudioPortBuffer<'_>>,
    start: u32,
    end: u32,
) -> Result<(), AudioBufferError> {
    match format_error(inputs, outputs, 0) {
        Some(error) => if start < end {
            Err(error)
        } else {
            Ok(())
        },
        None => Ok(()),
    }
}

// All events of a block

/// A block after a series of events at the given times.
pub open spec fn after_events(block: GainBlock, events: Seq<(InputEvent, u32)>) -> GainBlock
    decreases events.len(),
{
    if events.len() == 0 {
        block
    } else {
        let before = after_events(block, events.drop_last());
        let (event, narrowed) = events.last();
        before.played_to(cut_at(event.at(), block.frames_count)).updated(update_by(event, narrowed))
    }
}

/// The parts into which events cut a block, each from its first frame to the one behind its
/// last, with the gain that it is played with.
pub open spec fn parts_played(block: GainBlock, events: Seq<(InputEvent, u32)>) -> Seq<
    (u32, u32, u32),
>
    decreases events.len(),
{
    if events.len() == 0 {
        Seq::empty()
    } else {
        let parts = parts_played(block, events.drop_last());
        let before = after_events(block, events.drop_last());
        let cut = cut_at(events.last().0.at(), block.frames_count);
        if before.segment_start < cut {
            parts.push((before.segment_start, cut, before.parameters.effective_gain()))
        } else {
            parts
        }
    }
}

/// Whether parts follow each other without a gap, from one frame to another.
pub open spec fn parts_tile(parts: Seq<(u32, u32, u32)>, from: u32, to: u32) -> bool
    decreases parts.len(),
{
    if parts.len() == 0 {
        from == to
    } else {
        parts.last().1 == to && parts.last().0 < to && parts_tile(
            parts.drop_last(),
            from,
            parts.last().0,
        )
    }
}

/// Whatever events come, and at whatever times, every frame up to the one that is reached is
/// played exactly once and in order, and no frame behind the end of the block is.
pub proof fn every_frame_is_played_once(block: GainBlock, events: Seq<(InputEvent, u32)>)
    requires
        block.segment_start == 0,
    ensures
        after_events(block, events).frames_count == block.frames_count,
        after_events(block, events).segment_start <= block.frames_count,
        parts_tile(parts_played(block, events), 0, after_events(block, events).segment_start),
        ({
            let last = after_events(block, events);
            last.played_to(block.frames_count).segment_start == block.frames_count
        }),
    decreases events.len(),
{
    if events.len() > 0 {
        every_frame_is_played_once(block, events.drop_last());
        let parts = parts_played(block, events.drop_last());
        let before = after_events(block, events.drop_last());
        let cut = cut_at(events.last().0.at(), block.frames_count);
        if before.segment_start < cut {
            let part = (before.segment_start, cut, before.parameters.effective_gain());
            assert(parts.push(part).drop_last() =~= parts);
        }
    }
}

/// A part of a block ends at its event, or at the end of the block where the event lies behind.
pub proof fn parts_end_within_the_block(time: u32, frames_count: u32)
    ensures
        cut_at(time, frames_count) <= frames_count,
        time <= frames_count ==> cut_at(time, frames_count) == time,
        time > frames_count ==> cut_at(time, frames_count) == frames_count,
{
}

/// A new gain or bypass takes effect at its frame: what comes before is played with what held
/// until then, what comes behind with the new value, and the other value stays. No other event
/// changes a value.
pub proof fn values_take_effect_at_their_frame(
    block: GainBlock,
    event: InputEvent,
    narrowed: u32,
)
    requires
        block.wf(),
    ensures
        ({
            let cut = cut_at(event.at(), block.frames_count);
            let after = block.played_to(cut).updated(update_by(event, narrowed));
            let before = block.parameters;
            &&& after.frames_count == block.frames_count
            &&& after.segment_start >= block.segment_start
            &&& after.segment_start == block.segment_start || after.segment_start == cut
            &&& after.segment_start >= cut
            &&& event matches InputEvent::ParamValue(value) ==> {
                &&& cut == cut_at(value.time, block.frames_count)
                &&& value.parameter_id == PARAM_GAIN_ID && narrowed <= MAX_GAIN_BITS ==> {
                    &&& after.parameters.gain == narrowed
                    &&& after.parameters.bypass == before.bypass
                }
                &&& value.parameter_id == PARAM_BYPASS_ID ==> {
                    &&& after.parameters.gain == before.gain
                    &&& after.parameters.bypass == (0x3fe0_0000_0000_0000 <= value.value
                        <= 0x7ff0_0000_0000_0000)
                }
                &&& value.parameter_id != PARAM_GAIN_ID && value.parameter_id != PARAM_BYPASS_ID
                    ==> after.parameters == before
            }
            &&& !(event is ParamValue) ==> after.parameters == before
        }),
{
}

/// While the bypass is on every part of a block is played with a gain of 1, whatever gains come.
pub proof fn a_bypassed_block_is_played_as_it_is(
    block: GainBlock,
    events: Seq<(InputEvent, u32)>,
)
    requires
        block.parameters.bypass,
        forall|i: int|
            0 <= i < events.len() ==> ((#[trigger] events[i]).0 matches InputEvent::ParamValue(
                event,
            ) ==> event.parameter_id != PARAM_BYPASS_ID),
    ensures
        after_events(block, events).parameters.bypass,
        forall|i: int|
            0 <= i < parts_played(block, events).len() ==> (#[trigger] parts_played(
                block,
                events,
            )[i]).2 == UNITY_GAIN_BITS,
    decreases events.len(),
{
    if events.len() > 0 {
        let shorter = events.drop_last();
        assert forall|i: int| 0 <= i < shorter.len() implies ((#[trigger] shorter[i]).0
            matches InputEvent::ParamValue(event) ==> event.parameter_id != PARAM_BYPASS_ID) by {
            assert(shorter[i] == events[i]);
        }
        a_bypassed_block_is_played_as_it_is(block, shorter);
        assert(events.last() == events[events.len() - 1]);
        let before = parts_played(block, shorter);
        let parts = parts_played(block, events);
        assert forall|i: int| 0 <= i < parts.len() implies (#[trigger] parts[i]).2
            == UNITY_GAIN_BITS by {
            if i < before.len() {
                assert(parts[i] == before[i]);
            }
        }
    }
}

/// Whether the channels of a port go out apart: no two of them to the same samples, and none to
/// samples that another one still has to read.
pub open spec fn channels_are_apart(
    input: Option<&[usize]>,
    output: Option<&[usize]>,
    n: nat,
) -> bool {
    forall|j: int, k: int|
        0 <= j < n && 0 <= k < n && j != k ==> {
            let written = #[trigger] address_at(output, j as usize);
            &&& written is Some && written->Some_0 != 0 ==> written != address_at(
                output,
                k as usize,
            )
            &&& written is Some && written->Some_0 != 0 ==> written != #[trigger] address_at(
                input,
                k as usize,
            )
        }
}

/// Every channel of a port goes out as what the function makes of the channel that comes in at the
/// same place and of the gain, in the frames that are played, as silence where none comes in, and
/// as it was in every other frame.
pub proof fn each_channel_is_played_from_its_own<T: Default, F: Fn(T, u32) -> T>(
    f: F,
    gain: u32,
    input: Option<&[usize]>,
    output: Option<&[usize]>,
    start: int,
    end: int,
    n: nat,
    before: Seq<Seq<T>>,
    after: Seq<Seq<T>>,
    channel: int,
    frame: int,
)
    requires
        channels_played(f, gain, input, output, start, end, n, before, after),
        channels_are_apart(input, output, n),
        n <= usize::MAX,
        forall|k: int|
            0 <= k < n ==> (#[trigger] address_at(output, k as usize) matches Some(address)
                ==> address <= before.len()),
        forall|k: int|
            0 <= k < n ==> (#[trigger] address_at(input, k as usize) matches Some(address)
                ==> address <= before.len()),
        0 <= channel < n,
    ensures
        after.len() == before.len(),
        address_at(output, channel as usize) matches Some(written) ==> written != 0 ==> {
            let samples = after[written - 1];
            &&& samples.len() == before[written - 1].len()
            &&& 0 <= frame < samples.len() && start <= frame < end ==> match address_at(
                input,
                channel as usize,
            ) {
                Some(read) => call_ensures(
                    f,
                    (samples_at(before, read)[frame], gain),
                    samples[frame],
                ),
                None => AudioChannelPair::<T>::is_silence(samples[frame]),
            }
            &&& 0 <= frame < samples.len() && !(start <= frame < end) ==> samples[frame]
                == before[written - 1][frame]
        },
    decreases n,
{
    let last = (n - 1) as usize;
    assert(last as int == n - 1);
    let read = address_at(input, last);
    let write = address_at(output, last);
    let middle = choose|middle: Seq<Seq<T>>|
        channels_played(f, gain, input, output, start, end, (n - 1) as nat, before, middle)
            && #[trigger] channel_played(f, gain, read, write, start, end, middle, after);
    lemma_other_samples_stay(f, gain, input, output, start, end, (n - 1) as nat, before, middle, 0);
    assert(address_at(output, (n - 1) as usize) == write);
    if channel == n - 1 {
        if let Some(written) = write {
            if written != 0 {
                assert forall|j: int| 0 <= j < n - 1 implies #[trigger] address_at(
                    output,
                    j as usize,
                ) != Some(written) by {
                    assert(address_at(input, (n - 1) as usize) == read);
                }
                lemma_other_samples_stay(
                    f,
                    gain,
                    input,
                    output,
                    start,
                    end,
                    (n - 1) as nat,
                    before,
                    middle,
                    written,
                );
                if let Some(address) = read {
                    if address != 0 {
                        assert forall|j: int| 0 <= j < n - 1 implies #[trigger] address_at(
                            output,
                            j as usize,
                        ) != Some(address) by {
                            assert(address_at(input, (n - 1) as usize) == read);
                        }
                        lemma_other_samples_stay(
                            f,
                            gain,
                            input,
                            output,
                            start,
                            end,
                            (n - 1) as nat,
                            before,
                            middle,
                            address,
                        );
                    }
                    assert(address_at(input, (n - 1) as usize) == read);
                    assert(samples_at(middle, address) == samples_at(before, address));
                }
            }
        }
    } else {
        each_channel_is_played_from_its_own(
            f,
            gain,
            input,
            output,
            start,
            end,
            (n - 1) as nat,
            before,
            middle,
            channel,
            frame,
        );
        if let Some(written) = address_at(output, channel as usize) {
            if written != 0 {
                assert(address_at(input, (n - 1) as usize) == read);
                assert(write != Some(written));
                assert(after[written - 1] == middle[written - 1]);
            }
        }
    }
}

/// What no channel goes out to stays as it was.
proof fn lemma_other_samples_stay<T: Default, F: Fn(T, u32) -> T>(
    f: F,
    gain: u32,
    input: Option<&[usize]>,
    output: Option<&[usize]>,
    start: int,
    end: int,
    n: nat,
    before: Seq<Seq<T>>,
    after: Seq<Seq<T>>,
    address: usize,
)
    requires
        channels_played(f, gain, input, output, start, end, n, before, after),
        n <= usize::MAX,
        forall|k: int|
            0 <= k < n ==> (#[trigger] address_at(output, k as usize) matches Some(address)
                ==> address <= before.len()),
        address != 0 ==> forall|k: int|
            0 <= k < n ==> #[trigger] address_at(output, k as usize) != Some(address),
    ensures
        after.len() == before.len(),
        0 < address <= before.len() ==> after[address - 1] == before[address - 1],
    decreases n,
{
    if n > 0 {
        let last = (n - 1) as usize;
        assert(last as int == n - 1);
        let read = address_at(input, last);
        let write = address_at(output, last);
        let middle = choose|middle: Seq<Seq<T>>|
            channels_played(f, gain, input, output, start, end, (n - 1) as nat, before, middle)
                && #[trigger] channel_played(f, gain, read, write, start, end, middle, after);
        lemma_other_samples_stay(
            f,
            gain,
            input,
            output,
            start,
            end,
            (n - 1) as nat,
            before,
            middle,
            address,
        );
        assert(address_at(output, (n - 1) as usize) == write);
    }
}

/// A pair of ports is played in one precision, and what it has in the other stays as it was: the
/// double where both ports have it, and the single where neither does.
pub proof fn ports_are_played_in_one_precision<
    S: Default,
    D: Default,
    F: Fn(S, u32) -> S,
    G: Fn(D, u32) -> D,
>(
    f: F,
    g: G,
    gain: u32,
    input: AudioPortBuffer<'_>,
    output: AudioPortBuffer<'_>,
    start: int,
    end: int,
    before: (Seq<Seq<S>>, Seq<Seq<D>>),
    after: (Seq<Seq<S>>, Seq<Seq<D>>),
)
    requires
        pair_played(f, g, gain, Some(input), Some(output), start, end, before, after),
    ensures
        input.data64 is Some && output.data64 is Some ==> {
            &&& after.0 == before.0
            &&& channels_played(
                g,
                gain,
                input.data64,
                output.data64,
                start,
                end,
                larger(table_len(input.data64), table_len(output.data64)),
                before.1,
                after.1,
            )
        },
        input.data64 is None && output.data64 is None && input.data32 is Some && output.data32
            is Some ==> {
            &&& after.1 == before.1
            &&& channels_played(
                f,
                gain,
                input.data32,
                output.data32,
                start,
                end,
                larger(table_len(input.data32), table_len(output.data32)),
                before.0,
                after.0,
            )
        },
{
}

/// The pairs of ports are played from the first on, each of them with a precision in common, and
/// an error comes from the first pair without one.
pub proof fn playing_ends_with_the_first_pair_that_differs(
    inputs: Seq<AudioPortBuffer<'_>>,
    outputs: Seq<AudioPortBuffer<'_>>,
    from: nat,
)
    requires
        from <= pair_count(inputs, outputs),
    ensures
        ({
            let reached = pairs_before_error(inputs, outputs, from);
            let error = format_error(inputs, outputs, from);
            &&& from <= reached <= pair_count(inputs, outputs)
            &&& forall|i: int|
                from <= i < reached ==> (#[trigger] common_format(
                    port_at(inputs, i as usize),
                    port_at(outputs, i as usize),
                )) is Ok
            &&& error is None <==> reached == pair_count(inputs, outputs)
            &&& error matches Some(error) ==> common_format(
                port_at(inputs, reached as usize),
                port_at(outputs, reached as usize),
            ) == Err::<AudioSampleFormat, AudioBufferError>(error)
        }),
        pair_count(inputs, outputs) >= inputs.len(),
        pair_count(inputs, outputs) >= outputs.len(),
        pair_count(inputs, outputs) == inputs.len() || pair_count(inputs, outputs)
            == outputs.len(),
    decreases pair_count(inputs, outputs) - from,
{
    if from < pair_count(inputs, outputs) {
        playing_ends_with_the_first_pair_that_differs(inputs, outputs, from + 1);
    }
}

/// An event is told where the block could be played up to it: with the gain that held until
/// then, or with a gain of 1 while the bypass was on. A block that cannot be played stays as it
/// is, and one that has reached the event leaves its samples alone.
pub proof fn blocks_are_played_up_to_their_events<
    S: Copy + Default,
    D: Copy + Default,
    F: Fn(S, u32) -> S,
    G: Fn(D, u32) -> D,
>(
    block: &mut GainBlock,
    audio: &mut AudioProcessBuffer<'_, '_, S, D>,
    event: InputEvent,
    narrowed: u32,
    f: F,
    g: G,
    result: Result<Option<ParameterUpdate>, AudioBufferError>,
)
    requires
        old(block).wf(),
        call_ensures(
            GainBlock::event::<S, D, F, G>,
            (block, audio, &event, narrowed, &f, &g),
            result,
        ),
    ensures
        ({
            let start = old(block).segment_start;
            let cut = if event.at() < old(block).frames_count {
                event.at()
            } else {
                old(block).frames_count
            };
            let gain = if old(block).parameters.bypass {
                UNITY_GAIN_BITS
            } else {
                old(block).parameters.gain
            };
            let error = format_error(old(audio).inputs@, old(audio).outputs@, 0);
            let before = samples_of(*old(audio));
            let after = samples_of(*final(audio));
            &&& result is Err <==> start < cut && error is Some
            &&& result matches Err(told) ==> error == Some(told) && *final(block) == *old(block)
            &&& result matches Ok(update) ==> {
                &&& update == update_by(event, narrowed)
                &&& final(block).frames_count == old(block).frames_count
                &&& final(block).segment_start == if start < cut {
                    cut
                } else {
                    start
                }
                &&& final(block).parameters == match update {
                    Some(update) => old(block).parameters.updated(update),
                    None => old(block).parameters,
                }
            }
            &&& start >= cut ==> after == before
            &&& start < cut ==> pairs_played(
                f,
                g,
                gain,
                old(audio).inputs@,
                old(audio).outputs@,
                start as int,
                cut as int,
                pairs_before_error(old(audio).inputs@, old(audio).outputs@, 0),
                before,
                after,
            )
        }),
{
}

/// The rest of a block is played to its end with the gain that holds at last, and the host is
/// asked to go on while something is heard. A block that was played to its end leaves its
/// samples alone.
pub proof fn blocks_are_played_to_their_end<
    S: Copy + Default,
    D: Copy + Default,
    F: Fn(S, u32) -> S,
    G: Fn(D, u32) -> D,
>(
    block: &mut GainBlock,
    audio: &mut AudioProcessBuffer<'_, '_, S, D>,
    f: F,
    g: G,
    result: Result<ProcessStatus, AudioBufferError>,
)
    requires
        old(block).wf(),
        call_ensures(GainBlock::finish::<S, D, F, G>, (block, audio, &f, &g), result),
    ensures
        ({
            let start = old(block).segment_start;
            let end = old(block).frames_count;
            let gain = if old(block).parameters.bypass {
                UNITY_GAIN_BITS
            } else {
                old(block).parameters.gain
            };
            let error = format_error(old(audio).inputs@, old(audio).outputs@, 0);
            let before = samples_of(*old(audio));
            let after = samples_of(*final(audio));
            &&& result is Err <==> start < end && error is Some
            &&& result matches Err(told) ==> error == Some(told) && *final(block) == *old(block)
            &&& result matches Ok(status) ==> {
                &&& status == ProcessStatus::ContinueIfNotQuiet
                &&& final(block).segment_start == end
                &&& final(block).frames_count == end
                &&& final(block).parameters == old(block).parameters
            }
            &&& start >= end ==> after == before
            &&& start < end ==> pairs_played(
                f,
                g,
                gain,
                old(audio).inputs@,
                old(audio).outputs@,
                start as int,
                end as int,
                pairs_before_error(old(audio).inputs@, old(audio).outputs@, 0),
                before,
                after,
            )
        }),
{
}

/// A range of frames is played with the gain that was asked for, on every pair of ports before
/// the first that differs, and a range without frames leaves the samples alone.
pub proof fn ranges_are_played_as_asked<
    S: Copy + Default,
    D: Copy + Default,
    F: Fn(S, u32) -> S,
    G: Fn(D, u32) -> D,
>(
    audio: &mut AudioProcessBuffer<'_, '_, S, D>,
    start: usize,
    end: usize,
    f: F,
    g: G,
    gain: u32,
    result: Result<(), AudioBufferError>,
)
    requires
        call_ensures(process_audio_range::<S, D, F, G>, (audio, start, end, &f, &g, gain), result),
    ensures
        result is Ok <==> format_error(old(audio).inputs@, old(audio).outputs@, 0) is None,
        result matches Err(error) ==> format_error(old(audio).inputs@, old(audio).outputs@, 0)
            == Some(error),
        final(audio).inputs@ == old(audio).inputs@,
        final(audio).outputs@ == old(audio).outputs@,
        end <= start ==> samples_of(*final(audio)) == samples_of(*old(audio)),
        pairs_played(
            f,
            g,
            gain,
            old(audio).inputs@,
            old(audio).outputs@,
            start as int,
            end as int,
            pairs_before_error(old(audio).inputs@, old(audio).outputs@, 0),
            samples_of(*old(audio)),
            samples_of(*final(audio)),
        ),
{
}

/// The first pair that is played is the first port that comes in with the first that goes out.
pub proof fn the_first_ports_are_played_with_each_other<
    S: Copy + Default,
    D: Copy + Default,
    F: Fn(S, u32) -> S,
    G: Fn(D, u32) -> D,
>(
    f: F,
    g: G,
    gain: u32,
    inputs: Seq<AudioPortBuffer<'_>>,
    outputs: Seq<AudioPortBuffer<'_>>,
    start: int,
    end: int,
    before: (Seq<Seq<S>>, Seq<Seq<D>>),
    after: (Seq<Seq<S>>, Seq<Seq<D>>),
)
    requires
        inputs.len() > 0,
        outputs.len() > 0,
    ensures
        pairs_played(f, g, gain, inputs, outputs, start, end, 1, before, after) <==> pair_played(
            f,
            g,
            gain,
            Some(inputs[0]),
            Some(outputs[0]),
            start,
            end,
            before,
            after,
        ),
{
    reveal_with_fuel(pairs_played, 2);
}

} // verus!
