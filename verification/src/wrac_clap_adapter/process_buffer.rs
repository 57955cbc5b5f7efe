//! The audio buffers of one processing block.
//!
//! The samples of a block lie in blocks of memory, one for each channel that the host hands over.
//! A channel is known by its address: zero where it is null, and otherwise the number of its
//! block, counted from one. Two channels with the same address share their samples.

use vstd::prelude::*;

verus! {

/// Why the buffers of a block were refused.
#[derive(Debug, Clone, Copy, PartialEq, Eq, Structural)]
pub enum AudioBufferError {
    InvalidPortBuffer,
    InvalidChannelBuffer,
    MismatchedSampleType,
    AliasedOutputBuffer,
}

impl AudioBufferError {
    /// The text that describes the error.
    pub fn message(self) -> (text: &'static str)
        ensures
            text@ == match self {
                AudioBufferError::InvalidPortBuffer => "invalid audio port buffer"@,
                AudioBufferError::InvalidChannelBuffer => "invalid audio channel buffer"@,
                AudioBufferError::MismatchedSampleType =>
                    "input and output audio buffers use different sample types"@,
                AudioBufferError::AliasedOutputBuffer => "output audio buffers alias each other"@,
            },
    {
        match self {
            AudioBufferError::InvalidPortBuffer => "invalid audio port buffer",
            AudioBufferError::InvalidChannelBuffer => "invalid audio channel buffer",
            AudioBufferError::MismatchedSampleType =>
                "input and output audio buffers use different sample types",
            AudioBufferError::AliasedOutputBuffer => "output audio buffers alias each other",
        }
    }
}

/// The buffer of one port: the addresses of its channels, for samples of single and of double
/// precision. A table that is missing was null.
#[derive(Debug, Clone, Copy)]
pub struct AudioPortBuffer<'a> {
    pub channel_count: u32,
    pub data32: Option<&'a [usize]>,
    pub data64: Option<&'a [usize]>,
}

/// The precision of samples.
#[derive(Debug, Clone, Copy, PartialEq, Eq, Structural)]
pub enum AudioSampleFormat {
    F32,
    F64,
}

// Validation

impl<'a> AudioPortBuffer<'a> {
    /// The addresses of the channels in one precision.
    pub open spec fn table(self, format: AudioSampleFormat) -> Option<&'a [usize]> {
        match format {
            AudioSampleFormat::F32 => self.data32,
            AudioSampleFormat::F64 => self.data64,
        }
    }

    /// Whether each table has one address for each channel.
    pub open spec fn is_well_formed(self) -> bool {
        &&& self.data32 matches Some(table) ==> table@.len() == self.channel_count
        &&& self.data64 matches Some(table) ==> table@.len() == self.channel_count
    }

    /// Whether no address of a table is null.
    pub open spec fn has_no_null(self, format: AudioSampleFormat) -> bool {
        self.table(format) matches Some(table) ==> forall|i: int|
            0 <= i < table@.len() ==> #[trigger] table@[i] != 0
    }

    /// Whether the channels can be used: they have samples, and where there are frames no
    /// channel is null.
    pub open spec fn is_usable(self, frames_count: u32) -> bool {
        &&& self.data32 is Some || self.data64 is Some || self.channel_count == 0
        &&& frames_count > 0 ==> self.has_no_null(AudioSampleFormat::F32) && self.has_no_null(
            AudioSampleFormat::F64,
        )
    }
}

/// Whether channel `c` of port `p` shares its samples with channel `d` of port `q`, which comes
/// before it.
pub open spec fn shares_samples(
    ports: Seq<AudioPortBuffer>,
    format: AudioSampleFormat,
    p: int,
    c: int,
    q: int,
    d: int,
) -> bool {
    &&& 0 <= q <= p < ports.len()
    &&& ports[p].table(format) is Some
    &&& ports[q].table(format) is Some
    &&& 0 <= c < ports[p].table(format)->Some_0@.len()
    &&& 0 <= d < ports[q].table(format)->Some_0@.len()
    &&& q < p || d < c
    &&& ports[p].table(format)->Some_0@[c] == ports[q].table(format)->Some_0@[d]
}

/// Whether any two channels of the ports share their samples.
pub open spec fn has_shared_samples(ports: Seq<AudioPortBuffer>, format: AudioSampleFormat) -> bool {
    exists|p: int, c: int, q: int, d: int| shares_samples(ports, format, p, c, q, d)
}

/// Whether every port can be used.
pub open spec fn all_usable(ports: Seq<AudioPortBuffer>, frames_count: u32) -> bool {
    forall|i: int| 0 <= i < ports.len() ==> (#[trigger] ports[i]).is_usable(frames_count)
}

/// Why the buffers of a block are refused.
pub open spec fn buffers_error(
    inputs: Seq<AudioPortBuffer>,
    outputs: Seq<AudioPortBuffer>,
    frames_count: u32,
) -> Option<AudioBufferError> {
    if !all_usable(inputs, frames_count) || !all_usable(outputs, frames_count) {
        Some(AudioBufferError::InvalidChannelBuffer)
    } else if frames_count > 0 && (has_shared_samples(outputs, AudioSampleFormat::F32)
        || has_shared_samples(outputs, AudioSampleFormat::F64)) {
        Some(AudioBufferError::AliasedOutputBuffer)
    } else {
        None
    }
}

fn table_has_no_null(table: Option<&[usize]>) -> (yes: bool)
    ensures
        yes == (table matches Some(addresses) ==> forall|i: int|
            0 <= i < addresses@.len() ==> #[trigger] addresses@[i] != 0),
{
    if let Some(addresses) = table {
        let mut i: usize = 0;
        while i < addresses.len()
            invariant
                i <= addresses@.len(),
                table == Some(addresses),
                forall|k: int| 0 <= k < i ==> #[trigger] addresses@[k] != 0,
            decreases addresses@.len() - i,
        {
            if addresses[i] == 0 {
                assert(table->Some_0@[i as int] == 0);
                return false;
            }
            i += 1;
        }
    }
    true
}

fn validate_buffer_channels(buffer: &AudioPortBuffer, frames_count: u32) -> (usable: bool)
    ensures
        usable == buffer.is_usable(frames_count),
{
    if buffer.data32.is_none() && buffer.data64.is_none() && buffer.channel_count > 0 {
        return false;
    }
    if frames_count == 0 {
        return true;
    }
    table_has_no_null(buffer.data32) && table_has_no_null(buffer.data64)
}

fn ports_are_usable(ports: &[AudioPortBuffer], frames_count: u32) -> (usable: bool)
    ensures
        usable == all_usable(ports@, frames_count),
{
    let mut i: usize = 0;
    while i < ports.len()
        invariant
            i <= ports@.len(),
            forall|k: int| 0 <= k < i ==> (#[trigger] ports@[k]).is_usable(frames_count),
        decreases ports@.len() - i,
    {
        if !validate_buffer_channels(&ports[i], frames_count) {
            assert(!ports@[i as int].is_usable(frames_count));
            return false;
        }
        i += 1;
    }
    true
}

fn table_of<'a>(port: &AudioPortBuffer<'a>, format: AudioSampleFormat) -> (table: Option<
    &'a [usize],
>)
    ensures
        table == port.table(format),
{
    match format {
        AudioSampleFormat::F32 => port.data32,
        AudioSampleFormat::F64 => port.data64,
    }
}

/// Whether channel `c` of port `p`, whose address is `address`, shares its samples with a channel
/// of port `q`.
fn shares_with_port(
    ports: &[AudioPortBuffer],
    format: AudioSampleFormat,
    p: usize,
    c: usize,
    q: usize,
) -> (shared: bool)
    requires
        q <= p < ports@.len(),
        ports@[p as int].table(format) is Some,
        c < ports@[p as int].table(format)->Some_0@.len(),
    ensures
        shared == exists|d: int|
            shares_samples(ports@, format, p as int, c as int, q as int, d),
{
    let address: usize = match table_of(&ports[p], format) {
        Some(table) => table[c],
        None => 0,
    };
    if let Some(table) = table_of(&ports[q], format) {
        let limit: usize = if q == p {
            c
        } else {
            table.len()
        };
        let mut d: usize = 0;
        while d < limit
            invariant
                d <= limit <= table@.len(),
                q <= p < ports@.len(),
                ports@[p as int].table(format) is Some,
                c < ports@[p as int].table(format)->Some_0@.len(),
                address == ports@[p as int].table(format)->Some_0@[c as int],
                ports@[q as int].table(format) == Some(table),
                limit == if q == p {
                    c as int
                } else {
                    table@.len() as int
                },
                forall|k: int|
                    0 <= k < d ==> !shares_samples(
                        ports@,
                        format,
                        p as int,
                        c as int,
                        q as int,
                        k,
                    ),
            decreases limit - d,
        {
            if table[d] == address {
                assert(shares_samples(ports@, format, p as int, c as int, q as int, d as int));
                return true;
            }
            d += 1;
        }
    }
    false
}

fn ports_share_samples(ports: &[AudioPortBuffer], format: AudioSampleFormat) -> (shared: bool)
    ensures
        shared == has_shared_samples(ports@, format),
{
    let count: usize = ports.len();
    let mut p: usize = 0;
    while p < count
        invariant
            p <= count == ports@.len(),
            forall|i: int, c: int, q: int, d: int|
                i < p ==> !shares_samples(ports@, format, i, c, q, d),
        decreases ports@.len() - p,
    {
        if let Some(table) = table_of(&ports[p], format) {
            let mut c: usize = 0;
            while c < table.len()
                invariant
                    c <= table@.len(),
                    p < count == ports@.len(),
                    ports@[p as int].table(format) == Some(table),
                    forall|i: int, k: int, q: int, d: int|
                        i < p || (i == p && k < c) ==> !shares_samples(
                            ports@,
                            format,
                            i,
                            k,
                            q,
                            d,
                        ),
                decreases table@.len() - c,
            {
                let mut q: usize = 0;
                while q <= p
                    invariant
                        c < table@.len(),
                        q <= p + 1,
                        p < count == ports@.len(),
                        ports@[p as int].table(format) == Some(table),
                        forall|k: int, d: int|
                            k < q ==> !shares_samples(
                                ports@,
                                format,
                                p as int,
                                c as int,
                                k,
                                d,
                            ),
                    decreases p + 1 - q,
                {
                    if shares_with_port(ports, format, p, c, q) {
                        return true;
                    }
                    assert forall|k: int, d: int| k < q + 1 implies !shares_samples(
                        ports@,
                        format,
                        p as int,
                        c as int,
                        k,
                        d,
                    ) by {
                        if k == q {
                            assert(!shares_samples(
                                ports@,
                                format,
                                p as int,
                                c as int,
                                q as int,
                                d,
                            ));
                        }
                    }
                    q += 1;
                }
                c += 1;
            }
        }
        p += 1;
    }
    false
}

/// Refuses buffers with a channel that has no samples, and outputs that share samples.
pub fn validate_buffers(
    inputs: &[AudioPortBuffer],
    outputs: &[AudioPortBuffer],
    frames_count: u32,
) -> (result: Result<(), AudioBufferError>)
    ensures
        match result {
            Ok(_) => buffers_error(inputs@, outputs@, frames_count) is None,
            Err(error) => buffers_error(inputs@, outputs@, frames_count) == Some(error),
        },
{
    if !ports_are_usable(inputs, frames_count) || !ports_are_usable(outputs, frames_count) {
        return Err(AudioBufferError::InvalidChannelBuffer);
    }
    if frames_count > 0 {
        if ports_share_samples(outputs, AudioSampleFormat::F32) || ports_share_samples(
            outputs,
            AudioSampleFormat::F64,
        ) {
            return Err(AudioBufferError::AliasedOutputBuffer);
        }
    }
    Ok(())
}

/// Accepted outputs never share samples: writing one output channel leaves every other output
/// channel as it is.
pub proof fn accepted_outputs_are_separate(
    inputs: Seq<AudioPortBuffer>,
    outputs: Seq<AudioPortBuffer>,
    frames_count: u32,
    format: AudioSampleFormat,
    p: int,
    c: int,
    q: int,
    d: int,
)
    requires
        frames_count > 0,
        buffers_error(inputs, outputs, frames_count) is None,
        0 <= p < outputs.len(),
        0 <= q < outputs.len(),
        outputs[p].table(format) is Some,
        outputs[q].table(format) is Some,
        0 <= c < outputs[p].table(format)->Some_0@.len(),
        0 <= d < outputs[q].table(format)->Some_0@.len(),
        p != q || c != d,
    ensures
        outputs[p].table(format)->Some_0@[c] != outputs[q].table(format)->Some_0@[d],
{
    assert(!shares_samples(outputs, format, p, c, q, d));
    assert(!shares_samples(outputs, format, q, d, p, c));
}

// The precision that two ports have in common

/// The precisions in which a port has samples, single first. A port without channels has both.
pub open spec fn sample_types(port: AudioPortBuffer) -> Option<(bool, bool)> {
    if port.data32 is None && port.data64 is None {
        if port.channel_count > 0 {
            None
        } else {
            Some((true, true))
        }
    } else {
        Some((port.data32 is Some, port.data64 is Some))
    }
}

/// The precision in which an input and an output port are processed: the double where both have
/// it.
pub open spec fn common_format(
    input: Option<AudioPortBuffer>,
    output: Option<AudioPortBuffer>,
) -> Result<AudioSampleFormat, AudioBufferError> {
    let a = match input {
        Some(port) => sample_types(port),
        None => Some((true, true)),
    };
    let b = match output {
        Some(port) => sample_types(port),
        None => Some((true, true)),
    };
    if a is None || b is None {
        Err(AudioBufferError::InvalidChannelBuffer)
    } else if input is None && output is None {
        Err(AudioBufferError::MismatchedSampleType)
    } else if a->Some_0.1 && b->Some_0.1 {
        Ok(AudioSampleFormat::F64)
    } else if a->Some_0.0 && b->Some_0.0 {
        Ok(AudioSampleFormat::F32)
    } else {
        Err(AudioBufferError::MismatchedSampleType)
    }
}

fn sample_mask(port: &AudioPortBuffer) -> (mask: Option<(bool, bool)>)
    ensures
        mask == sample_types(*port),
{
    let single = port.data32.is_some();
    let double = port.data64.is_some();
    if !single && !double {
        if port.channel_count > 0 {
            None
        } else {
            Some((true, true))
        }
    } else {
        Some((single, double))
    }
}

/// The precision in which an input and an output port are processed.
pub fn common_sample_type(
    input: Option<&AudioPortBuffer>,
    output: Option<&AudioPortBuffer>,
) -> (result: Result<AudioSampleFormat, AudioBufferError>)
    ensures
        result == common_format(
            match input {
                Some(port) => Some(*port),
                None => None,
            },
            match output {
                Some(port) => Some(*port),
                None => None,
            },
        ),
{
    let a = match input {
        Some(port) => sample_mask(port),
        None => Some((true, true)),
    };
    let b = match output {
        Some(port) => sample_mask(port),
        None => Some((true, true)),
    };
    match (a, b) {
        (Some((single_in, double_in)), Some((single_out, double_out))) => {
            if input.is_none() && output.is_none() {
                Err(AudioBufferError::MismatchedSampleType)
            } else if double_in && double_out {
                Ok(AudioSampleFormat::F64)
            } else if single_in && single_out {
                Ok(AudioSampleFormat::F32)
            } else {
                Err(AudioBufferError::MismatchedSampleType)
            }
        },
        _ => Err(AudioBufferError::InvalidChannelBuffer),
    }
}

// One channel

/// One channel of a port, as far as it comes in and goes out. A channel that does both in the
/// same samples is in place.
pub enum AudioChannelPair<'a, T> {
    InputOnly(&'a [T]),
    OutputOnly(&'a mut [T]),
    InputOutput(&'a [T], &'a mut [T]),
    InPlace(&'a mut [T]),
}

/// The smaller of two numbers.
pub open spec fn smaller(a: int, b: int) -> int {
    if a <= b {
        a
    } else {
        b
    }
}

impl<'a, T> AudioChannelPair<'a, T> {
    /// The samples that come in, where there are any.
    pub open spec fn incoming(self) -> Option<Seq<T>> {
        match self {
            AudioChannelPair::InputOnly(input) => Some(input@),
            AudioChannelPair::OutputOnly(_) => None,
            AudioChannelPair::InputOutput(input, _) => Some(input@),
            AudioChannelPair::InPlace(buffer) => Some(buffer@),
        }
    }

    /// The samples that go out, where there are any.
    pub open spec fn outgoing(self) -> Option<Seq<T>> {
        match self {
            AudioChannelPair::InputOnly(_) => None,
            AudioChannelPair::OutputOnly(output) => Some(output@),
            AudioChannelPair::InputOutput(_, output) => Some(output@),
            AudioChannelPair::InPlace(buffer) => Some(buffer@),
        }
    }

    /// How many samples come in and go out.
    pub open spec fn mapped_len(self) -> int {
        match (self.incoming(), self.outgoing()) {
            (Some(input), Some(output)) => smaller(input.len() as int, output.len() as int),
            _ => 0,
        }
    }

    /// Whether `value` is what silence is for the sample type.
    pub open spec fn is_silence(value: T) -> bool where T: Default {
        call_ensures(T::default, (), value)
    }

    /// How many of the samples that go out can be written: as many as come in, or all of them
    /// where nothing comes in.
    pub open spec fn written_len(self) -> int {
        match (self.incoming(), self.outgoing()) {
            (None, Some(output)) => output.len() as int,
            _ => self.mapped_len(),
        }
    }

    /// Whether a channel comes in and goes out the same way as another one.
    pub open spec fn is_like(self, other: Self) -> bool {
        &&& self is InputOnly == other is InputOnly
        &&& self is OutputOnly == other is OutputOnly
        &&& self is InputOutput == other is InputOutput
        &&& self is InPlace == other is InPlace
    }

    /// Whether `after` is the channel once the `len` samples from `start` on were written: each is
    /// what `f` makes of the sample that comes in at its place, or silence where nothing comes
    /// in, and all else is as it was.
    pub open spec fn range_mapped<F: FnMut(T) -> T>(
        self,
        f: F,
        start: int,
        len: int,
        after: Self,
    ) -> bool where T: Default {
        &&& after.is_like(self)
        &&& !(self is InPlace) ==> after.incoming() == self.incoming()
        &&& self.outgoing() matches Some(before) ==> {
            let written = after.outgoing()->Some_0;
            &&& written.len() == before.len()
            &&& forall|i: int|
                0 <= i < written.len() ==> if start <= i < start + len && i < self.written_len() {
                    if self.incoming() is Some {
                        call_ensures(
                            f,
                            (self.incoming()->Some_0[i],),
                            #[trigger] written[i],
                        )
                    } else {
                        AudioChannelPair::<T>::is_silence(written[i])
                    }
                } else {
                    written[i] == before[i]
                }
        }
    }

    /// The samples that come in, where there are any.
    pub fn input(&self) -> (input: Option<&[T]>)
        ensures
            match input {
                Some(samples) => self.incoming() == Some(samples@),
                None => self.incoming() is None,
            },
    {
        match self {
            AudioChannelPair::InputOnly(input) => Some(*input),
            AudioChannelPair::OutputOnly(_) => None,
            AudioChannelPair::InputOutput(input, _) => Some(*input),
            AudioChannelPair::InPlace(buffer) => Some(&**buffer),
        }
    }

    /// The samples that go out, where there are any, to be written.
    pub fn output_mut(&mut self) -> (output: Option<&mut [T]>)
        ensures
            match output {
                Some(samples) => {
                    &&& old(self).outgoing() == Some(samples@)
                    &&& final(self).outgoing() == Some(final(samples)@)
                    &&& !(*old(self) is InPlace) ==> final(self).incoming() == old(self).incoming()
                },
                None => old(self).outgoing() is None && *final(self) == *old(self),
            },
            match *old(self) {
                AudioChannelPair::InputOnly(_) => *final(self) == *old(self),
                AudioChannelPair::OutputOnly(before) => *final(self) matches AudioChannelPair::OutputOnly(after) && final(after)@ == final(before)@,
                AudioChannelPair::InputOutput(_, before) => *final(self) matches AudioChannelPair::InputOutput(_, after) && final(after)@ == final(before)@,
                AudioChannelPair::InPlace(before) => *final(self) matches AudioChannelPair::InPlace(after) && final(after)@ == final(before)@,
            },
    {
        match self {
            AudioChannelPair::InputOnly(_) => None,
            AudioChannelPair::OutputOnly(output) => Some(&mut **output),
            AudioChannelPair::InputOutput(_, output) => Some(&mut **output),
            AudioChannelPair::InPlace(output) => Some(&mut **output),
        }
    }

    /// Writes `f` of each sample that comes in to the sample that goes out at the same place.
    /// What goes out beyond what comes in is silence.
    ///
    /// `f` is called once for each such sample, from the first to the last. A function may keep
    /// something from call to call: `call_ensures` ties a result to the argument of its call, and
    /// says nothing of what the function keeps.
    pub fn map_samples<F: FnMut(T) -> T>(&mut self, f: F) where T: Copy + Default
        requires
            forall|i: int|
                0 <= i < old(self).mapped_len() ==> call_requires(
                    f,
                    (#[trigger] old(self).incoming()->Some_0[i],),
                ),
        ensures
            !(*old(self) is InPlace) ==> final(self).incoming() == old(self).incoming(),
            old(self).outgoing() matches Some(before) ==> {
                let after = final(self).outgoing()->Some_0;
                &&& after.len() == before.len()
                &&& forall|i: int|
                    0 <= i < old(self).mapped_len() ==> call_ensures(
                        f,
                        (old(self).incoming()->Some_0[i],),
                        #[trigger] after[i],
                    )
                &&& forall|i: int|
                    old(self).mapped_len() <= i < after.len()
                        ==> AudioChannelPair::<T>::is_silence(#[trigger] after[i])
            },
            match *old(self) {
                AudioChannelPair::InputOnly(_) => *final(self) == *old(self),
                AudioChannelPair::OutputOnly(before) => *final(self) matches AudioChannelPair::OutputOnly(after) && final(after)@ == final(before)@,
                AudioChannelPair::InputOutput(_, before) => *final(self) matches AudioChannelPair::InputOutput(_, after) && final(after)@ == final(before)@,
                AudioChannelPair::InPlace(before) => *final(self) matches AudioChannelPair::InPlace(after) && final(after)@ == final(before)@,
            },
    {
        let ghost mapped = self.mapped_len();
        let ghost incoming = self.incoming()->Some_0;
        assert(forall|i: int| 0 <= i < mapped ==> call_requires(f, (#[trigger] incoming[i],)));
        match self {
            AudioChannelPair::InputOnly(_) => {},
            AudioChannelPair::OutputOnly(output) => {
                let end: usize = output.len();
                fill_silence(output, 0, end);
            },
            AudioChannelPair::InputOutput(input, output) => {
                let n: usize = if input.len() <= output.len() {
                    input.len()
                } else {
                    output.len()
                };
                let end: usize = output.len();
                assert(input@ == incoming && n == mapped);
                copy_mapped(input, output, 0, n, f);
                fill_silence(output, n, end);
            },
            AudioChannelPair::InPlace(buffer) => {
                let n: usize = buffer.len();
                assert(buffer@ == incoming && n == mapped);
                map_in_place(buffer, 0, n, f);
            },
        }
    }

    /// Writes `f` of each sample of a range that comes in to the sample that goes out at the same
    /// place. A range of a channel into which nothing comes is silenced, and every sample
    /// outside the range stays as it is.
    ///
    /// `f` is called once for each such sample, from the first to the last. A function may keep
    /// something from call to call: `call_ensures` ties a result to the argument of its call, and
    /// says nothing of what the function keeps.
    pub fn map_samples_range<F: FnMut(T) -> T>(&mut self, start: usize, len: usize, f: F) where
        T: Copy + Default,

        requires
            forall|i: int|
                start <= i < smaller(start + len, old(self).mapped_len()) ==> call_requires(
                    f,
                    (#[trigger] old(self).incoming()->Some_0[i],),
                ),
        ensures
            old(self).range_mapped(f, start as int, len as int, *final(self)),
            match *old(self) {
                AudioChannelPair::InputOnly(_) => *final(self) == *old(self),
                AudioChannelPair::OutputOnly(before) => *final(self) matches AudioChannelPair::OutputOnly(after) && final(after)@ == final(before)@,
                AudioChannelPair::InputOutput(_, before) => *final(self) matches AudioChannelPair::InputOutput(_, after) && final(after)@ == final(before)@,
                AudioChannelPair::InPlace(before) => *final(self) matches AudioChannelPair::InPlace(after) && final(after)@ == final(before)@,
            },
    {
        let ghost mapped = self.mapped_len();
        let ghost incoming = self.incoming()->Some_0;
        assert(forall|i: int|
            start <= i < smaller(start + len, mapped) ==> call_requires(
                f,
                (#[trigger] incoming[i],),
            ));
        match self {
            AudioChannelPair::InputOnly(_) => {},
            AudioChannelPair::OutputOnly(output) => {
                let (from, to) = clip_range(start, len, output.len());
                fill_silence(output, from, to);
            },
            AudioChannelPair::InputOutput(input, output) => {
                let n: usize = if input.len() <= output.len() {
                    input.len()
                } else {
                    output.len()
                };
                assert(input@ == incoming && n == mapped);
                let (from, to) = clip_range(start, len, n);
                copy_mapped(input, output, from, to, f);
            },
            AudioChannelPair::InPlace(buffer) => {
                let n: usize = buffer.len();
                assert(buffer@ == incoming && n == mapped);
                let (from, to) = clip_range(start, len, n);
                map_in_place(buffer, from, to, f);
            },
        }
    }
}

/// Whether a function has one result for each sample.
pub open spec fn is_pure<T, F: FnMut(T) -> T>(f: F) -> bool {
    forall|x: T, y: T, z: T|
        #[trigger] call_ensures(f, (x,), y) && #[trigger] call_ensures(f, (x,), z) ==> y == z
}

/// Whether a sample type has one silence.
pub open spec fn has_one_silence<T: Default>() -> bool {
    forall|x: T, y: T|
        #[trigger] AudioChannelPair::<T>::is_silence(x)
            && #[trigger] AudioChannelPair::<T>::is_silence(y) ==> x == y
}

/// Two ranges of which the second begins where the first ends are written as the one range that
/// they make together: what is left after both could have been left by the one, and where the
/// function is pure it is what the one leaves. A range without samples changes nothing, whatever
/// the function is.
pub proof fn adjoining_ranges_are_written_as_one<'a, T: Default, F: FnMut(T) -> T>(
    f: F,
    start: nat,
    first: nat,
    second: nat,
    before: AudioChannelPair<'a, T>,
    middle: AudioChannelPair<'a, T>,
    after: AudioChannelPair<'a, T>,
    whole: AudioChannelPair<'a, T>,
)
    requires
        before.range_mapped(f, start as int, first as int, middle),
        middle.range_mapped(f, (start + first) as int, second as int, after),
    ensures
        before.range_mapped(f, start as int, (first + second) as int, after),
        second == 0 ==> after.incoming() == middle.incoming() && after.outgoing()
            == middle.outgoing(),
        is_pure(f) && has_one_silence::<T>() && before.range_mapped(
            f,
            start as int,
            (first + second) as int,
            whole,
        ) ==> after.incoming() == whole.incoming() && after.outgoing() == whole.outgoing(),
{
}

/// Where the range of `len` samples from `start` on begins and ends within `count` samples.
fn clip_range(start: usize, len: usize, count: usize) -> (range: (usize, usize))
    ensures
        range.0 == smaller(start as int, count as int),
        range.1 == smaller(start + len, count as int),
        range.0 <= range.1 <= count,
{
    let from: usize = if start <= count {
        start
    } else {
        count
    };
    let to: usize = if len <= count - from && start <= count {
        start + len
    } else {
        count
    };
    (from, to)
}

fn fill_silence<T: Copy + Default>(output: &mut [T], start: usize, end: usize)
    requires
        start <= end <= old(output)@.len(),
    ensures
        final(output)@.len() == old(output)@.len(),
        forall|i: int|
            0 <= i < start || end <= i < final(output)@.len() ==> #[trigger] final(output)@[i]
                == old(output)@[i],
        forall|i: int|
            start <= i < end ==> AudioChannelPair::<T>::is_silence(#[trigger] final(output)@[i]),
{
    let ghost before = output@;
    let mut i: usize = start;
    while i < end
        invariant
            start <= i <= end <= output@.len() == before.len(),
            forall|k: int|
                0 <= k < start || i <= k < output@.len() ==> #[trigger] output@[k] == before[k],
            forall|k: int|
                start <= k < i ==> AudioChannelPair::<T>::is_silence(#[trigger] output@[k]),
        decreases end - i,
    {
        output[i] = T::default();
        i += 1;
    }
}

fn copy_mapped<T: Copy, F: FnMut(T) -> T>(input: &[T], output: &mut [T], start: usize, end: usize, f: F)
    requires
        start <= end <= input@.len(),
        end <= old(output)@.len(),
        forall|i: int| start <= i < end ==> call_requires(f, (#[trigger] input@[i],)),
    ensures
        final(output)@.len() == old(output)@.len(),
        forall|i: int| start <= i < end ==> call_ensures(f, (input@[i],), #[trigger] final(output)@[i]),
        forall|i: int| 0 <= i < start || end <= i < final(output)@.len() ==> #[trigger] final(output)@[i] == old(output)@[i],
{
    let ghost given = f;
    let mut f = f;
    let ghost before = output@;
    let mut i: usize = start;
    while i < end
        invariant
            f == given,
            start <= i <= end <= input@.len(),
            end <= output@.len() == before.len(),
            forall|k: int| start <= k < end ==> call_requires(f, (#[trigger] input@[k],)),
            forall|k: int| start <= k < i ==> call_ensures(f, (input@[k],), #[trigger] output@[k]),
            forall|k: int| 0 <= k < start || i <= k < output@.len() ==> #[trigger] output@[k] == before[k],
        decreases end - i,
    {
        output[i] = f(input[i]);
        i += 1;
    }
}

fn map_in_place<T: Copy, F: FnMut(T) -> T>(buffer: &mut [T], start: usize, end: usize, f: F)
    requires
        start <= end <= old(buffer)@.len(),
        forall|i: int| start <= i < end ==> call_requires(f, (#[trigger] old(buffer)@[i],)),
    ensures
        final(buffer)@.len() == old(buffer)@.len(),
        forall|i: int| start <= i < end ==> call_ensures(f, (old(buffer)@[i],), #[trigger] final(buffer)@[i]),
        forall|i: int| 0 <= i < start || end <= i < final(buffer)@.len() ==> #[trigger] final(buffer)@[i] == old(buffer)@[i],
{
    let ghost given = f;
    let mut f = f;
    let ghost before = buffer@;
    let mut i: usize = start;
    while i < end
        invariant
            f == given,
            start <= i <= end <= buffer@.len() == before.len(),
            forall|k: int| start <= k < end ==> call_requires(f, (#[trigger] before[k],)),
            forall|k: int| start <= k < i ==> call_ensures(f, (before[k],), #[trigger] buffer@[k]),
            forall|k: int| 0 <= k < start || i <= k < buffer@.len() ==> #[trigger] buffer@[k] == before[k],
        decreases end - i,
    {
        assert(buffer@[i as int] == before[i as int]);
        buffer[i] = f(buffer[i]);
        i += 1;
    }
}

// The channels of a port

/// The channels of an input and an output port in one precision, over the blocks that hold their
/// samples.
pub struct AudioPairedChannels<'b, 'a, T> {
    pub input_data: Option<&'b [usize]>,
    pub output_data: Option<&'b [usize]>,
    pub blocks: &'b mut [&'a mut [T]],
    pub frames_count: u32,
}

/// The samples of each block.
pub open spec fn contents<T>(blocks: Seq<&mut [T]>) -> Seq<Seq<T>> {
    Seq::new(blocks.len(), |i: int| blocks[i]@)
}

/// The samples at an address.
pub open spec fn samples_at<T>(contents: Seq<Seq<T>>, address: usize) -> Seq<T> {
    if address == 0 {
        Seq::empty()
    } else {
        contents[address - 1]
    }
}

/// The blocks with other samples at an address.
pub open spec fn with_samples<T>(contents: Seq<Seq<T>>, address: usize, samples: Seq<T>) -> Seq<
    Seq<T>,
> {
    if address == 0 {
        contents
    } else {
        contents.update(address - 1, samples)
    }
}

/// How many addresses a table has.
pub open spec fn table_len(table: Option<&[usize]>) -> nat {
    match table {
        Some(addresses) => addresses@.len(),
        None => 0,
    }
}

/// The address at `index` of a table.
pub open spec fn address_at(table: Option<&[usize]>, index: usize) -> Option<usize> {
    match table {
        Some(addresses) => if index < addresses@.len() {
            Some(addresses@[index as int])
        } else {
            None
        },
        None => None,
    }
}

/// Whether every address of a table belongs to one of `count` blocks, where there are frames,
/// and to none otherwise.
pub open spec fn addresses_are_valid(table: Option<&[usize]>, frames_count: u32, count: int) -> bool {
    table matches Some(addresses) ==> forall|i: int|
        0 <= i < addresses@.len() ==> #[trigger] addresses@[i] <= count && (frames_count > 0
            ==> addresses@[i] != 0)
}

fn len_of(table: Option<&[usize]>) -> (len: usize)
    ensures
        len == table_len(table),
{
    match table {
        Some(addresses) => addresses.len(),
        None => 0,
    }
}

fn address_of(table: Option<&[usize]>, index: usize) -> (address: Option<usize>)
    ensures
        address == address_at(table, index),
{
    match table {
        Some(addresses) => if index < addresses.len() {
            Some(addresses[index])
        } else {
            None
        },
        None => None,
    }
}

fn larger_of(a: usize, b: usize) -> (result: usize)
    ensures
        result == larger(a as nat, b as nat),
{
    if a >= b {
        a
    } else {
        b
    }
}

/// The larger of two numbers.
pub open spec fn larger(a: nat, b: nat) -> nat {
    if a >= b {
        a
    } else {
        b
    }
}

fn borrow_block<'b, 'a, T>(blocks: &'b mut [&'a mut [T]], address: usize) -> (block: &'b mut [T])
    requires
        address <= old(blocks)@.len(),
    ensures
        block@ == samples_at(contents(old(blocks)@), address),
        contents(final(blocks)@) == with_samples(
            contents(old(blocks)@),
            address,
            final(block)@,
        ),
{
    if address == 0 {
        assert(contents(blocks@) =~= contents(old(blocks)@));
        &mut []
    } else {
        &mut *blocks[address - 1]
    }
}

fn borrow_two_blocks<'b, 'a, T>(blocks: &'b mut [&'a mut [T]], read: usize, write: usize) -> (pair:
    (&'b [T], &'b mut [T]))
    requires
        read <= old(blocks)@.len(),
        write <= old(blocks)@.len(),
        read != write,
    ensures
        pair.0@ == samples_at(contents(old(blocks)@), read),
        pair.1@ == samples_at(contents(old(blocks)@), write),
        contents(final(blocks)@) == with_samples(
            contents(old(blocks)@),
            write,
            final(pair.1)@,
        ),
{
    if read == 0 {
        (&[], borrow_block(blocks, write))
    } else if write == 0 {
        (&*blocks[read - 1], &mut [])
    } else if read < write {
        let (low, high) = blocks.split_at_mut(write - 1);
        (&*low[read - 1], &mut *high[0])
    } else {
        let (low, high) = blocks.split_at_mut(read - 1);
        (&*high[0], &mut *low[write - 1])
    }
}

impl<'b, 'a, T> AudioPairedChannels<'b, 'a, T> {
    /// Whether every address belongs to a block, and every block has the samples of all frames.
    pub open spec fn is_well_formed(self) -> bool {
        &&& addresses_are_valid(self.input_data, self.frames_count, self.blocks@.len() as int)
        &&& addresses_are_valid(self.output_data, self.frames_count, self.blocks@.len() as int)
        &&& forall|i: int|
            0 <= i < self.blocks@.len() ==> (#[trigger] contents(self.blocks@)[i]).len()
                == self.frames_count
    }

    /// How many channels come in.
    pub fn input_channel_count(&self) -> (count: usize)
        ensures
            count == table_len(self.input_data),
    {
        len_of(self.input_data)
    }

    /// How many channels go out.
    pub fn output_channel_count(&self) -> (count: usize)
        ensures
            count == table_len(self.output_data),
    {
        len_of(self.output_data)
    }

    /// How many channels come in or go out.
    pub fn channel_pair_count(&self) -> (count: usize)
        ensures
            count == larger(table_len(self.input_data), table_len(self.output_data)),
    {
        larger_of(self.input_channel_count(), self.output_channel_count())
    }

    /// How many frames the channels have.
    pub fn frames_count(&self) -> (count: u32)
        ensures
            count == self.frames_count,
    {
        self.frames_count
    }

    /// The channel at `index`, where one comes in or goes out. It is in place where the two have
    /// the same address.
    pub fn channel_pair(&mut self, index: usize) -> (pair: Option<AudioChannelPair<'_, T>>)
        requires
            old(self).is_well_formed(),
        ensures
            final(self).input_data == old(self).input_data,
            final(self).output_data == old(self).output_data,
            final(final(self).blocks)@ == final(old(self).blocks)@,
            final(self).frames_count == old(self).frames_count,
            ({
                let before = contents(old(self).blocks@);
                let after = contents(final(self).blocks@);
                match (
                    address_at(old(self).input_data, index),
                    address_at(old(self).output_data, index),
                ) {
                    (None, None) => pair is None && after == before,
                    (Some(read), None) => {
                        &&& pair matches Some(AudioChannelPair::InputOnly(input))
                        &&& input@ == samples_at(before, read)
                        &&& after == before
                    },
                    (None, Some(write)) => {
                        &&& pair matches Some(AudioChannelPair::OutputOnly(output))
                        &&& output@ == samples_at(before, write)
                        &&& after == with_samples(before, write, final(output)@)
                    },
                    (Some(read), Some(write)) => if read == write {
                        &&& pair matches Some(AudioChannelPair::InPlace(buffer))
                        &&& buffer@ == samples_at(before, write)
                        &&& after == with_samples(before, write, final(buffer)@)
                    } else {
                        &&& pair matches Some(AudioChannelPair::InputOutput(input, output))
                        &&& input@ == samples_at(before, read)
                        &&& output@ == samples_at(before, write)
                        &&& after == with_samples(before, write, final(output)@)
                    },
                }
            }),
    {
        let input = address_of(self.input_data, index);
        let output = address_of(self.output_data, index);
        match (input, output) {
            (None, None) => None,
            (Some(read), None) => {
                if read == 0 {
                    Some(AudioChannelPair::InputOnly(&[]))
                } else {
                    Some(AudioChannelPair::InputOnly(&*self.blocks[read - 1]))
                }
            },
            (None, Some(write)) => Some(
                AudioChannelPair::OutputOnly(borrow_block(self.blocks, write)),
            ),
            (Some(read), Some(write)) => {
                if read == write {
                    Some(AudioChannelPair::InPlace(borrow_block(self.blocks, write)))
                } else {
                    let (input, output) = borrow_two_blocks(self.blocks, read, write);
                    Some(AudioChannelPair::InputOutput(input, output))
                }
            },
        }
    }

    /// The channels one after the other.
    pub fn iter_mut(&mut self) -> (iter: AudioPairedChannelsIter<'_, 'a, T>)
        ensures
            iter.index == 0,
            iter.channels.input_data == old(self).input_data,
            iter.channels.output_data == old(self).output_data,
            iter.channels.frames_count == old(self).frames_count,
            contents(iter.channels.blocks@) == contents(old(self).blocks@),
            final(self).input_data == old(self).input_data,
            final(self).output_data == old(self).output_data,
            final(self).frames_count == old(self).frames_count,
            contents(final(self).blocks@) == contents(final(iter.channels.blocks)@),
    {
        AudioPairedChannelsIter {
            channels: AudioPairedChannels {
                input_data: self.input_data,
                output_data: self.output_data,
                blocks: &mut *self.blocks,
                frames_count: self.frames_count,
            },
            index: 0,
        }
    }

    /// The channels one after the other.
    pub fn into_iter(self) -> (iter: AudioPairedChannelsIntoIter<'b, 'a, T>)
        ensures
            iter.index == 0,
            iter.channels == self,
    {
        AudioPairedChannelsIntoIter { channels: self, index: 0 }
    }
}

/// The channels of a port, one after the other.
pub struct AudioPairedChannelsIter<'b, 'a, T> {
    pub channels: AudioPairedChannels<'b, 'a, T>,
    pub index: usize,
}

impl<'b, 'a, T> AudioPairedChannelsIter<'b, 'a, T> {
    /// How many channels are left.
    pub open spec fn left(self) -> int {
        let count = larger(
            table_len(self.channels.input_data),
            table_len(self.channels.output_data),
        ) as int;
        if self.index <= count {
            count - self.index
        } else {
            0
        }
    }

    /// How many channels are left.
    pub fn len(&self) -> (count: usize)
        ensures
            count == self.left(),
    {
        let count: usize = self.channels.channel_pair_count();
        if self.index <= count {
            count - self.index
        } else {
            0
        }
    }

    /// The next channel, or `None` after the last.
    pub fn next(&mut self) -> (pair: Option<AudioChannelPair<'_, T>>)
        requires
            old(self).channels.is_well_formed(),
        ensures
            final(self).channels.input_data == old(self).channels.input_data,
            final(self).channels.output_data == old(self).channels.output_data,
            final(final(self).channels.blocks)@ == final(old(self).channels.blocks)@,
            final(self).channels.frames_count == old(self).channels.frames_count,
            final(self).index == if old(self).left() > 0 {
                old(self).index + 1
            } else {
                old(self).index as int
            },
            pair is Some == (old(self).left() > 0),
            ({
                let before = contents(old(self).channels.blocks@);
                let after = contents(final(self).channels.blocks@);
                match (
                    address_at(old(self).channels.input_data, old(self).index),
                    address_at(old(self).channels.output_data, old(self).index),
                ) {
                    (None, None) => pair is None && after == before,
                    (Some(read), None) => {
                        &&& pair matches Some(AudioChannelPair::InputOnly(input))
                        &&& input@ == samples_at(before, read)
                        &&& after == before
                    },
                    (None, Some(write)) => {
                        &&& pair matches Some(AudioChannelPair::OutputOnly(output))
                        &&& output@ == samples_at(before, write)
                        &&& after == with_samples(before, write, final(output)@)
                    },
                    (Some(read), Some(write)) => if read == write {
                        &&& pair matches Some(AudioChannelPair::InPlace(buffer))
                        &&& buffer@ == samples_at(before, write)
                        &&& after == with_samples(before, write, final(buffer)@)
                    } else {
                        &&& pair matches Some(AudioChannelPair::InputOutput(input, output))
                        &&& input@ == samples_at(before, read)
                        &&& output@ == samples_at(before, write)
                        &&& after == with_samples(before, write, final(output)@)
                    },
                }
            }),
    {
        let index: usize = self.index;
        if index < self.channels.channel_pair_count() {
            self.index = index + 1;
        }
        self.channels.channel_pair(index)
    }
}

/// The channels of a port, one after the other.
pub struct AudioPairedChannelsIntoIter<'b, 'a, T> {
    pub channels: AudioPairedChannels<'b, 'a, T>,
    pub index: usize,
}

impl<'b, 'a, T> AudioPairedChannelsIntoIter<'b, 'a, T> {
    /// How many channels are left.
    pub open spec fn left(self) -> int {
        let count = larger(
            table_len(self.channels.input_data),
            table_len(self.channels.output_data),
        ) as int;
        if self.index <= count {
            count - self.index
        } else {
            0
        }
    }

    /// How many channels are left.
    pub fn len(&self) -> (count: usize)
        ensures
            count == self.left(),
    {
        let count: usize = self.channels.channel_pair_count();
        if self.index <= count {
            count - self.index
        } else {
            0
        }
    }

    /// The next channel, or `None` after the last.
    pub fn next(&mut self) -> (pair: Option<AudioChannelPair<'_, T>>)
        requires
            old(self).channels.is_well_formed(),
        ensures
            final(self).channels.input_data == old(self).channels.input_data,
            final(self).channels.output_data == old(self).channels.output_data,
            final(final(self).channels.blocks)@ == final(old(self).channels.blocks)@,
            final(self).channels.frames_count == old(self).channels.frames_count,
            final(self).index == if old(self).left() > 0 {
                old(self).index + 1
            } else {
                old(self).index as int
            },
            pair is Some == (old(self).left() > 0),
            ({
                let before = contents(old(self).channels.blocks@);
                let after = contents(final(self).channels.blocks@);
                match (
                    address_at(old(self).channels.input_data, old(self).index),
                    address_at(old(self).channels.output_data, old(self).index),
                ) {
                    (None, None) => pair is None && after == before,
                    (Some(read), None) => {
                        &&& pair matches Some(AudioChannelPair::InputOnly(input))
                        &&& input@ == samples_at(before, read)
                        &&& after == before
                    },
                    (None, Some(write)) => {
                        &&& pair matches Some(AudioChannelPair::OutputOnly(output))
                        &&& output@ == samples_at(before, write)
                        &&& after == with_samples(before, write, final(output)@)
                    },
                    (Some(read), Some(write)) => if read == write {
                        &&& pair matches Some(AudioChannelPair::InPlace(buffer))
                        &&& buffer@ == samples_at(before, write)
                        &&& after == with_samples(before, write, final(buffer)@)
                    } else {
                        &&& pair matches Some(AudioChannelPair::InputOutput(input, output))
                        &&& input@ == samples_at(before, read)
                        &&& output@ == samples_at(before, write)
                        &&& after == with_samples(before, write, final(output)@)
                    },
                }
            }),
    {
        let index: usize = self.index;
        if index < self.channels.channel_pair_count() {
            self.index = index + 1;
        }
        self.channels.channel_pair(index)
    }
}

// The ports

/// The channels of a pair of ports, in the precision that the two have in common.
pub enum AudioPortChannels<'b, 'a, S, D> {
    F32(AudioPairedChannels<'b, 'a, S>),
    F64(AudioPairedChannels<'b, 'a, D>),
}

/// An input and an output port at the same place, of which one can be missing.
pub struct AudioPortPair<'b, 'a, S, D> {
    pub input: Option<AudioPortBuffer<'b>>,
    pub output: Option<AudioPortBuffer<'b>>,
    pub singles: &'b mut [&'a mut [S]],
    pub doubles: &'b mut [&'a mut [D]],
    pub frames_count: u32,
}

/// How many channels a port has.
pub open spec fn channels_of(port: Option<AudioPortBuffer>) -> nat {
    match port {
        Some(port) => port.channel_count as nat,
        None => 0,
    }
}

/// The addresses of the channels of a port in one precision.
pub open spec fn port_table<'b>(port: Option<AudioPortBuffer<'b>>, format: AudioSampleFormat) -> Option<
    &'b [usize],
> {
    match port {
        Some(port) => port.table(format),
        None => None,
    }
}

impl<'b, 'a, S, D> AudioPortPair<'b, 'a, S, D> {
    /// How many channels come in or go out.
    pub fn channel_pair_count(&self) -> (count: usize)
        ensures
            count == larger(channels_of(self.input), channels_of(self.output)),
    {
        let input: u32 = match self.input {
            Some(port) => port.channel_count,
            None => 0,
        };
        let output: u32 = match self.output {
            Some(port) => port.channel_count,
            None => 0,
        };
        larger_of(input as usize, output as usize)
    }

    /// How many frames the ports have.
    pub fn frames_count(&self) -> (count: u32)
        ensures
            count == self.frames_count,
    {
        self.frames_count
    }

    /// The channels in the precision that the two ports have in common.
    pub fn channels(&mut self) -> (result: Result<
        AudioPortChannels<'_, 'a, S, D>,
        AudioBufferError,
    >)
        ensures
            final(self).input == old(self).input,
            final(self).output == old(self).output,
            final(final(self).singles)@ == final(old(self).singles)@,
            final(final(self).doubles)@ == final(old(self).doubles)@,
            final(self).frames_count == old(self).frames_count,
            match common_format(old(self).input, old(self).output) {
                Err(error) => {
                    &&& result == Err::<AudioPortChannels<'_, 'a, S, D>, AudioBufferError>(error)
                    &&& contents(final(self).singles@) == contents(old(self).singles@)
                    &&& contents(final(self).doubles@) == contents(old(self).doubles@)
                },
                Ok(AudioSampleFormat::F32) => {
                    &&& result matches Ok(AudioPortChannels::F32(channels))
                    &&& channels.input_data == port_table(
                        old(self).input,
                        AudioSampleFormat::F32,
                    )
                    &&& channels.output_data == port_table(
                        old(self).output,
                        AudioSampleFormat::F32,
                    )
                    &&& channels.frames_count == old(self).frames_count
                    &&& contents(channels.blocks@) == contents(old(self).singles@)
                    &&& contents(final(self).singles@) == contents(final(channels.blocks)@)
                    &&& contents(final(self).doubles@) == contents(old(self).doubles@)
                },
                Ok(AudioSampleFormat::F64) => {
                    &&& result matches Ok(AudioPortChannels::F64(channels))
                    &&& channels.input_data == port_table(
                        old(self).input,
                        AudioSampleFormat::F64,
                    )
                    &&& channels.output_data == port_table(
                        old(self).output,
                        AudioSampleFormat::F64,
                    )
                    &&& channels.frames_count == old(self).frames_count
                    &&& contents(channels.blocks@) == contents(old(self).doubles@)
                    &&& contents(final(self).doubles@) == contents(final(channels.blocks)@)
                    &&& contents(final(self).singles@) == contents(old(self).singles@)
                },
            },
    {
        match common_sample_type(self.input.as_ref(), self.output.as_ref()) {
            Err(error) => Err(error),
            Ok(AudioSampleFormat::F32) => Ok(
                AudioPortChannels::F32(
                    AudioPairedChannels {
                        input_data: data_of(self.input, AudioSampleFormat::F32),
                        output_data: data_of(self.output, AudioSampleFormat::F32),
                        blocks: &mut *self.singles,
                        frames_count: self.frames_count,
                    },
                ),
            ),
            Ok(AudioSampleFormat::F64) => Ok(
                AudioPortChannels::F64(
                    AudioPairedChannels {
                        input_data: data_of(self.input, AudioSampleFormat::F64),
                        output_data: data_of(self.output, AudioSampleFormat::F64),
                        blocks: &mut *self.doubles,
                        frames_count: self.frames_count,
                    },
                ),
            ),
        }
    }
}

fn data_of<'b>(port: Option<AudioPortBuffer<'b>>, format: AudioSampleFormat) -> (table: Option<
    &'b [usize],
>)
    ensures
        table == port_table(port, format),
{
    match port {
        Some(port) => table_of(&port, format),
        None => None,
    }
}

/// The ports of one processing block, with the blocks of memory that hold their samples.
pub struct AudioProcessBuffer<'b, 'a, S, D> {
    pub inputs: &'b [AudioPortBuffer<'b>],
    pub outputs: &'b [AudioPortBuffer<'b>],
    pub singles: &'b mut [&'a mut [S]],
    pub doubles: &'b mut [&'a mut [D]],
    pub frames_count: u32,
}

/// The port at `index`.
pub open spec fn port_at<'b>(ports: Seq<AudioPortBuffer<'b>>, index: usize) -> Option<
    AudioPortBuffer<'b>,
> {
    if index < ports.len() {
        Some(ports[index as int])
    } else {
        None
    }
}

fn port_of<'b>(ports: &'b [AudioPortBuffer<'b>], index: usize) -> (port: Option<
    AudioPortBuffer<'b>,
>)
    ensures
        port == port_at(ports@, index),
{
    if index < ports.len() {
        Some(ports[index])
    } else {
        None
    }
}

impl<'b, 'a, S, D> AudioProcessBuffer<'b, 'a, S, D> {
    /// The ports of a block, unless they are refused.
    pub fn from_raw_buffers(
        inputs: &'b [AudioPortBuffer<'b>],
        outputs: &'b [AudioPortBuffer<'b>],
        singles: &'b mut [&'a mut [S]],
        doubles: &'b mut [&'a mut [D]],
        frames_count: u32,
    ) -> (result: Result<Self, AudioBufferError>)
        ensures
            match result {
                Ok(buffer) => {
                    &&& buffers_error(inputs@, outputs@, frames_count) is None
                    &&& buffer.inputs@ == inputs@
                    &&& buffer.outputs@ == outputs@
                    &&& buffer.frames_count == frames_count
                    &&& contents(buffer.singles@) == contents(old(singles)@)
                    &&& contents(buffer.doubles@) == contents(old(doubles)@)
                    &&& contents(final(singles)@) == contents(final(buffer.singles)@)
                    &&& contents(final(doubles)@) == contents(final(buffer.doubles)@)
                },
                Err(error) => buffers_error(inputs@, outputs@, frames_count) == Some(error),
            },
    {
        match validate_buffers(inputs, outputs, frames_count) {
            Ok(_) => Ok(AudioProcessBuffer { inputs, outputs, singles, doubles, frames_count }),
            Err(error) => Err(error),
        }
    }

    /// How many frames the block has.
    pub fn frames_count(&self) -> (count: u32)
        ensures
            count == self.frames_count,
    {
        self.frames_count
    }

    /// How many ports come in.
    pub fn input_port_count(&self) -> (count: usize)
        ensures
            count == self.inputs@.len(),
    {
        self.inputs.len()
    }

    /// How many ports go out.
    pub fn output_port_count(&self) -> (count: usize)
        ensures
            count == self.outputs@.len(),
    {
        self.outputs.len()
    }

    /// How many ports come in or go out.
    pub fn port_pair_count(&self) -> (count: usize)
        ensures
            count == larger(self.inputs@.len(), self.outputs@.len()),
    {
        larger_of(self.input_port_count(), self.output_port_count())
    }

    /// The ports at `index`, where there are any.
    pub fn port_pair(&mut self, index: usize) -> (pair: Option<AudioPortPair<'_, 'a, S, D>>)
        ensures
            final(self).inputs@ == old(self).inputs@,
            final(self).outputs@ == old(self).outputs@,
            final(final(self).singles)@ == final(old(self).singles)@,
            final(final(self).doubles)@ == final(old(self).doubles)@,
            final(self).frames_count == old(self).frames_count,
            match pair {
                None => {
                    &&& index >= larger(old(self).inputs@.len(), old(self).outputs@.len())
                    &&& contents(final(self).singles@) == contents(old(self).singles@)
                    &&& contents(final(self).doubles@) == contents(old(self).doubles@)
                },
                Some(pair) => {
                    &&& index < larger(old(self).inputs@.len(), old(self).outputs@.len())
                    &&& pair.input == port_at(old(self).inputs@, index)
                    &&& pair.output == port_at(old(self).outputs@, index)
                    &&& pair.frames_count == old(self).frames_count
                    &&& contents(pair.singles@) == contents(old(self).singles@)
                    &&& contents(pair.doubles@) == contents(old(self).doubles@)
                    &&& contents(final(self).singles@) == contents(final(pair.singles)@)
                    &&& contents(final(self).doubles@) == contents(final(pair.doubles)@)
                },
            },
    {
        if index >= self.port_pair_count() {
            return None;
        }
        Some(
            AudioPortPair {
                input: port_of(self.inputs, index),
                output: port_of(self.outputs, index),
                singles: &mut *self.singles,
                doubles: &mut *self.doubles,
                frames_count: self.frames_count,
            },
        )
    }

    /// The ports one pair after the other.
    pub fn port_pairs(&mut self) -> (pairs: AudioPortPairs<'_, 'a, S, D>)
        ensures
            pairs.index == 0,
            pairs.buffer.inputs@ == old(self).inputs@,
            pairs.buffer.outputs@ == old(self).outputs@,
            pairs.buffer.frames_count == old(self).frames_count,
            contents(pairs.buffer.singles@) == contents(old(self).singles@),
            contents(pairs.buffer.doubles@) == contents(old(self).doubles@),
            final(self).inputs@ == old(self).inputs@,
            final(self).outputs@ == old(self).outputs@,
            final(self).frames_count == old(self).frames_count,
            contents(final(self).singles@) == contents(final(pairs.buffer.singles)@),
            contents(final(self).doubles@) == contents(final(pairs.buffer.doubles)@),
    {
        AudioPortPairs {
            buffer: AudioProcessBuffer {
                inputs: self.inputs,
                outputs: self.outputs,
                singles: &mut *self.singles,
                doubles: &mut *self.doubles,
                frames_count: self.frames_count,
            },
            index: 0,
        }
    }
}

/// The ports of a block, one pair after the other.
pub struct AudioPortPairs<'b, 'a, S, D> {
    pub buffer: AudioProcessBuffer<'b, 'a, S, D>,
    pub index: usize,
}

impl<'b, 'a, S, D> AudioPortPairs<'b, 'a, S, D> {
    /// How many pairs are left.
    pub open spec fn left(self) -> int {
        let count = larger(self.buffer.inputs@.len(), self.buffer.outputs@.len()) as int;
        if self.index <= count {
            count - self.index
        } else {
            0
        }
    }

    /// How many pairs are left.
    pub fn len(&self) -> (count: usize)
        ensures
            count == self.left(),
    {
        let count: usize = self.buffer.port_pair_count();
        if self.index <= count {
            count - self.index
        } else {
            0
        }
    }

    /// The next pair, or `None` after the last.
    pub fn next(&mut self) -> (pair: Option<AudioPortPair<'_, 'a, S, D>>)
        ensures
            final(self).buffer.inputs@ == old(self).buffer.inputs@,
            final(self).buffer.outputs@ == old(self).buffer.outputs@,
            final(final(self).buffer.singles)@ == final(old(self).buffer.singles)@,
            final(final(self).buffer.doubles)@ == final(old(self).buffer.doubles)@,
            final(self).buffer.frames_count == old(self).buffer.frames_count,
            match pair {
                None => {
                    &&& old(self).left() == 0
                    &&& final(self).index == old(self).index
                    &&& contents(final(self).buffer.singles@) == contents(
                        old(self).buffer.singles@,
                    )
                    &&& contents(final(self).buffer.doubles@) == contents(
                        old(self).buffer.doubles@,
                    )
                },
                Some(pair) => {
                    &&& old(self).left() > 0
                    &&& final(self).index == old(self).index + 1
                    &&& pair.input == port_at(old(self).buffer.inputs@, old(self).index)
                    &&& pair.output == port_at(old(self).buffer.outputs@, old(self).index)
                    &&& pair.frames_count == old(self).buffer.frames_count
                    &&& contents(pair.singles@) == contents(old(self).buffer.singles@)
                    &&& contents(pair.doubles@) == contents(old(self).buffer.doubles@)
                    &&& contents(final(self).buffer.singles@) == contents(final(pair.singles)@)
                    &&& contents(final(self).buffer.doubles@) == contents(final(pair.doubles)@)
                },
            },
    {
        let index: usize = self.index;
        if index < self.buffer.port_pair_count() {
            self.index = index + 1;
        }
        self.buffer.port_pair(index)
    }
}

/// Whether a port has samples in each of the two precisions, single first.
pub open spec fn has_precisions(port: AudioPortBuffer, single: bool, double: bool) -> bool {
    &&& port.channel_count > 0
    &&& port.data32 is Some == single
    &&& port.data64 is Some == double
}

/// Two ports are processed in double precision where both have it, in single precision where both
/// have that alone, and not at all where neither has what the other has. A port on its own is
/// processed in the best precision that it has.
pub proof fn ports_are_processed_in_the_best_common_precision(
    input: AudioPortBuffer,
    output: AudioPortBuffer,
    single: bool,
    double: bool,
    other_single: bool,
    other_double: bool,
)
    requires
        has_precisions(input, single, double),
        has_precisions(output, other_single, other_double),
    ensures
        double && other_double ==> common_format(Some(input), Some(output)) == Ok::<
            AudioSampleFormat,
            AudioBufferError,
        >(AudioSampleFormat::F64),
        !(double && other_double) && single && other_single ==> common_format(
            Some(input),
            Some(output),
        ) == Ok::<AudioSampleFormat, AudioBufferError>(AudioSampleFormat::F32),
        (single || double) && (other_single || other_double) && !(single && other_single) && !(
        double && other_double) ==> common_format(Some(input), Some(output)) == Err::<
            AudioSampleFormat,
            AudioBufferError,
        >(AudioBufferError::MismatchedSampleType),
        !single && !double ==> common_format(Some(input), Some(output)) == Err::<
            AudioSampleFormat,
            AudioBufferError,
        >(AudioBufferError::InvalidChannelBuffer),
        double ==> common_format(Some(input), None) == Ok::<AudioSampleFormat, AudioBufferError>(
            AudioSampleFormat::F64,
        ),
        single && !double ==> common_format(Some(input), None) == Ok::<
            AudioSampleFormat,
            AudioBufferError,
        >(AudioSampleFormat::F32),
        other_double ==> common_format(None, Some(output)) == Ok::<
            AudioSampleFormat,
            AudioBufferError,
        >(AudioSampleFormat::F64),
        other_single && !other_double ==> common_format(None, Some(output)) == Ok::<
            AudioSampleFormat,
            AudioBufferError,
        >(AudioSampleFormat::F32),
{
}

/// A block is refused where a port, coming in or going out, has channels and no samples, or has a
/// channel without samples while there are frames. The order of the two makes no difference.
pub proof fn channels_without_samples_are_refused(
    inputs: Seq<AudioPortBuffer>,
    outputs: Seq<AudioPortBuffer>,
    frames_count: u32,
    port: int,
    channel: int,
)
    ensures
        0 <= port < inputs.len() && inputs[port].data32 is None && inputs[port].data64 is None
            && inputs[port].channel_count > 0 ==> buffers_error(inputs, outputs, frames_count)
            == Some(AudioBufferError::InvalidChannelBuffer),
        0 <= port < outputs.len() && outputs[port].data32 is None && outputs[port].data64 is None
            && outputs[port].channel_count > 0 ==> buffers_error(inputs, outputs, frames_count)
            == Some(AudioBufferError::InvalidChannelBuffer),
        frames_count > 0 && 0 <= port < inputs.len() ==> {
            &&& inputs[port].data32 matches Some(table) ==> 0 <= channel < table@.len()
                && table@[channel] == 0 ==> buffers_error(inputs, outputs, frames_count) == Some(
                AudioBufferError::InvalidChannelBuffer,
            )
            &&& inputs[port].data64 matches Some(table) ==> 0 <= channel < table@.len()
                && table@[channel] == 0 ==> buffers_error(inputs, outputs, frames_count) == Some(
                AudioBufferError::InvalidChannelBuffer,
            )
        },
        frames_count > 0 && 0 <= port < outputs.len() ==> {
            &&& outputs[port].data32 matches Some(table) ==> 0 <= channel < table@.len()
                && table@[channel] == 0 ==> buffers_error(inputs, outputs, frames_count) == Some(
                AudioBufferError::InvalidChannelBuffer,
            )
            &&& outputs[port].data64 matches Some(table) ==> 0 <= channel < table@.len()
                && table@[channel] == 0 ==> buffers_error(inputs, outputs, frames_count) == Some(
                AudioBufferError::InvalidChannelBuffer,
            )
        },
{
    if 0 <= port < inputs.len() {
        assert(all_usable(inputs, frames_count) ==> inputs[port].is_usable(frames_count));
        assert(inputs[port].table(AudioSampleFormat::F32) == inputs[port].data32);
        assert(inputs[port].table(AudioSampleFormat::F64) == inputs[port].data64);
    }
    if 0 <= port < outputs.len() {
        assert(all_usable(outputs, frames_count) ==> outputs[port].is_usable(frames_count));
        assert(outputs[port].table(AudioSampleFormat::F32) == outputs[port].data32);
        assert(outputs[port].table(AudioSampleFormat::F64) == outputs[port].data64);
    }
}

/// A block of ports whose tables hold an address for every channel is accepted: those that come in
/// may share their samples with each other and with those that go out, and only those that go
/// out have to be apart.
pub proof fn channels_with_samples_are_accepted(
    inputs: Seq<AudioPortBuffer>,
    outputs: Seq<AudioPortBuffer>,
    frames_count: u32,
)
    requires
        forall|i: int|
            0 <= i < inputs.len() ==> ((#[trigger] inputs[i]).data32 is Some || inputs[i].data64
                is Some) && inputs[i].has_no_null(AudioSampleFormat::F32) && inputs[i].has_no_null(
                AudioSampleFormat::F64,
            ),
        forall|i: int|
            0 <= i < outputs.len() ==> ((#[trigger] outputs[i]).data32 is Some || outputs[i].data64
                is Some) && outputs[i].has_no_null(AudioSampleFormat::F32) && outputs[i].has_no_null(
                AudioSampleFormat::F64,
            ),
    ensures
        buffers_error(inputs, outputs, 0) is None,
        frames_count > 0 ==> (buffers_error(inputs, outputs, frames_count) is None <==> !(
        has_shared_samples(outputs, AudioSampleFormat::F32) || has_shared_samples(
            outputs,
            AudioSampleFormat::F64,
        ))),
        buffers_error(inputs, outputs, frames_count) is Some ==> buffers_error(
            inputs,
            outputs,
            frames_count,
        ) == Some(AudioBufferError::AliasedOutputBuffer),
{
}

/// Each error of a buffer is told in its own words.
pub proof fn buffer_errors_are_told_in_words(error: AudioBufferError, text: &str)
    requires
        call_ensures(AudioBufferError::message, (error,), text),
    ensures
        error is InvalidPortBuffer ==> text@ == "invalid audio port buffer"@,
        error is InvalidChannelBuffer ==> text@ == "invalid audio channel buffer"@,
        error is MismatchedSampleType ==> text@
            == "input and output audio buffers use different sample types"@,
        error is AliasedOutputBuffer ==> text@ == "output audio buffers alias each other"@,
{
}

/// What is written at an address is read there again, and what is at any other address stays. The
/// address of nothing holds nothing and takes nothing.
pub proof fn samples_are_read_where_they_were_written<T>(
    contents: Seq<Seq<T>>,
    address: usize,
    other: usize,
    samples: Seq<T>,
)
    requires
        address <= contents.len(),
        other <= contents.len(),
    ensures
        with_samples(contents, address, samples).len() == contents.len(),
        address > 0 ==> samples_at(with_samples(contents, address, samples), address) == samples,
        other != address ==> samples_at(with_samples(contents, address, samples), other)
            == samples_at(contents, other),
        with_samples(contents, 0, samples) == contents,
        samples_at(contents, 0).len() == 0,
        1 <= other ==> samples_at(contents, other) == contents[other - 1],
{
}

/// Ports and channels pair up by their place: there are as many pairs as the longer side has, and
/// a place that one side does not have is missing there.
pub proof fn places_pair_up(
    ports: Seq<AudioPortBuffer<'_>>,
    index: usize,
    table: Option<&[usize]>,
    a: nat,
    b: nat,
    port: AudioPortBuffer<'_>,
)
    ensures
        larger(a, b) >= a && larger(a, b) >= b,
        larger(a, b) == a || larger(a, b) == b,
        index < ports.len() ==> port_at(ports, index) == Some(ports[index as int]),
        index >= ports.len() ==> port_at(ports, index) is None,
        index < table_len(table) <==> address_at(table, index) is Some,
        table matches Some(addresses) ==> table_len(table) == addresses@.len() && (index
            < addresses@.len() ==> address_at(table, index) == Some(addresses@[index as int])),
        table is None ==> table_len(table) == 0,
        channels_of(Some(port)) == port.channel_count,
        channels_of(None) == 0,
        port_table(Some(port), AudioSampleFormat::F32) == port.data32,
        port_table(Some(port), AudioSampleFormat::F64) == port.data64,
{
}

/// Blocks are checked and precisions are chosen as the laws above say.
pub proof fn blocks_are_checked_before_they_are_used(
    inputs: &[AudioPortBuffer<'_>],
    outputs: &[AudioPortBuffer<'_>],
    frames_count: u32,
    result: Result<(), AudioBufferError>,
    input: AudioPortBuffer<'_>,
    output: AudioPortBuffer<'_>,
    format: Result<AudioSampleFormat, AudioBufferError>,
)
    requires
        call_ensures(validate_buffers, (inputs, outputs, frames_count), result),
        call_ensures(common_sample_type, (Some(&input), Some(&output)), format),
    ensures
        result is Ok <==> buffers_error(inputs@, outputs@, frames_count) is None,
        result matches Err(error) ==> buffers_error(inputs@, outputs@, frames_count) == Some(error),
        format == common_format(Some(input), Some(output)),
        input.channel_count > 0 && output.channel_count > 0 && format == Ok::<
            AudioSampleFormat,
            AudioBufferError,
        >(AudioSampleFormat::F64) ==> input.data64 is Some && output.data64 is Some,
        input.channel_count > 0 && output.channel_count > 0 && format == Ok::<
            AudioSampleFormat,
            AudioBufferError,
        >(AudioSampleFormat::F32) ==> input.data32 is Some && output.data32 is Some,
{
}

/// A channel that was mapped over a range has, at each place of the range, what the function makes
/// of the sample that came in there, and silence where nothing came in; at every other place it has
/// what it had. What came in stays, unless it is in the same place.
pub proof fn ranges_are_written_place_by_place<'a, T: Default, F: FnMut(T) -> T>(
    f: F,
    start: int,
    len: int,
    before: AudioChannelPair<'a, T>,
    after: AudioChannelPair<'a, T>,
    i: int,
)
    requires
        before.range_mapped(f, start, len, after),
        before.outgoing() is Some,
        0 <= i < before.outgoing()->Some_0.len(),
    ensures
        after.outgoing() is Some && after.outgoing()->Some_0.len() == before.outgoing()->Some_0.len(),
        i < start || i >= start + len ==> after.outgoing()->Some_0[i] == before.outgoing()->Some_0[i],
        start <= i < start + len && before.incoming() is Some && i < before.incoming()->Some_0.len()
            ==> call_ensures(f, (before.incoming()->Some_0[i],), after.outgoing()->Some_0[i]),
        start <= i < start + len && before.incoming() is None ==> call_ensures(
            T::default,
            (),
            after.outgoing()->Some_0[i],
        ),
        !(before is InPlace) ==> after.incoming() == before.incoming(),
{
    let written = after.outgoing()->Some_0;
    assert(written[i] == written[i]);
    if before.incoming() is None {
        assert(before.written_len() == before.outgoing()->Some_0.len());
    }
}

/// There are as many ports each way as the host passed, and as many pairs as the longer side has.
pub proof fn ports_are_counted_each_way<S, D>(
    buffer: AudioProcessBuffer<'_, '_, S, D>,
    frames: u32,
    inputs: usize,
    outputs: usize,
    pairs: usize,
)
    requires
        call_ensures(AudioProcessBuffer::<S, D>::frames_count, (&buffer,), frames),
        call_ensures(AudioProcessBuffer::<S, D>::input_port_count, (&buffer,), inputs),
        call_ensures(AudioProcessBuffer::<S, D>::output_port_count, (&buffer,), outputs),
        call_ensures(AudioProcessBuffer::<S, D>::port_pair_count, (&buffer,), pairs),
    ensures
        frames == buffer.frames_count,
        inputs == buffer.inputs@.len(),
        outputs == buffer.outputs@.len(),
        pairs >= inputs && pairs >= outputs,
        pairs == inputs || pairs == outputs,
{
}

/// There are as many channels each way as the tables of a port have, and as many pairs as the
/// longer one has.
pub proof fn channels_are_counted_each_way<T, S, D>(
    channels: AudioPairedChannels<'_, '_, T>,
    frames: u32,
    inputs: usize,
    outputs: usize,
    pairs: usize,
    port: AudioPortPair<'_, '_, S, D>,
    of_port: usize,
    port_frames: u32,
)
    requires
        call_ensures(AudioPairedChannels::<T>::frames_count, (&channels,), frames),
        call_ensures(AudioPairedChannels::<T>::input_channel_count, (&channels,), inputs),
        call_ensures(AudioPairedChannels::<T>::output_channel_count, (&channels,), outputs),
        call_ensures(AudioPairedChannels::<T>::channel_pair_count, (&channels,), pairs),
        call_ensures(AudioPortPair::<S, D>::channel_pair_count, (&port,), of_port),
        call_ensures(AudioPortPair::<S, D>::frames_count, (&port,), port_frames),
    ensures
        frames == channels.frames_count,
        channels.input_data matches Some(table) ==> inputs == table@.len(),
        channels.input_data is None ==> inputs == 0,
        channels.output_data matches Some(table) ==> outputs == table@.len(),
        channels.output_data is None ==> outputs == 0,
        pairs >= inputs && pairs >= outputs,
        pairs == inputs || pairs == outputs,
        port.input matches Some(input) ==> of_port >= input.channel_count,
        port.output matches Some(output) ==> of_port >= output.channel_count,
        port.input is None && port.output is None ==> of_port == 0,
        port_frames == port.frames_count,
{
}

} // verus!
