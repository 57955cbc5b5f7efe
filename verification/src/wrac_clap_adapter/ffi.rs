//! Texts and streams of bytes at the border to the host.

use vstd::prelude::*;
use vstd::utf8::encode_utf8;

verus! {

/// A text that a host passes.
#[derive(Debug, Clone, Copy)]
pub enum TextArgument<'a> {
    /// The host passed nothing.
    Null,
    /// The host passed bytes that are no text.
    Invalid,
    Text(&'a str),
}

/// A code of four characters, with a zero behind it.
pub open spec fn terminated_code(code: Seq<u8>) -> Seq<u8> {
    code.push(0)
}

/// A code of four characters, with a zero behind it.
pub fn four_char_code(bytes: [u8; 4]) -> (code: [u8; 5])
    ensures
        code@ == terminated_code(bytes@),
{
    let code = [bytes[0], bytes[1], bytes[2], bytes[3], 0];
    assert(code@ =~= terminated_code(bytes@));
    code
}

/// What a field of fixed length holds of a text: as many of its bytes as leave room for a zero,
/// and zeros behind them.
pub open spec fn fixed_field(length: int, text: Seq<char>) -> Seq<u8> {
    let bytes = encode_utf8(text);
    Seq::new(
        length as nat,
        |i: int|
            if i < length - 1 && i < bytes.len() {
                bytes[i]
            } else {
                0
            },
    )
}

/// Fills a field of fixed length with a text.
pub fn fill_c_char_array(target: &mut [u8], text: &str)
    ensures
        final(target)@ == fixed_field(old(target)@.len() as int, text@),
{
    let bytes = text.as_bytes();
    let total: usize = target.len();
    let mut i: usize = 0;
    while i < total
        invariant
            i <= total,
            total == target@.len(),
            total == old(target)@.len(),
            bytes@ == encode_utf8(text@),
            forall|j: int|
                0 <= j < i ==> target@[j] == fixed_field(total as int, text@)[j],
        decreases total - i,
    {
        if i < total - 1 && i < bytes.len() {
            target[i] = bytes[i];
        } else {
            target[i] = 0;
        }
        i += 1;
    }
    assert(target@ =~= fixed_field(old(target)@.len() as int, text@));
}

/// What a buffer holds after a text was written to it: as many of the text's bytes as leave room
/// for a zero, the zero, and what was there before.
pub open spec fn written_text(before: Seq<u8>, text: Seq<char>) -> Seq<u8> {
    let bytes = encode_utf8(text);
    let shown = if bytes.len() < before.len() {
        bytes
    } else {
        bytes.take(before.len() - 1)
    };
    shown.push(0) + before.skip(shown.len() as int + 1)
}

/// Writes a text to a buffer that has room for at least a zero. A buffer without room, which is
/// also what a missing buffer is, is refused.
pub fn write_c_str_buffer(out: &mut [u8], text: &str) -> (written: bool)
    ensures
        written == (old(out)@.len() > 0),
        final(out)@ == if written {
            written_text(old(out)@, text@)
        } else {
            old(out)@
        },
{
    let total: usize = out.len();
    if total == 0 {
        return false;
    }
    let bytes = text.as_bytes();
    let len: usize = if bytes.len() < total {
        bytes.len()
    } else {
        total - 1
    };
    let mut i: usize = 0;
    while i < len
        invariant
            i <= len,
            len < total,
            len <= bytes@.len(),
            total == out@.len(),
            total == old(out)@.len(),
            forall|j: int| 0 <= j < i ==> out@[j] == bytes@[j],
            forall|j: int| i <= j < total ==> out@[j] == old(out)@[j],
        decreases len - i,
    {
        out[i] = bytes[i];
        i += 1;
    }
    out[len] = 0;
    assert(out@ =~= written_text(old(out)@, text@));
    true
}

// Writing a stream

/// What is left to hand to a stream that takes a few bytes at a time.
#[derive(Debug)]
pub struct StreamWriter<'a> {
    bytes: &'a [u8],
    offset: usize,
}

/// What is left of bytes after a stream has taken some.
pub open spec fn after_taken(pending: Seq<u8>, written: int) -> Seq<u8> {
    if written <= 0 {
        pending
    } else if written >= pending.len() {
        Seq::empty()
    } else {
        pending.skip(written)
    }
}

/// How a transfer goes on.
#[derive(Debug, Clone, Copy, PartialEq, Eq, Structural)]
pub enum TransferStep {
    /// The host is to be called again.
    Continue,
    /// The transfer is complete.
    Done,
    /// The transfer has failed.
    Failed,
}

impl<'a> StreamWriter<'a> {
    /// The bytes that the stream has not taken yet.
    pub closed spec fn pending(self) -> Seq<u8> {
        self.bytes@.skip(self.offset as int)
    }

    /// Whether the writer is inside its bytes.
    pub closed spec fn wf(self) -> bool {
        self.offset <= self.bytes@.len()
    }

    /// A writer for `bytes`.
    pub fn new(bytes: &'a [u8]) -> (writer: Self)
        ensures
            writer.wf(),
            writer.pending() == bytes@,
    {
        assert(bytes@.skip(0) =~= bytes@);
        StreamWriter { bytes, offset: 0 }
    }

    /// Whether the stream is to be called.
    pub fn step(&self) -> (step: TransferStep)
        requires
            self.wf(),
        ensures
            step == if self.pending().len() > 0 {
                TransferStep::Continue
            } else {
                TransferStep::Done
            },
    {
        if self.offset < self.bytes.len() {
            TransferStep::Continue
        } else {
            TransferStep::Done
        }
    }

    /// The bytes to offer to the stream.
    pub fn offer(&self) -> (bytes: &'a [u8])
        requires
            self.wf(),
        ensures
            bytes@ == self.pending(),
    {
        vstd::slice::slice_subrange(self.bytes, self.offset, self.bytes.len())
    }

    /// Takes note of how many bytes the stream has taken. A stream that takes none has failed; one
    /// that claims more than it was offered has taken everything.
    pub fn taken(&mut self, written: i64) -> (step: TransferStep)
        requires
            old(self).wf(),
        ensures
            final(self).wf(),
            final(self).pending() == after_taken(old(self).pending(), written as int),
            step == if written <= 0 {
                TransferStep::Failed
            } else if written >= old(self).pending().len() {
                TransferStep::Done
            } else {
                TransferStep::Continue
            },
    {
        if written <= 0 {
            return TransferStep::Failed;
        }
        let left: usize = self.bytes.len() - self.offset;
        if written as u64 >= left as u64 {
            self.offset = self.bytes.len();
            assert(self.pending() =~= Seq::<u8>::empty());
            TransferStep::Done
        } else {
            self.offset = self.offset + written as usize;
            assert(self.pending() =~= old(self).pending().skip(written as int));
            TransferStep::Continue
        }
    }
}

// Reading a stream

/// The largest state that is read from a host.
pub const MAX_STATE_BYTES: usize = 0x400_0000;

/// How many bytes a stream is asked for at a time.
pub const STREAM_CHUNK_BYTES: usize = 4096;

/// What has come from a stream once it has put `count` bytes into a chunk.
pub open spec fn after_received(held: Seq<u8>, chunk: Seq<u8>, count: int) -> Seq<u8> {
    held + chunk.take(count)
}

/// What has come from a stream so far.
#[derive(Debug)]
pub struct StreamReader {
    bytes: Vec<u8>,
    max_len: usize,
}

impl View for StreamReader {
    type V = Seq<u8>;

    closed spec fn view(&self) -> Seq<u8> {
        self.bytes@
    }
}

impl StreamReader {
    /// How many bytes may come at most.
    pub closed spec fn limit(self) -> int {
        self.max_len as int
    }

    /// A reader that has read nothing.
    pub fn new(max_len: usize) -> (reader: Self)
        ensures
            reader@ == Seq::<u8>::empty(),
            reader.limit() == max_len,
    {
        StreamReader { bytes: Vec::new(), max_len }
    }

    /// Takes note of an answer of the stream: how many bytes it has put into `chunk`, or a
    /// negative number where it has failed. A stream that puts none has ended; one that would
    /// bring more than the limit fails, and nothing of its last chunk is kept.
    pub fn received(&mut self, read_count: i64, chunk: &[u8]) -> (step: TransferStep)
        requires
            read_count <= chunk@.len(),
        ensures
            final(self).limit() == old(self).limit(),
            ({
                let fits = old(self)@.len() + read_count <= old(self).limit();
                &&& step == if read_count < 0 || (read_count > 0 && !fits) {
                    TransferStep::Failed
                } else if read_count == 0 {
                    TransferStep::Done
                } else {
                    TransferStep::Continue
                }
                &&& final(self)@ == if step is Continue {
                    after_received(old(self)@, chunk@, read_count as int)
                } else {
                    old(self)@
                }
            }),
    {
        if read_count < 0 {
            return TransferStep::Failed;
        }
        if read_count == 0 {
            return TransferStep::Done;
        }
        let offered: usize = chunk.len();
        assert(read_count <= offered);
        let count: usize = read_count as usize;
        let held: usize = self.bytes.len();
        if held > self.max_len || count > self.max_len - held {
            return TransferStep::Failed;
        }
        let mut i: usize = 0;
        while i < count
            invariant
                i <= count <= chunk@.len(),
                self.bytes@ == old(self)@ + chunk@.take(i as int),
                self.max_len == old(self).max_len,
            decreases count - i,
        {
            self.bytes.push(chunk[i]);
            i += 1;
            assert(self.bytes@ =~= old(self)@ + chunk@.take(i as int));
        }
        TransferStep::Continue
    }

    /// The bytes that have come.
    pub fn into_bytes(self) -> (bytes: Vec<u8>)
        ensures
            bytes@ == self@,
    {
        self.bytes
    }
}

/// What a writer still has and what a reader has got, where every piece that the stream takes
/// from the writer is the chunk that the reader gets.
pub open spec fn transferred(pending: Seq<u8>, held: Seq<u8>, counts: Seq<int>) -> (
    Seq<u8>,
    Seq<u8>,
)
    decreases counts.len(),
{
    if counts.len() == 0 {
        (pending, held)
    } else {
        transferred(
            after_taken(pending, counts[0]),
            after_received(held, pending, counts[0]),
            counts.skip(1),
        )
    }
}

/// Whether a stream takes at least one byte at a time, and no more than it is offered.
pub open spec fn takes_what_is_offered(pending: Seq<u8>, counts: Seq<int>) -> bool
    decreases counts.len(),
{
    counts.len() == 0 || (0 < counts[0] <= pending.len() && takes_what_is_offered(
        after_taken(pending, counts[0]),
        counts.skip(1),
    ))
}

/// Nothing is lost, changed or moved between a writer and a reader, in however many pieces the
/// bytes pass; so once the writer is done the reader has what was written.
pub proof fn reading_gives_back_what_was_written(
    pending: Seq<u8>,
    held: Seq<u8>,
    counts: Seq<int>,
)
    requires
        takes_what_is_offered(pending, counts),
    ensures
        ({
            let (left, got) = transferred(pending, held, counts);
            &&& got + left == held + pending
            &&& left.len() == 0 ==> got == held + pending
        }),
    decreases counts.len(),
{
    if counts.len() > 0 {
        let left = after_taken(pending, counts[0]);
        let got = after_received(held, pending, counts[0]);
        assert(left =~= pending.skip(counts[0]));
        assert(got + left =~= held + pending);
        reading_gives_back_what_was_written(left, got, counts.skip(1));
    }
    let (left, got) = transferred(pending, held, counts);
    if left.len() == 0 {
        assert(got + left =~= got);
    }
}

/// A field of fixed length is filled to its end and closes with a zero. A text that leaves room
/// for it stands there whole, with nothing but zeros behind it; a longer one is cut.
pub proof fn fields_close_with_a_zero(length: int, text: Seq<char>)
    requires
        length > 0,
    ensures
        ({
            let field = fixed_field(length, text);
            let bytes = encode_utf8(text);
            &&& field.len() == length
            &&& field.last() == 0
            &&& bytes.len() < length ==> field.take(bytes.len() as int) == bytes && forall|i: int|
                bytes.len() <= i < length ==> field[i] == 0
            &&& bytes.len() >= length ==> field.drop_last() == bytes.take(length - 1)
        }),
{
}

/// A text that is written to a buffer starts it, is closed by a zero, and leaves the rest of the
/// buffer as it was. It is cut only where the buffer has no room for it and the zero.
pub proof fn written_texts_close_with_a_zero(before: Seq<u8>, text: Seq<char>)
    requires
        before.len() > 0,
    ensures
        ({
            let after = written_text(before, text);
            let bytes = encode_utf8(text);
            let shown = if bytes.len() < before.len() {
                bytes.len() as int
            } else {
                before.len() - 1
            };
            &&& after.len() == before.len()
            &&& after.take(shown) == bytes.take(shown)
            &&& after[shown] == 0
            &&& after.skip(shown + 1) == before.skip(shown + 1)
        }),
{
    let after = written_text(before, text);
    let bytes = encode_utf8(text);
    if bytes.len() < before.len() {
        assert(bytes.take(bytes.len() as int) =~= bytes);
    }
}

/// A code keeps its four characters in order and is closed by a zero.
pub proof fn codes_close_with_a_zero(bytes: [u8; 4], code: [u8; 5])
    requires
        call_ensures(four_char_code, (bytes,), code),
    ensures
        forall|i: int| 0 <= i < 4 ==> code@[i] == bytes@[i],
        code@[4] == 0,
{
}

/// A stream that takes everything, or claims more, leaves nothing to write; one that takes
/// nothing has failed, and nothing of what it was offered is skipped.
pub proof fn writing_ends_with_the_last_byte(
    writer: &mut StreamWriter<'_>,
    written: i64,
    step: TransferStep,
    next: TransferStep,
)
    requires
        old(writer).wf(),
        call_ensures(StreamWriter::taken, (writer, written), step),
        call_ensures(StreamWriter::step, (final(writer),), next),
    ensures
        written <= 0 ==> step is Failed && final(writer).pending() == old(writer).pending(),
        written > 0 && written < old(writer).pending().len() ==> step is Continue
            && final(writer).pending() == old(writer).pending().skip(written as int),
        written > 0 && written >= old(writer).pending().len() ==> step is Done && final(writer).pending().len() == 0,
        next is Done <==> final(writer).pending().len() == 0,
        !(next is Failed),
        step is Done ==> next is Done,
{
}

/// What a stream brings stands behind what came before, unless it would go over the limit: a
/// state of the largest size is read, and one byte more is refused.
pub proof fn reading_stops_at_the_limit(
    reader: &mut StreamReader,
    count: i64,
    chunk: &[u8],
    step: TransferStep,
)
    requires
        0 < count <= chunk@.len(),
        call_ensures(StreamReader::received, (reader, count, chunk), step),
        old(reader)@.len() <= old(reader).limit(),
    ensures
        step is Continue <==> old(reader)@.len() + count <= old(reader).limit(),
        step is Continue ==> final(reader)@.len() == old(reader)@.len() + count && final(reader)@.take(old(reader)@.len() as int) == old(reader)@ && final(reader)@.skip(
            old(reader)@.len() as int,
        ) == chunk@.take(count as int),
        !(step is Continue) ==> step is Failed && final(reader)@ == old(reader)@,
        final(reader)@.len() <= final(reader).limit(),
        MAX_STATE_BYTES == 64 * 1024 * 1024,
{
}

/// A stream that brings nothing more has ended, one that answers with a negative number has
/// failed, and what came before stays as it is.
pub proof fn reading_ends_without_a_byte(
    reader: &mut StreamReader,
    count: i64,
    chunk: &[u8],
    step: TransferStep,
)
    requires
        count <= 0,
        call_ensures(StreamReader::received, (reader, count, chunk), step),
    ensures
        step is Done <==> count == 0,
        step is Failed <==> count < 0,
        final(reader)@ == old(reader)@,
{
}

/// A field is filled with a text from its start on and closed by a zero, and so is a buffer, of
/// which the rest stays as it was; a buffer without room is left alone.
pub proof fn texts_reach_their_field(
    field: &mut [u8],
    out: &mut [u8],
    text: &str,
    written: bool,
)
    requires
        call_ensures(fill_c_char_array, (field, text), ()),
        call_ensures(write_c_str_buffer, (out, text), written),
    ensures
        final(field)@.len() == old(field)@.len(),
        old(field)@.len() > 0 ==> final(field)@.last() == 0,
        encode_utf8(text@).len() < old(field)@.len() ==> final(field)@.take(
            encode_utf8(text@).len() as int,
        ) == encode_utf8(text@),
        final(out)@.len() == old(out)@.len(),
        written <==> old(out)@.len() > 0,
        !written ==> final(out)@ == old(out)@,
        written && encode_utf8(text@).len() < old(out)@.len() ==> final(out)@.take(
            encode_utf8(text@).len() as int,
        ) == encode_utf8(text@) && final(out)@[encode_utf8(text@).len() as int] == 0,
{
    let bytes = encode_utf8(text@);
    if old(field)@.len() > 0 {
        fields_close_with_a_zero(old(field)@.len() as int, text@);
    }
    if old(out)@.len() > 0 {
        written_texts_close_with_a_zero(old(out)@, text@);
        if bytes.len() < old(out)@.len() {
            assert(bytes.take(bytes.len() as int) =~= bytes);
        }
    }
}

/// A new writer offers all of its bytes, and a reader hands out what has come.
pub proof fn bytes_are_offered_and_handed_out(
    bytes: &[u8],
    writer: StreamWriter<'_>,
    offered: &[u8],
    limit: usize,
    reader: StreamReader,
    held: StreamReader,
    out: Vec<u8>,
)
    requires
        call_ensures(StreamWriter::new, (bytes,), writer),
        call_ensures(StreamWriter::offer, (&writer,), offered),
        call_ensures(StreamReader::new, (limit,), reader),
        call_ensures(StreamReader::into_bytes, (held,), out),
    ensures
        offered@ == bytes@,
        reader@.len() == 0,
        reader.limit() == limit,
        out@ == held@,
{
}

} // verus!
