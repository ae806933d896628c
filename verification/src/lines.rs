//! Cutting captured process output into text lines.
//!
//! A child process writes bytes; the log shows lines. [`frame`] says which
//! lines a byte stream holds, [`LinePump`] produces them chunk by chunk, and
//! the laws at the end of the file relate the two.

use vstd::prelude::*;
use vstd::utf8::*;
use crate::error::StreamError;

verus! {

/// The byte that ends a line.
pub const NEWLINE: u8 = 0x0A;

/// The byte that may stand before a newline and is then not part of the line.
pub const CARRIAGE_RETURN: u8 = 0x0D;

/// A byte stream cut at every newline.
pub struct Framing {
    /// The lines that a newline has ended, in stream order, each without it.
    pub lines: Seq<Seq<u8>>,
    /// The bytes after the last newline.
    pub rest: Seq<u8>,
}

/// Cuts `bytes` at every newline, reading from the front, when the bytes in
/// `open` came before them and no newline has ended those yet.
pub open spec fn frame_from(open: Seq<u8>, bytes: Seq<u8>) -> Framing
    decreases bytes.len(),
{
    if bytes.len() == 0 {
        Framing { lines: Seq::empty(), rest: open }
    } else {
        let before = frame_from(open, bytes.drop_last());
        if bytes.last() == NEWLINE {
            Framing { lines: before.lines.push(before.rest), rest: Seq::empty() }
        } else {
            Framing { lines: before.lines, rest: before.rest.push(bytes.last()) }
        }
    }
}

/// Cuts a whole stream at every newline.
pub open spec fn frame(bytes: Seq<u8>) -> Framing {
    frame_from(Seq::empty(), bytes)
}

/// Whether no byte of `bytes` is a newline.
pub open spec fn newline_free(bytes: Seq<u8>) -> bool {
    forall|i: int| 0 <= i < bytes.len() ==> bytes[i] != NEWLINE
}

/// The lines written out again, each followed by a newline.
pub open spec fn terminated(lines: Seq<Seq<u8>>) -> Seq<u8>
    decreases lines.len(),
{
    if lines.len() == 0 {
        Seq::empty()
    } else {
        terminated(lines.drop_last()) + lines.last().push(NEWLINE)
    }
}

/// A line without the carriage return that stood before its newline.
pub open spec fn without_carriage_return(line: Seq<u8>) -> Seq<u8> {
    if line.len() > 0 && line.last() == CARRIAGE_RETURN {
        line.drop_last()
    } else {
        line
    }
}

/// The text that `bytes` are shown as: what they encode where they are
/// well-formed UTF-8, and else what lenient decoding makes of them.
pub open spec fn shown_text(bytes: Seq<u8>) -> Seq<char> {
    if valid_utf8(bytes) {
        decode_utf8(bytes)
    } else {
        lossy_text(bytes)
    }
}

/// The text of a line that a newline ended: its bytes up to the newline,
/// less a carriage return before it, as they are shown.
pub open spec fn line_text(line: Seq<u8>) -> Seq<char> {
    shown_text(without_carriage_return(line))
}

/// The texts of all `lines`, in order.
pub open spec fn line_texts(lines: Seq<Seq<u8>>) -> Seq<Seq<char>> {
    Seq::new(lines.len(), |i: int| line_text(lines[i]))
}

/// What the strings of `lines` hold, in order.
pub open spec fn texts_of(lines: Seq<String>) -> Seq<Seq<char>> {
    Seq::new(lines.len(), |i: int| lines[i]@)
}

/// The text that lenient UTF-8 decoding makes of `bytes`: every malformed
/// sequence becomes U+FFFD, everything else is decoded as it stands.
pub uninterp spec fn lossy_text(bytes: Seq<u8>) -> Seq<char>;

/// Decodes `bytes` with `String::from_utf8_lossy` of the standard library.
///
/// Trusted: the result is named [`lossy_text`], and, as the standard library
/// documents, well-formed UTF-8 comes back as the very string it encodes.
/// The call returns for every input.
#[verifier::external_body]
fn decode_lossy(bytes: &[u8]) -> (text: String)
    ensures
        text@ == lossy_text(bytes@),
        valid_utf8(bytes@) ==> text@ == decode_utf8(bytes@),
{
    String::from_utf8_lossy(bytes).into_owned()
}

/// The text of the line that is open when a stream ends: none where nothing
/// followed the last newline, else those bytes as they are shown.
pub open spec fn open_line_text(open: Seq<u8>) -> Option<Seq<char>> {
    if open.len() == 0 {
        None
    } else {
        Some(shown_text(open))
    }
}

/// What an optional string holds.
pub open spec fn option_text(text: Option<String>) -> Option<Seq<char>> {
    match text {
        Some(text) => Some(text@),
        None => None,
    }
}

/// Cuts the next bytes of a stream into lines.
///
/// `open` holds the bytes since the last newline. The result is the text of
/// every line that a newline in `chunk` ends, in order; `open` then holds
/// what follows the last newline.
pub fn cut_chunk(open: &mut Vec<u8>, chunk: &[u8]) -> (lines: Vec<String>)
    ensures
        texts_of(lines@) == line_texts(frame_from(old(open)@, chunk@).lines),
        final(open)@ == frame_from(old(open)@, chunk@).rest,
{
    let mut lines: Vec<String> = Vec::new();
    proof {
        assert(chunk@.take(0) =~= Seq::<u8>::empty());
        assert(texts_of(lines@) =~= line_texts(Seq::<Seq<u8>>::empty()));
    }
    let ghost start = open@;
    let ghost mut raw: Seq<Seq<u8>> = Seq::empty();
    let mut i: usize = 0;
    while i < chunk.len()
        invariant
            i <= chunk.len(),
            frame_from(start, chunk@.take(i as int)) == (Framing { lines: raw, rest: open@ }),
            texts_of(lines@) == line_texts(raw),
        decreases chunk.len() - i,
    {
        let byte: u8 = chunk[i];
        proof {
            let seen = chunk@.take(i as int + 1);
            assert(seen.drop_last() =~= chunk@.take(i as int));
            assert(seen.last() == byte);
        }
        if byte == NEWLINE {
            let ghost line = open@;
            let count: usize = open.len();
            if count > 0 && open[count - 1] == CARRIAGE_RETURN {
                open.pop();
            }
            assert(open@ =~= without_carriage_return(line));
            let ghost earlier = lines@;
            let text: String = decode_lossy(open.as_slice());
            lines.push(text);
            open.clear();
            proof {
                assert(texts_of(earlier).len() == earlier.len());
                assert(line_texts(raw).len() == raw.len());
                assert forall|k: int| 0 <= k < earlier.len() implies lines@[k]@ == line_text(
                    raw[k],
                ) by {
                    assert(texts_of(earlier)[k] == earlier[k]@);
                    assert(line_texts(raw)[k] == line_text(raw[k]));
                }
                assert(texts_of(lines@) =~= line_texts(raw.push(line)));
                raw = raw.push(line);
            }
        } else {
            open.push(byte);
        }
        i = i + 1;
    }
    proof {
        assert(chunk@.take(chunk.len() as int) =~= chunk@);
    }
    lines
}

/// Takes the line that is open at the end of a stream.
///
/// Returns its text, if any bytes followed the last newline, and empties
/// `open`.
pub fn take_open_line(open: &mut Vec<u8>) -> (last: Option<String>)
    ensures
        option_text(last) == open_line_text(old(open)@),
        final(open)@ == Seq::<u8>::empty(),
{
    if open.len() == 0 {
        assert(open@ =~= Seq::<u8>::empty());
        None
    } else {
        let text: String = decode_lossy(open.as_slice());
        open.clear();
        Some(text)
    }
}

/// Whether a pump still takes bytes, and if not, how its stream ended.
#[derive(Clone, Copy, Debug, PartialEq, Eq, Structural)]
pub enum PumpStatus {
    /// The stream is open.
    Open,
    /// The stream reached its end.
    Closed,
    /// Reading the stream failed.
    Failed,
}

/// Turns the bytes of one captured stream into lines, chunk by chunk.
///
/// The pump keeps the bytes of the line that is still open. It never ends a
/// stream on account of what the bytes are: only [`LinePump::close`] and
/// [`LinePump::fail`] do, and after either the pump yields nothing more.
#[derive(Debug)]
pub struct LinePump {
    pending: Vec<u8>,
    status: PumpStatus,
}

impl LinePump {
    /// The bytes received since the last newline.
    pub closed spec fn pending(&self) -> Seq<u8> {
        self.pending@
    }

    /// Whether the pump still takes bytes.
    pub closed spec fn status(&self) -> PumpStatus {
        self.status
    }

    /// A pump at the start of a stream.
    pub fn new() -> (pump: Self)
        ensures
            pump.pending() == Seq::<u8>::empty(),
            pump.status() == PumpStatus::Open,
    {
        LinePump { pending: Vec::new(), status: PumpStatus::Open }
    }

    /// Whether the pump still takes bytes.
    pub fn is_open(&self) -> (open: bool)
        ensures
            open == (self.status() == PumpStatus::Open),
    {
        match self.status {
            PumpStatus::Open => true,
            _ => false,
        }
    }

    /// How the stream stands.
    pub fn current_status(&self) -> (status: PumpStatus)
        ensures
            status == self.status(),
    {
        self.status
    }

    /// Takes the next bytes of the stream and returns the lines they end.
    ///
    /// An open pump returns the text of every line that a newline in `chunk`
    /// ends, in order, and keeps what follows the last newline. No byte value
    /// closes the pump. A pump that is no longer open returns nothing and
    /// stays as it is.
    pub fn feed(&mut self, chunk: &[u8]) -> (lines: Vec<String>)
        ensures
            final(self).status() == old(self).status(),
            old(self).status() == PumpStatus::Open ==> {
                &&& texts_of(lines@) == line_texts(frame_from(old(self).pending(), chunk@).lines)
                &&& final(self).pending() == frame_from(old(self).pending(), chunk@).rest
            },
            old(self).status() != PumpStatus::Open ==> {
                &&& lines@.len() == 0
                &&& final(self).pending() == old(self).pending()
            },
    {
        if !self.is_open() {
            return Vec::new();
        }
        cut_chunk(&mut self.pending, chunk)
    }

    /// Ends the stream at its true end.
    ///
    /// An open pump closes and returns the text of the bytes after the last
    /// newline, if there are any: a last line that no newline ended. A pump
    /// that is no longer open returns nothing and stays as it is.
    pub fn close(&mut self) -> (last: Option<String>)
        ensures
            final(self).status() == closed_status(old(self).status()),
            old(self).status() == PumpStatus::Open ==> {
                &&& option_text(last) == open_line_text(old(self).pending())
                &&& final(self).pending() == Seq::<u8>::empty()
            },
            old(self).status() != PumpStatus::Open ==> {
                &&& last.is_none()
                &&& final(self).pending() == old(self).pending()
            },
    {
        if !self.is_open() {
            return None;
        }
        self.status = PumpStatus::Closed;
        take_open_line(&mut self.pending)
    }

    /// Ends the stream because reading it failed.
    ///
    /// An open pump reports the failure, once, and drops the bytes of the line
    /// that was still open. A pump that is no longer open reports nothing and
    /// stays as it is.
    pub fn fail(&mut self) -> (report: Option<StreamError>)
        ensures
            final(self).status() == failed_status(old(self).status()),
            old(self).status() == PumpStatus::Open ==> {
                &&& report == Some(StreamError::ReadFailed)
                &&& final(self).pending() == Seq::<u8>::empty()
            },
            old(self).status() != PumpStatus::Open ==> {
                &&& report.is_none()
                &&& final(self).pending() == old(self).pending()
            },
    {
        if !self.is_open() {
            return None;
        }
        self.status = PumpStatus::Failed;
        self.pending.clear();
        Some(StreamError::ReadFailed)
    }
}

/// The status after the end of the stream was seen.
pub open spec fn closed_status(status: PumpStatus) -> PumpStatus {
    if status == PumpStatus::Open {
        PumpStatus::Closed
    } else {
        status
    }
}

/// The status after a read failure was seen.
pub open spec fn failed_status(status: PumpStatus) -> PumpStatus {
    if status == PumpStatus::Open {
        PumpStatus::Failed
    } else {
        status
    }
}

/// Cutting a stream in two chunks gives the lines of the whole: the second
/// chunk goes on where the first one stopped.
pub proof fn lemma_frame_chunks(open: Seq<u8>, first: Seq<u8>, second: Seq<u8>)
    ensures
        frame_from(open, first + second).lines == frame_from(open, first).lines + frame_from(
            frame_from(open, first).rest,
            second,
        ).lines,
        frame_from(open, first + second).rest == frame_from(
            frame_from(open, first).rest,
            second,
        ).rest,
    decreases second.len(),
{
    let middle = frame_from(open, first).rest;
    if second.len() == 0 {
        assert(first + second =~= first);
        assert(frame_from(open, first).lines + Seq::<Seq<u8>>::empty() =~= frame_from(
            open,
            first,
        ).lines);
    } else {
        lemma_frame_chunks(open, first, second.drop_last());
        assert((first + second).drop_last() =~= first + second.drop_last());
        assert((first + second).last() == second.last());
        let before = frame_from(middle, second.drop_last());
        if second.last() == NEWLINE {
            assert(frame_from(open, first).lines + before.lines.push(before.rest) =~= (
            frame_from(open, first).lines + before.lines).push(before.rest));
        }
    }
}

/// Cutting puts nothing in and leaves nothing out: the lines, each with its
/// newline, followed by the rest are the bytes that were cut.
pub proof fn lemma_frame_rebuilds(open: Seq<u8>, bytes: Seq<u8>)
    ensures
        terminated(frame_from(open, bytes).lines) + frame_from(open, bytes).rest == open + bytes,
    decreases bytes.len(),
{
    let cut = frame_from(open, bytes);
    if bytes.len() == 0 {
        assert(terminated(cut.lines) + cut.rest =~= open + bytes);
    } else {
        lemma_frame_rebuilds(open, bytes.drop_last());
        let before = frame_from(open, bytes.drop_last());
        assert(open + bytes =~= (open + bytes.drop_last()).push(bytes.last()));
        if bytes.last() == NEWLINE {
            assert(cut.lines.drop_last() =~= before.lines);
            assert(terminated(cut.lines) + cut.rest =~= (terminated(before.lines)
                + before.rest).push(NEWLINE));
        } else {
            assert(terminated(cut.lines) + cut.rest =~= (terminated(before.lines)
                + before.rest).push(bytes.last()));
        }
    }
}

/// No line that cutting yields holds a newline, nor does the rest, when the
/// bytes that were open before held none.
pub proof fn lemma_frame_newline_free(open: Seq<u8>, bytes: Seq<u8>)
    requires
        newline_free(open),
    ensures
        newline_free(frame_from(open, bytes).rest),
        forall|i: int|
            0 <= i < frame_from(open, bytes).lines.len() ==> newline_free(
                #[trigger] frame_from(open, bytes).lines[i],
            ),
    decreases bytes.len(),
{
    if bytes.len() > 0 {
        lemma_frame_newline_free(open, bytes.drop_last());
    }
}

/// A stream without a newline holds no finished line: all of it is still open.
pub proof fn lemma_frame_without_newline(open: Seq<u8>, bytes: Seq<u8>)
    requires
        newline_free(bytes),
    ensures
        frame_from(open, bytes) == (Framing { lines: Seq::empty(), rest: open + bytes }),
    decreases bytes.len(),
{
    if bytes.len() > 0 {
        lemma_frame_without_newline(open, bytes.drop_last());
        assert((open + bytes.drop_last()).push(bytes.last()) =~= open + bytes);
    } else {
        assert(open + bytes =~= open);
    }
}

/// A stream of newline-terminated lines, with nothing after the last newline,
/// is cut into exactly those lines, in their order, and nothing is left open.
pub proof fn lemma_frame_of_terminated(lines: Seq<Seq<u8>>)
    requires
        forall|i: int| 0 <= i < lines.len() ==> newline_free(#[trigger] lines[i]),
    ensures
        frame(terminated(lines)) == (Framing { lines: lines, rest: Seq::empty() }),
    decreases lines.len(),
{
    if lines.len() > 0 {
        let front = lines.drop_last();
        let last = lines.last();
        lemma_frame_of_terminated(front);
        lemma_frame_chunks(Seq::empty(), terminated(front), last.push(NEWLINE));
        lemma_frame_without_newline(Seq::empty(), last);
        assert(last.push(NEWLINE).drop_last() =~= last);
        assert(Seq::<u8>::empty() + last =~= last);
        let tail = frame_from(Seq::empty(), last.push(NEWLINE));
        assert(tail.lines =~= Seq::<Seq<u8>>::empty().push(last));
        assert(tail.rest =~= Seq::<u8>::empty());
        assert(front + tail.lines =~= lines);
    } else {
        assert(lines =~= Seq::<Seq<u8>>::empty());
    }
}

/// How many newlines `bytes` hold.
pub open spec fn newlines_in(bytes: Seq<u8>) -> nat
    decreases bytes.len(),
{
    if bytes.len() == 0 {
        0
    } else if bytes.last() == NEWLINE {
        newlines_in(bytes.drop_last()) + 1
    } else {
        newlines_in(bytes.drop_last())
    }
}

/// There are as many lines as newlines, whatever the other bytes are: no
/// byte value ends a stream, and none but the newline ends a line.
pub proof fn lemma_frame_counts_newlines(open: Seq<u8>, bytes: Seq<u8>)
    ensures
        frame_from(open, bytes).lines.len() == newlines_in(bytes),
    decreases bytes.len(),
{
    if bytes.len() > 0 {
        lemma_frame_counts_newlines(open, bytes.drop_last());
    }
}

} // verus!
