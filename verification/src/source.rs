//! A buffered byte source and the single-line read on it.
//!
//! The source owns its bytes and a read position; one read consumes the
//! bytes up to and including the first line feed at or after the position,
//! or everything to the end of the input when no line feed remains. A line
//! lacking its trailing line feed at end of input is returned as an
//! ordinary, truncated line, not as an error. Repeated reads advance the
//! position and never hand out a consumed byte again.

use vstd::prelude::*;

use crate::errors::Error;
use crate::normalize::{normalize, normalize_spec, LF};
use crate::secret::SecureString;

verus! {

/// The position just after the line that starts at `pos`: one past the
/// first line feed at or after `pos`, or the end of the input.
pub open spec fn line_break(data: Seq<u8>, pos: int) -> int
    decreases data.len() - pos
        when 0 <= pos <= data.len()
{
    if pos >= data.len() {
        pos
    } else if data[pos] == LF {
        pos + 1
    } else {
        line_break(data, pos + 1)
    }
}

/// The raw line that starts at `pos`, trailing line feed included.
pub open spec fn line_at(data: Seq<u8>, pos: int) -> Seq<u8> {
    data.subrange(pos, line_break(data, pos))
}

/// A line read only moves the position forward, and never past the end of
/// the input: what was consumed once is never read again.
pub proof fn lemma_line_break_bounds(data: Seq<u8>, pos: int)
    requires
        0 <= pos <= data.len(),
    ensures
        pos <= line_break(data, pos) <= data.len(),
    decreases data.len() - pos,
{
    if pos < data.len() && data[pos] != LF {
        lemma_line_break_bounds(data, pos + 1);
    }
}

/// The first line feed of `data` at or after `pos` stands at `end`: the
/// line that starts at `pos` ends just after it.
pub proof fn lemma_first_line(data: Seq<u8>, pos: int, end: int)
    requires
        0 <= pos <= end < data.len(),
        data[end] == LF,
        forall|j: int| pos <= j < end ==> data[j] != LF,
    ensures
        line_break(data, pos) == end + 1,
    decreases end - pos,
{
    if pos < end {
        lemma_first_line(data, pos + 1, end);
    }
}

/// A complete raw line — one whose only line feed is its last byte — is
/// the first line of any input that begins with it, whatever follows.
pub proof fn lemma_accumulated_line(s: Seq<u8>, rest: Seq<u8>)
    requires
        s.len() > 0,
        s.last() == LF,
        forall|j: int| 0 <= j < s.len() - 1 ==> s[j] != LF,
    ensures
        line_at(s + rest, 0) == s,
{
    lemma_first_line(s + rest, 0, s.len() - 1);
    assert((s + rest).subrange(0, s.len() as int) =~= s);
}

/// Accumulates the bytes of one line as a platform read loop delivers
/// them: the loop reads a byte from the device, hands it in, and stops
/// when the line is complete or the input ends. The bytes go straight
/// into an erased-on-drop buffer.
pub struct LineAccumulator {
    buf: SecureString,
    done: bool,
}

impl LineAccumulator {
    /// The bytes accepted so far.
    pub closed spec fn bytes(&self) -> Seq<u8> {
        self.buf@
    }

    /// Whether the line is complete: its line feed has arrived.
    pub closed spec fn is_done(&self) -> bool {
        self.done
    }

    /// An empty accumulator: no bytes seen, line not complete.
    pub fn new() -> (r: Self)
        ensures
            r.bytes() == Seq::<u8>::empty(),
            !r.is_done(),
    {
        LineAccumulator { buf: SecureString::new(), done: false }
    }

    /// Takes the next byte of the stream and keeps it, the line feed
    /// included, as a raw line read keeps its terminator. The line is
    /// complete exactly when the byte is the line feed.
    pub fn accept(&mut self, b: u8) -> (done: bool)
        requires
            !old(self).is_done(),
        ensures
            final(self).bytes() == old(self).bytes().push(b),
            final(self).is_done() == (b == LF),
            done == final(self).is_done(),
    {
        self.buf.push(b);
        self.done = b == LF;
        self.done
    }

    /// The raw line accumulated so far: a complete line up to and
    /// including its line feed, or, at end of input, everything that
    /// arrived.
    pub fn finish(self) -> (r: SecureString)
        ensures
            r@ == self.bytes(),
    {
        self.buf
    }
}

/// A buffered, readable byte source positioned at the start of a line.
/// `fail` models an input whose underlying stream fails when read, so
/// that error paths can be exercised; a source made by [`ByteSource::new`]
/// never fails.
pub struct ByteSource {
    /// The bytes of the input.
    pub data: Vec<u8>,
    /// How many bytes have been consumed.
    pub pos: usize,
    /// Whether the next read fails with [`Error::Read`] instead of
    /// delivering bytes.
    pub fail: bool,
}

impl ByteSource {
    /// The position never leaves the input.
    pub open spec fn wf(&self) -> bool {
        self.pos <= self.data@.len()
    }

    /// A source that delivers `data` from the start.
    pub fn new(data: Vec<u8>) -> (r: Self)
        ensures
            r.wf(),
            r.data@ == data@,
            r.pos == 0,
            !r.fail,
    {
        ByteSource { data, pos: 0, fail: false }
    }

    /// A source whose reads fail: a stand-in for a stream with a broken
    /// underlying device.
    pub fn new_failing(data: Vec<u8>) -> (r: Self)
        ensures
            r.wf(),
            r.data@ == data@,
            r.pos == 0,
            r.fail,
    {
        ByteSource { data, pos: 0, fail: true }
    }

    /// Gives the input bytes back, so that a caller that filled the
    /// source with secret material can erase them.
    pub fn into_data(self) -> (r: Vec<u8>)
        ensures
            r@ == self.data@,
    {
        self.data
    }

    /// Reads one raw line: the bytes from the current position up to and
    /// including the first line feed, or to the end of the input. The
    /// bytes go straight into an erased-on-drop buffer.
    pub(crate) fn read_raw_line(&mut self) -> (r: Result<SecureString, Error>)
        requires
            old(self).wf(),
        ensures
            final(self).wf(),
            final(self).data@ == old(self).data@,
            final(self).fail == old(self).fail,
            old(self).fail ==> r == Err::<SecureString, Error>(Error::Read) && final(self).pos
                == old(self).pos,
            !old(self).fail ==> (r matches Ok(line) && line@ == line_at(
                old(self).data@,
                old(self).pos as int,
            ) && final(self).pos == line_break(old(self).data@, old(self).pos as int)),
    {
        if self.fail {
            return Err(Error::Read);
        }
        let ghost data = self.data@;
        let ghost start = self.pos as int;
        let mut line = SecureString::new();
        proof {
            assert(line@ =~= data.subrange(start, start));
        }
        while self.pos < self.data.len()
            invariant_except_break
                self.wf(),
                self.data@ == data,
                self.fail == old(self).fail,
                0 <= start <= self.pos as int <= data.len(),
                line@ == data.subrange(start, self.pos as int),
                line_break(data, start) == line_break(data, self.pos as int),
            ensures
                self.wf(),
                self.data@ == data,
                self.fail == old(self).fail,
                line@ == data.subrange(start, self.pos as int),
                self.pos as int == line_break(data, start),
            decreases data.len() - self.pos,
        {
            let b = self.data[self.pos];
            self.pos = self.pos + 1;
            line.push(b);
            proof {
                assert(line@ =~= data.subrange(start, self.pos as int));
            }
            if b == LF {
                break;
            }
        }
        Ok(line)
    }
}

/// Performs one line read on a caller-supplied source and normalizes the
/// result, without any terminal-mode changes. Success is owed whenever the
/// source itself does not fail; a failing source yields [`Error::Read`]
/// and consumes nothing.
pub fn read_password_from_source(src: &mut ByteSource) -> (r: Result<SecureString, Error>)
    requires
        old(src).wf(),
    ensures
        final(src).wf(),
        final(src).data@ == old(src).data@,
        final(src).fail == old(src).fail,
        old(src).fail ==> r == Err::<SecureString, Error>(Error::Read) && final(src).pos == old(src).pos,
        !old(src).fail ==> (r matches Ok(p) && p@ == normalize_spec(
            line_at(old(src).data@, old(src).pos as int),
        ) && final(src).pos == line_break(old(src).data@, old(src).pos as int)),
{
    match src.read_raw_line() {
        Ok(raw) => Ok(normalize(raw)),
        Err(e) => Err(e),
    }
}

} // verus!
