//! The inbound line buffer, filled byte by byte from the receive interrupt
//! and drained by the main loop.
use vstd::prelude::*;

verus! {

/// Bytes that one line may hold; further bytes are dropped.
pub const BUFFER_CAPACITY: usize = 64;

/// The byte that ends a line.
pub const LINE_TERMINATOR: u8 = 10;

/// What the buffer holds: the bytes of the line so far, and whether its
/// terminator has arrived.
pub struct LineView {
    pub bytes: Seq<u8>,
    pub complete: bool,
}

pub open spec fn empty_line() -> LineView {
    LineView { bytes: Seq::empty(), complete: false }
}

/// One received byte: a terminator completes the line; any other byte is
/// appended while the line is open and has room, and dropped otherwise.
pub open spec fn receive_spec(v: LineView, b: u8) -> LineView {
    if b == LINE_TERMINATOR {
        LineView { bytes: v.bytes, complete: true }
    } else if !v.complete && v.bytes.len() < BUFFER_CAPACITY {
        LineView { bytes: v.bytes.push(b), complete: false }
    } else {
        v
    }
}

/// The bytes received one after the other.
pub open spec fn receive_all(v: LineView, s: Seq<u8>) -> LineView
    decreases s.len(),
{
    if s.len() == 0 {
        v
    } else {
        receive_spec(receive_all(v, s.drop_last()), s.last())
    }
}

pub open spec fn has_no_terminator(s: Seq<u8>) -> bool {
    forall|i: int| 0 <= i < s.len() ==> #[trigger] s[i] != LINE_TERMINATOR
}

pub open spec fn min_len(n: nat) -> nat {
    if n < BUFFER_CAPACITY {
        n
    } else {
        BUFFER_CAPACITY as nat
    }
}

/// The line buffer shared between the receive interrupt and the main loop.
pub struct SerialBuffer {
    buffer: Vec<u8>,
    is_complete: bool,
}

impl SerialBuffer {
    pub closed spec fn view(&self) -> LineView {
        LineView { bytes: self.buffer@, complete: self.is_complete }
    }

    pub open spec fn wf(&self) -> bool {
        self.view().bytes.len() <= BUFFER_CAPACITY
    }

    /// An empty, open line.
    pub fn new() -> (r: SerialBuffer)
        ensures
            r.wf(),
            r.view() == empty_line(),
    {
        SerialBuffer { buffer: Vec::new(), is_complete: false }
    }

    /// Whether a complete line waits to be drained.
    pub fn is_complete(&self) -> (r: bool)
        ensures
            r == self.view().complete,
    {
        self.is_complete
    }

    /// The bytes of the line so far.
    pub fn as_bytes(&self) -> (r: &[u8])
        ensures
            r@ == self.view().bytes,
    {
        self.buffer.as_slice()
    }

    /// Takes one byte from the receiver.
    pub fn receive_byte(&mut self, byte: u8)
        requires
            old(self).wf(),
        ensures
            final(self).wf(),
            final(self).view() == receive_spec(old(self).view(), byte),
    {
        if byte == LINE_TERMINATOR {
            self.is_complete = true;
        } else if !self.is_complete && self.buffer.len() < BUFFER_CAPACITY {
            self.buffer.push(byte);
        }
    }

    /// Hands out a complete line and empties the buffer; `None` while the
    /// line is still open.
    pub fn drain(&mut self) -> (r: Option<Vec<u8>>)
        requires
            old(self).wf(),
        ensures
            final(self).wf(),
            old(self).view().complete ==> r is Some && r->0@ == old(self).view().bytes
                && final(self).view() == empty_line(),
            !old(self).view().complete ==> r is None && final(self).view() == old(self).view(),
    {
        if self.is_complete {
            let mut line: Vec<u8> = Vec::new();
            core::mem::swap(&mut line, &mut self.buffer);
            self.is_complete = false;
            assert(self.view().bytes =~= Seq::<u8>::empty());
            Some(line)
        } else {
            None
        }
    }
}

/// Receiving two runs of bytes one after the other is receiving their
/// concatenation.
pub proof fn lemma_receive_concat(v: LineView, a: Seq<u8>, b: Seq<u8>)
    ensures
        receive_all(v, a + b) == receive_all(receive_all(v, a), b),
    decreases b.len(),
{
    if b.len() == 0 {
        assert(a + b =~= a);
    } else {
        assert((a + b).drop_last() =~= a + b.drop_last());
        assert((a + b).last() == b.last());
        lemma_receive_concat(v, a, b.drop_last());
    }
}

/// Once a line is complete, nothing that arrives changes the buffer until
/// it is drained.
pub proof fn lemma_complete_line_is_kept(v: LineView, s: Seq<u8>)
    requires
        v.complete,
    ensures
        receive_all(v, s) == v,
    decreases s.len(),
{
    if s.len() > 0 {
        lemma_complete_line_is_kept(v, s.drop_last());
    }
}

/// Bytes without a terminator fill an empty buffer up to its capacity; the
/// rest is dropped, and the line stays open.
pub proof fn lemma_open_line_truncates(s: Seq<u8>)
    requires
        has_no_terminator(s),
    ensures
        receive_all(empty_line(), s) == (LineView { bytes: s.take(min_len(s.len()) as int), complete: false }),
    decreases s.len(),
{
    if s.len() > 0 {
        let t = s.drop_last();
        assert(has_no_terminator(t));
        lemma_open_line_truncates(t);
        assert(s[s.len() - 1] != LINE_TERMINATOR);
        if t.len() < BUFFER_CAPACITY {
            assert(t.take(t.len() as int).push(s.last()) =~= s.take(s.len() as int));
        } else {
            assert(t.take(BUFFER_CAPACITY as int) =~= s.take(BUFFER_CAPACITY as int));
        }
    } else {
        assert(s.take(0) =~= Seq::<u8>::empty());
    }
}

/// A line that fits, followed by its terminator, is drained exactly as sent.
pub proof fn lemma_line_received(line: Seq<u8>)
    requires
        has_no_terminator(line),
        line.len() <= BUFFER_CAPACITY,
    ensures
        receive_all(empty_line(), line.push(LINE_TERMINATOR)) == (LineView { bytes: line, complete: true }),
{
    lemma_open_line_truncates(line);
    assert(line.take(line.len() as int) =~= line);
    assert(line.push(LINE_TERMINATOR).drop_last() =~= line);
}

/// A longer line keeps only its first bytes, up to the capacity.
pub proof fn lemma_long_line_truncated(line: Seq<u8>)
    requires
        has_no_terminator(line),
    ensures
        receive_all(empty_line(), line.push(LINE_TERMINATOR)) == (LineView {
            bytes: line.take(min_len(line.len()) as int),
            complete: true,
        }),
{
    lemma_open_line_truncates(line);
    assert(line.push(LINE_TERMINATOR).drop_last() =~= line);
}

/// Of two lines sent before the buffer is drained, only the first is held:
/// every byte of the second, its terminator too, is dropped.
pub proof fn lemma_second_line_dropped(first: Seq<u8>, second: Seq<u8>)
    requires
        has_no_terminator(first),
    ensures
        receive_all(empty_line(), first.push(LINE_TERMINATOR) + second) == (LineView {
            bytes: first.take(min_len(first.len()) as int),
            complete: true,
        }),
{
    lemma_long_line_truncated(first);
    lemma_receive_concat(empty_line(), first.push(LINE_TERMINATOR), second);
    lemma_complete_line_is_kept(receive_all(empty_line(), first.push(LINE_TERMINATOR)), second);
}

} // verus!
