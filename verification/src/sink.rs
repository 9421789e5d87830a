//! The byte accumulator between the capture callback and the stream reader.

use vstd::prelude::*;

verus! {

/// What a sink holds once `bytes` has been appended to `contents`.
pub open spec fn appended(contents: Seq<u8>, bytes: Seq<u8>) -> Seq<u8> {
    contents + bytes
}

/// What a drain hands out of a sink that holds `contents`: all of it.
pub open spec fn drained(contents: Seq<u8>) -> Seq<u8> {
    contents
}

/// What a sink holds after a drain: nothing.
pub open spec fn after_drain(contents: Seq<u8>) -> Seq<u8> {
    Seq::empty()
}

/// An ordered, growable run of raw sample bytes.
///
/// The sink has no capacity limit: it grows until the reader drains it, so a
/// stalled reader lets it grow without bound. `len` lets a caller watch for
/// that.
pub struct SampleSink {
    buf: Vec<u8>,
}

impl View for SampleSink {
    type V = Seq<u8>;

    closed spec fn view(&self) -> Seq<u8> {
        self.buf@
    }
}

impl SampleSink {
    /// An empty sink.
    pub fn new() -> (sink: SampleSink)
        ensures
            sink@ == Seq::<u8>::empty(),
    {
        SampleSink { buf: Vec::new() }
    }

    /// Number of bytes buffered.
    pub fn len(&self) -> (n: usize)
        ensures
            n == self@.len(),
    {
        self.buf.len()
    }

    /// Whether nothing is buffered.
    pub fn is_empty(&self) -> (empty: bool)
        ensures
            empty <==> self@.len() == 0,
    {
        self.buf.len() == 0
    }

    /// Appends `bytes` to the end of the buffer.
    pub fn append(&mut self, bytes: &[u8])
        ensures
            final(self)@ == appended(old(self)@, bytes@),
    {
        self.buf.extend_from_slice(bytes);
        assert(self.buf@ =~= old(self).buf@ + bytes@);
    }

    /// Removes and returns everything buffered, leaving the sink empty.
    pub fn drain_all(&mut self) -> (out: Vec<u8>)
        ensures
            out@ == drained(old(self)@),
            final(self)@ == after_drain(old(self)@),
    {
        let mut out: Vec<u8> = Vec::new();
        std::mem::swap(&mut self.buf, &mut out);
        out
    }
}

} // verus!
