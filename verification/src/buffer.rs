//! The byte accumulator that sits between the capture workers and the
//! display loop.
//!
//! The buffer itself is sequential. Callers that share it between threads
//! put it behind one lock and hold that lock for exactly one `append` or one
//! `drain`, so every concurrent run is some sequence of these two calls.

use vstd::prelude::*;

verus! {

/// An ordered run of captured bytes that have not been displayed yet.
pub struct OutputBuffer {
    bytes: Vec<u8>,
}

impl View for OutputBuffer {
    type V = Seq<u8>;

    closed spec fn view(&self) -> Seq<u8> {
        self.bytes@
    }
}

impl OutputBuffer {
    /// An empty buffer.
    pub fn new() -> (buffer: Self)
        ensures
            buffer@ == Seq::<u8>::empty(),
    {
        OutputBuffer { bytes: Vec::new() }
    }

    /// Number of bytes waiting to be drained.
    pub fn len(&self) -> (n: usize)
        ensures
            n == self@.len(),
    {
        self.bytes.len()
    }

    /// Whether nothing has accumulated since the last drain.
    pub fn is_empty(&self) -> (empty: bool)
        ensures
            empty == (self@.len() == 0),
    {
        self.bytes.len() == 0
    }

    /// Adds `chunk` to the end of the buffer; what was there stays in place.
    pub fn append(&mut self, chunk: &[u8])
        ensures
            final(self)@ == old(self)@ + chunk@,
    {
        self.bytes.extend_from_slice(chunk);
    }

    /// Hands out everything that has accumulated, in order, and leaves the
    /// buffer empty.
    pub fn drain(&mut self) -> (out: Vec<u8>)
        ensures
            out@ == old(self)@,
            final(self)@ == Seq::<u8>::empty(),
    {
        let mut out: Vec<u8> = Vec::new();
        std::mem::swap(&mut self.bytes, &mut out);
        out
    }
}

} // verus!
