//! Gathers the chunks of a request body into one buffer, within the body
//! limit.

use vstd::prelude::*;
use crate::http::BODY_LIMIT;

verus! {

/// The bytes of a body received so far.
pub struct Collector {
    buffer: Vec<u8>,
}

impl Collector {
    pub closed spec fn spec_bytes(&self) -> Seq<u8> {
        self.buffer@
    }

    /// An empty collector.
    pub fn new() -> (r: Collector)
        ensures
            r.spec_bytes() == Seq::<u8>::empty(),
    {
        Collector { buffer: Vec::new() }
    }

    /// Appends the next chunk, unless the body would then exceed the limit;
    /// a refused chunk leaves the collector as it was.
    pub fn push(&mut self, chunk: &[u8]) -> (accepted: bool)
        requires
            old(self).spec_bytes().len() <= BODY_LIMIT,
        ensures
            accepted == (old(self).spec_bytes().len() + chunk@.len() <= BODY_LIMIT),
            accepted ==> final(self).spec_bytes() == old(self).spec_bytes() + chunk@,
            !accepted ==> final(self).spec_bytes() == old(self).spec_bytes(),
            final(self).spec_bytes().len() <= BODY_LIMIT,
    {
        if chunk.len() <= BODY_LIMIT - self.buffer.len() {
            self.buffer.extend_from_slice(chunk);
            true
        } else {
            false
        }
    }

    /// The number of bytes received so far.
    pub fn len(&self) -> (r: usize)
        ensures
            r == self.spec_bytes().len(),
    {
        self.buffer.len()
    }

    /// The whole body and its length.
    pub fn finish(self) -> (r: (Vec<u8>, usize))
        ensures
            r.0@ == self.spec_bytes(),
            r.1 == self.spec_bytes().len(),
    {
        let n = self.buffer.len();
        (self.buffer, n)
    }
}

} // verus!
