//! Hands out a downloaded blob in chunks of bounded size.

use vstd::prelude::*;

verus! {

/// The largest chunk handed out.
pub const BUFFER_SIZE: usize = 8192;

/// A blob's bytes and how far they have been handed out.
pub struct ReaderStream {
    data: Vec<u8>,
    pos: usize,
}

impl ReaderStream {
    /// The bytes handed out so far.
    pub closed spec fn spec_sent(&self) -> Seq<u8> {
        self.data@.subrange(0, self.pos as int)
    }

    /// The whole blob.
    pub closed spec fn spec_data(&self) -> Seq<u8> {
        self.data@
    }

    pub closed spec fn wf(&self) -> bool {
        self.pos <= self.data@.len()
    }

    /// A stream over `data` that has handed out nothing yet.
    pub fn new(data: Vec<u8>) -> (r: ReaderStream)
        ensures
            r.wf(),
            r.spec_data() == data@,
            r.spec_sent() == Seq::<u8>::empty(),
    {
        ReaderStream { data, pos: 0 }
    }

    /// The next chunk: at most `BUFFER_SIZE` bytes and never empty, following
    /// those already handed out; `None` once everything went out.
    pub fn next_chunk(&mut self) -> (r: Option<Vec<u8>>)
        requires
            old(self).wf(),
        ensures
            final(self).wf(),
            final(self).spec_data() == old(self).spec_data(),
            r is None <==> old(self).spec_sent() == old(self).spec_data(),
            r is None ==> final(self).spec_sent() == old(self).spec_sent(),
            r matches Some(c) ==> {
                &&& 0 < c@.len() <= BUFFER_SIZE
                &&& final(self).spec_sent() == old(self).spec_sent() + c@
            },
    {
        proof {
            assert(self.data@.subrange(0, self.data@.len() as int) == self.data@);
        }
        if self.pos >= self.data.len() {
            return None;
        }
        let end: usize = if self.data.len() - self.pos > BUFFER_SIZE {
            self.pos + BUFFER_SIZE
        } else {
            self.data.len()
        };
        let chunk = vstd::slice::slice_to_vec(vstd::slice::slice_subrange(self.data.as_slice(), self.pos, end));
        proof {
            assert(self.data@.subrange(0, end as int) == self.data@.subrange(0, self.pos as int)
                + chunk@);
        }
        self.pos = end;
        Some(chunk)
    }
}

} // verus!
