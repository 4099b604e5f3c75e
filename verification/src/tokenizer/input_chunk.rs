//! The input buffer: a fixed-capacity byte store that accumulates the
//! document stream across chunk appends and serves random-access reads
//! to the state machine.
//!
//! The capacity ceiling is a deliberate backpressure mechanism: a write
//! that would exceed it fails as a whole (no partial write, no growth),
//! so adversarial input cannot cause unbounded buffering.

use crate::tokenizer::TokenizerBailoutReason;
use vstd::prelude::*;

verus! {

pub struct InputChunk {
    bytes: Vec<u8>,
    capacity: usize,
}

impl View for InputChunk {
    type V = Seq<u8>;

    closed spec fn view(&self) -> Seq<u8> {
        self.bytes@
    }
}

impl InputChunk {
    /// The configured capacity ceiling.
    pub closed spec fn capacity(&self) -> nat {
        self.capacity as nat
    }

    /// The buffer never holds more bytes than its capacity.
    pub closed spec fn wf(&self) -> bool {
        self.bytes@.len() <= self.capacity
    }

    pub fn new(capacity: usize) -> (r: Self)
        ensures
            r@ == Seq::<u8>::empty(),
            r.capacity() == capacity,
            r.wf(),
    {
        InputChunk { bytes: Vec::new(), capacity }
    }

    /// Appends a chunk, or fails with `BufferCapacityExceeded` when the
    /// write would exceed the capacity; a failed write leaves the
    /// already-buffered bytes untouched.
    pub fn write(&mut self, chunk: &[u8]) -> (r: Result<(), TokenizerBailoutReason>)
        requires
            old(self).wf(),
        ensures
            final(self).wf(),
            final(self).capacity() == old(self).capacity(),
            old(self)@.len() + chunk@.len() <= old(self).capacity() ==> {
                &&& r is Ok
                &&& final(self)@ == old(self)@ + chunk@
            },
            old(self)@.len() + chunk@.len() > old(self).capacity() ==> {
                &&& r == Err::<(), TokenizerBailoutReason>(
                    TokenizerBailoutReason::BufferCapacityExceeded,
                )
                &&& final(self)@ == old(self)@
            },
    {
        if chunk.len() > self.capacity - self.bytes.len() {
            return Err(TokenizerBailoutReason::BufferCapacityExceeded);
        }
        let mut i: usize = 0;
        while i < chunk.len()
            invariant
                i <= chunk@.len(),
                self.bytes@ == old(self).bytes@ + chunk@.subrange(0, i as int),
                self.capacity == old(self).capacity,
                self.bytes@.len() + chunk@.len() - i <= self.capacity,
            decreases chunk@.len() - i,
        {
            self.bytes.push(chunk[i]);
            i = i + 1;
            proof {
                assert(chunk@.subrange(0, i as int)
                    == chunk@.subrange(0, i - 1).push(chunk@[i - 1]));
            }
        }
        proof {
            assert(chunk@.subrange(0, chunk@.len() as int) == chunk@);
        }
        Ok(())
    }

    pub fn len(&self) -> (r: usize)
        ensures
            r == self@.len(),
    {
        self.bytes.len()
    }

    /// The byte at an absolute offset, or `None` past the end of the
    /// currently available data.
    pub fn peek_at(&self, pos: usize) -> (r: Option<u8>)
        ensures
            pos < self@.len() ==> r == Some(self@[pos as int]),
            pos >= self@.len() ==> r is None,
    {
        if pos < self.bytes.len() {
            Some(self.bytes[pos])
        } else {
            None
        }
    }
}

} // verus!
