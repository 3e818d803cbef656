//! The lazy zero-content byte stream that upload bodies are made of.

use vstd::prelude::*;

use crate::counter::ByteCounter;

verus! {

/// Upper bound on the size of one emitted chunk, in bytes.
pub const UPLOAD_CHUNK_LEN: usize = 1024 * 16;

/// A lazy stream of zero-filled chunks summing to exactly the requested
/// size.
///
/// Chunks are at most `UPLOAD_CHUNK_LEN` bytes and are produced on demand,
/// so no allocation proportional to the total size ever happens. The byte
/// counter grows as each chunk is produced — it reflects bytes handed to
/// the transport, not bytes the far end acknowledged.
#[derive(Debug)]
pub struct ZeroStream {
    remaining: usize,
}

impl ZeroStream {
    /// How many bytes are still to be emitted.
    pub closed spec fn spec_remaining(&self) -> usize {
        self.remaining
    }

    /// A stream that will emit exactly `size` bytes.
    pub fn new(size: usize) -> (r: ZeroStream)
        ensures
            r.spec_remaining() == size,
    {
        ZeroStream { remaining: size }
    }

    /// The next chunk, or `None` once the requested size has been emitted.
    /// The counter grows by exactly the chunk's length.
    pub fn next_chunk(&mut self, counter: &mut ByteCounter) -> (r: Option<Vec<u8>>)
        requires
            old(counter).spec_total() + old(self).spec_remaining() <= u64::MAX,
        ensures
            (r is Some) == (old(self).spec_remaining() > 0),
            old(self).spec_remaining() == 0 ==> *final(self) == *old(self) && *final(counter) == *old(
                counter,
            ),
            r matches Some(chunk) ==> {
                &&& chunk@.len() == if old(self).spec_remaining() < UPLOAD_CHUNK_LEN {
                    old(self).spec_remaining() as int
                } else {
                    UPLOAD_CHUNK_LEN as int
                }
                &&& forall|k: int| 0 <= k < chunk@.len() ==> chunk@[k] == 0
                &&& final(self).spec_remaining() == old(self).spec_remaining() - chunk@.len()
                &&& final(counter).spec_total() == old(counter).spec_total() + chunk@.len()
            },
            final(counter).spec_total() >= old(counter).spec_total(),
    {
        if self.remaining == 0 {
            None
        } else {
            let chunk_size: usize = if self.remaining < UPLOAD_CHUNK_LEN {
                self.remaining
            } else {
                UPLOAD_CHUNK_LEN
            };
            let chunk: Vec<u8> = vec![0u8; chunk_size];
            self.remaining = self.remaining - chunk_size;
            counter.add(chunk_size as u64);
            Some(chunk)
        }
    }

    /// Emits the whole stream. The total emitted byte count equals the
    /// requested size exactly, and the counter grows by exactly that much.
    pub fn run_to_end(&mut self, counter: &mut ByteCounter) -> (total: usize)
        requires
            old(counter).spec_total() + old(self).spec_remaining() <= u64::MAX,
        ensures
            total == old(self).spec_remaining(),
            final(self).spec_remaining() == 0,
            final(counter).spec_total() == old(counter).spec_total() + total,
            final(counter).spec_total() >= old(counter).spec_total(),
    {
        let ghost r0 = self.remaining;
        let ghost c0 = counter.spec_total();
        let mut total: usize = 0;
        while self.remaining > 0
            invariant
                total + self.spec_remaining() == r0,
                counter.spec_total() == c0 + total,
                c0 + r0 <= u64::MAX,
            decreases self.spec_remaining(),
        {
            let chunk = self.next_chunk(counter);
            match chunk {
                Some(c) => {
                    total = total + c.len();
                },
                None => {},
            }
        }
        total
    }
}

} // verus!
