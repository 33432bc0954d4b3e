//! The data segment: a pool of fixed-size shared-memory chunks.
//!
//! The segment owns the chunks, hands them out as loans, takes returned
//! chunks back, and on a send publishes the chunk's offset to every connected
//! subscriber delivery queue.  A chunk is in exactly one of the three
//! [`ChunkState`]s at any time and only the segment transitions it.
//!
//! Every chunk of a segment can hold up to `max_slice_len` payload elements,
//! so any free chunk can serve any loan of admissible length.

use vstd::prelude::*;

use crate::chunk::ChunkState;
use crate::chunk::free_count;
use crate::chunk::lemma_count_take_all;
use crate::chunk::lemma_count_take_step;
use crate::chunk::lemma_count_zero_iff_none;
use crate::chunk::loan_step;
use crate::chunk::return_step;
use crate::chunk::send_step;
use crate::errors::LoanError;
use crate::errors::SendError;

verus! {

/// A pool of fixed-size chunks backed by one shared-memory segment, together
/// with the delivery queues of the currently connected subscribers.
///
/// The payload element type `T` is the fixed-layout element the segment's
/// chunks are typed with; a chunk holds up to `max_slice_len` such elements.
#[derive(Debug)]
pub struct DataSegment<T> {
    chunks: Vec<ChunkState>,
    payloads: Vec<Vec<T>>,
    max_slice_len: usize,
    queues: Vec<Vec<usize>>,
}

impl<T> DataSegment<T> {
    /// The state of every chunk of the segment.
    pub closed spec fn states(self) -> Seq<ChunkState> {
        self.chunks@
    }

    /// The number of chunks the segment owns.
    pub open spec fn capacity(self) -> int {
        self.states().len() as int
    }

    /// The largest number of payload elements one chunk can hold.
    pub closed spec fn max_len(self) -> int {
        self.max_slice_len as int
    }

    /// The number of currently connected subscriber delivery queues.
    pub closed spec fn subscribers(self) -> int {
        self.queues@.len() as int
    }

    /// The offsets delivered so far to subscriber `q`, oldest first.
    pub closed spec fn queue(self, q: int) -> Seq<usize> {
        self.queues@[q]@
    }

    /// The payload stored in the chunk at `off`; meaningful once the chunk
    /// was sent.
    pub closed spec fn payload_at(self, off: int) -> Seq<T> {
        self.payloads@[off]@
    }

    /// A delivered offset is admissible when it names an in-flight chunk of
    /// this segment.
    pub closed spec fn delivered_offset_ok(self, off: usize) -> bool {
        off < self.chunks@.len() && self.chunks@[off as int] is InFlight
    }

    /// Well-formedness: there is one payload slot per chunk, and every
    /// delivered offset names an in-flight chunk of this segment.
    pub closed spec fn wf(self) -> bool {
        &&& self.payloads@.len() == self.chunks@.len()
        &&& forall|q: int, k: int|
            0 <= q < self.queues@.len() && 0 <= k < self.queues@[q]@.len()
                ==> self.delivered_offset_ok(#[trigger] self.queues@[q]@[k])
    }

    /// The subscriber queues of `post` are those of `pre`, untouched.
    pub open spec fn queues_unchanged(pre: Self, post: Self) -> bool {
        &&& post.subscribers() == pre.subscribers()
        &&& forall|q: int| 0 <= q < pre.subscribers() ==> post.queue(q) == pre.queue(q)
    }

    /// The stored payloads of `post` are those of `pre`, untouched.
    pub open spec fn payloads_unchanged(pre: Self, post: Self) -> bool {
        forall|i: int| 0 <= i < pre.capacity() ==> post.payload_at(i) == pre.payload_at(i)
    }

    /// Creates a segment of `chunk_capacity` chunks, each able to hold up to
    /// `max_slice_len` payload elements.  All chunks start free; no
    /// subscriber is connected.
    pub fn new(chunk_capacity: usize, max_slice_len: usize) -> (s: Self)
        ensures
            s.wf(),
            s.capacity() == chunk_capacity as int,
            forall|i: int| 0 <= i < s.capacity() ==> s.states()[i] is Free,
            free_count(s.states()) == chunk_capacity as int,
            s.max_len() == max_slice_len as int,
            s.subscribers() == 0,
    {
        let mut chunks: Vec<ChunkState> = Vec::new();
        let mut payloads: Vec<Vec<T>> = Vec::new();
        let mut i: usize = 0;
        while i < chunk_capacity
            invariant
                i <= chunk_capacity,
                chunks@.len() == i as int,
                payloads@.len() == i as int,
                forall|j: int| 0 <= j < i as int ==> chunks@[j] is Free,
                free_count(chunks@) == i as int,
            decreases chunk_capacity - i,
        {
            proof {
                assert(chunks@.push(ChunkState::Free).drop_last() =~= chunks@);
            }
            chunks.push(ChunkState::Free);
            payloads.push(Vec::new());
            i += 1;
        }
        DataSegment { chunks, payloads, max_slice_len, queues: Vec::new() }
    }

    /// Connects one more subscriber and returns its index.  Its delivery
    /// queue starts empty; everything else is untouched.
    pub fn connect_subscriber(&mut self) -> (idx: usize)
        requires
            old(self).wf(),
        ensures
            final(self).wf(),
            idx as int == old(self).subscribers(),
            final(self).subscribers() == old(self).subscribers() + 1,
            forall|q: int|
                0 <= q < old(self).subscribers() ==> final(self).queue(q) == old(self).queue(q),
            final(self).queue(idx as int) == Seq::<usize>::empty(),
            final(self).states() == old(self).states(),
            final(self).max_len() == old(self).max_len(),
            Self::payloads_unchanged(*old(self), *final(self)),
    {
        let idx = self.queues.len();
        self.queues.push(Vec::new());
        idx
    }

    /// Reserves one free chunk able to hold a slice of `len` elements and
    /// marks it loaned.  Fails with `InvalidLength` when `len` exceeds the
    /// configured maximum slice length, and with `PoolExhausted` when no
    /// chunk is free; on failure the pool is left exactly as it was.  Never
    /// blocks.
    pub fn loan_slice(&mut self, len: usize) -> (r: Result<usize, LoanError>)
        requires
            old(self).wf(),
        ensures
            final(self).wf(),
            final(self).capacity() == old(self).capacity(),
            final(self).max_len() == old(self).max_len(),
            Self::queues_unchanged(*old(self), *final(self)),
            Self::payloads_unchanged(*old(self), *final(self)),
            (r == Err::<usize, LoanError>(LoanError::InvalidLength)) <==> len as int > old(
                self,
            ).max_len(),
            (r == Err::<usize, LoanError>(LoanError::PoolExhausted)) <==> (len as int <= old(
                self,
            ).max_len() && free_count(old(self).states()) == 0),
            r is Err ==> final(self).states() == old(self).states(),
            r is Ok ==> loan_step(old(self).states(), final(self).states(), r->Ok_0 as int),
    {
        if len > self.max_slice_len {
            return Err(LoanError::InvalidLength);
        }
        let n = self.chunks.len();
        let mut i: usize = 0;
        while i < n
            invariant
                *self == *old(self),
                old(self).wf(),
                len as int <= old(self).max_len(),
                i <= n,
                n == old(self).states().len(),
                forall|j: int| 0 <= j < i as int ==> !(old(self).states()[j] is Free),
            decreases n - i,
        {
            if self.chunks[i].is_free() {
                proof {
                    lemma_count_zero_iff_none(self.chunks@, ChunkState::Free);
                }
                self.chunks.set(i, ChunkState::Loaned);
                proof {
                    assert forall|q: int, k: int|
                        0 <= q < self.queues@.len() && 0 <= k
                            < self.queues@[q]@.len() implies self.delivered_offset_ok(
                        #[trigger] self.queues@[q]@[k],
                    ) by {
                        assert(old(self).delivered_offset_ok(old(self).queues@[q]@[k]));
                    }
                }
                return Ok(i);
            }
            i += 1;
        }
        proof {
            lemma_count_zero_iff_none(self.chunks@, ChunkState::Free);
        }
        Err(LoanError::PoolExhausted)
    }

    /// Reserves one free chunk for a single payload element.  Equivalent to
    /// loaning a slice of length one.
    pub fn loan(&mut self) -> (r: Result<usize, LoanError>)
        requires
            old(self).wf(),
        ensures
            final(self).wf(),
            final(self).capacity() == old(self).capacity(),
            final(self).max_len() == old(self).max_len(),
            Self::queues_unchanged(*old(self), *final(self)),
            Self::payloads_unchanged(*old(self), *final(self)),
            (r == Err::<usize, LoanError>(LoanError::InvalidLength)) <==> old(self).max_len() < 1,
            (r == Err::<usize, LoanError>(LoanError::PoolExhausted)) <==> (old(self).max_len() >= 1
                && free_count(old(self).states()) == 0),
            r is Err ==> final(self).states() == old(self).states(),
            r is Ok ==> loan_step(old(self).states(), final(self).states(), r->Ok_0 as int),
    {
        self.loan_slice(1)
    }

    /// Marks the loaned chunk at `offset` free again.  Called exactly once
    /// per loaned chunk, by the release path of the sample that owns it.
    pub fn return_loaned_sample(&mut self, offset: usize)
        requires
            old(self).wf(),
            (offset as int) < old(self).capacity(),
            old(self).states()[offset as int] is Loaned,
        ensures
            final(self).wf(),
            return_step(old(self).states(), final(self).states(), offset as int),
            final(self).max_len() == old(self).max_len(),
            Self::queues_unchanged(*old(self), *final(self)),
            Self::payloads_unchanged(*old(self), *final(self)),
    {
        self.chunks.set(offset, ChunkState::Free);
        proof {
            assert forall|q: int, k: int|
                0 <= q < self.queues@.len() && 0 <= k
                    < self.queues@[q]@.len() implies self.delivered_offset_ok(
                #[trigger] self.queues@[q]@[k],
            ) by {
                assert(old(self).delivered_offset_ok(old(self).queues@[q]@[k]));
            }
        }
    }

    /// Transitions the loaned chunk at `offset` to in flight, stores its
    /// payload, and appends the offset to every connected subscriber's
    /// delivery queue, in subscriber order.  Returns the number of
    /// subscribers the offset was delivered to; zero connected subscribers
    /// is a delivered count of zero, not an error.
    pub fn send_sample(&mut self, offset: usize, payload: Vec<T>) -> (r: Result<usize, SendError>)
        requires
            old(self).wf(),
            (offset as int) < old(self).capacity(),
            old(self).states()[offset as int] is Loaned,
            payload@.len() <= old(self).max_len(),
        ensures
            final(self).wf(),
            r == Ok::<usize, SendError>((old(self).subscribers() as usize)),
            send_step(old(self).states(), final(self).states(), offset as int),
            final(self).payload_at(offset as int) == payload@,
            forall|i: int|
                0 <= i < old(self).capacity() && i != offset as int ==> final(self).payload_at(i)
                    == old(self).payload_at(i),
            final(self).subscribers() == old(self).subscribers(),
            forall|q: int|
                0 <= q < old(self).subscribers() ==> final(self).queue(q) == old(self).queue(
                    q,
                ).push(offset),
            final(self).max_len() == old(self).max_len(),
    {
        self.chunks.set(offset, ChunkState::InFlight);
        self.payloads.set(offset, payload);
        let count = self.queues.len();
        let mut q: usize = 0;
        while q < count
            invariant
                q <= count,
                count == self.queues@.len(),
                self.chunks@ == old(self).chunks@.update(
                    offset as int,
                    ChunkState::InFlight,
                ),
                (offset as int) < self.chunks@.len(),
                self.payloads@ == old(self).payloads@.update(offset as int, payload),
                self.max_slice_len == old(self).max_slice_len,
                forall|j: int|
                    0 <= j < q as int ==> self.queues@[j]@ == old(self).queues@[j]@.push(offset),
                forall|j: int| q as int <= j < count ==> self.queues@[j]@ == old(self).queues@[j]@,
            decreases count - q,
        {
            self.queues[q].push(offset);
            q += 1;
        }
        proof {
            assert forall|qq: int, k: int|
                0 <= qq < self.queues@.len() && 0 <= k
                    < self.queues@[qq]@.len() implies self.delivered_offset_ok(
                #[trigger] self.queues@[qq]@[k],
            ) by {
                if k < old(self).queues@[qq]@.len() {
                    assert(self.queues@[qq]@[k] == old(self).queues@[qq]@[k]);
                    assert(old(self).delivered_offset_ok(old(self).queues@[qq]@[k]));
                } else {
                    assert(self.queues@[qq]@[k] == offset);
                }
            }
        }
        Ok(count)
    }

    /// The number of currently connected subscribers.
    pub fn subscriber_count(&self) -> (r: usize)
        ensures
            r as int == self.subscribers(),
    {
        self.queues.len()
    }

    /// The delivery queue of subscriber `q`: every offset sent to it so far,
    /// oldest first.
    pub fn delivery_queue(&self, q: usize) -> (r: &Vec<usize>)
        requires
            (q as int) < self.subscribers(),
        ensures
            r@ == self.queue(q as int),
    {
        &self.queues[q]
    }

    /// The payload stored in the in-flight chunk at `offset`, as a receiver
    /// reads it after taking the offset from its delivery queue.
    pub fn in_flight_payload(&self, offset: usize) -> (r: &Vec<T>)
        requires
            self.wf(),
            (offset as int) < self.capacity(),
            self.states()[offset as int] is InFlight,
        ensures
            r@ == self.payload_at(offset as int),
    {
        &self.payloads[offset]
    }

    /// The number of chunks that are currently free.
    pub fn free_chunk_count(&self) -> (r: usize)
        ensures
            r as int == free_count(self.states()),
    {
        let n = self.chunks.len();
        let mut cnt: usize = 0;
        let mut i: usize = 0;
        while i < n
            invariant
                i <= n,
                n == self.chunks@.len(),
                cnt as int <= i as int,
                cnt as int == free_count(self.chunks@.take(i as int)),
            decreases n - i,
        {
            proof {
                lemma_count_take_step(self.chunks@, ChunkState::Free, i as int);
            }
            if self.chunks[i].is_free() {
                cnt += 1;
            }
            i += 1;
        }
        proof {
            lemma_count_take_all(self.chunks@, ChunkState::Free);
        }
        cnt
    }

    /// The state of the chunk at `offset`.
    pub fn chunk_state(&self, offset: usize) -> (r: ChunkState)
        requires
            (offset as int) < self.capacity(),
        ensures
            r == self.states()[offset as int],
    {
        self.chunks[offset]
    }

    /// The number of chunks the segment owns.
    pub fn chunk_capacity(&self) -> (r: usize)
        ensures
            r as int == self.capacity(),
    {
        self.chunks.len()
    }

    /// The largest number of payload elements one chunk can hold.
    pub fn max_slice_len(&self) -> (r: usize)
        ensures
            r as int == self.max_len(),
    {
        self.max_slice_len
    }
}

} // verus!
