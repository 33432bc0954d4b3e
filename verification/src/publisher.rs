//! The publisher: the owner of a data segment that loans samples to user
//! code and sends them to the connected subscribers.
//!
//! A publisher is single-owner by design: it is not safe to share without
//! external serialization, and every sample it issues must be sent or
//! released through this same publisher, so that release happens on the pool
//! instance that issued the loan.

use vstd::prelude::*;

use crate::chunk::free_count;
use crate::chunk::loan_step;
use crate::chunk::return_step;
use crate::chunk::send_step;
use crate::config::Config;
use crate::errors::LoanError;
use crate::errors::SendError;
use crate::sample::Header;
use crate::sample::SampleMut;
use crate::sample::SampleMutUninit;
use crate::segment::DataSegment;

verus! {

/// A publisher port: owns a chunk pool, exposes the loan operations, and
/// stamps every sample it issues with its unique id.
#[derive(Debug)]
pub struct Publisher<T> {
    segment: DataSegment<T>,
    id: u128,
}

impl<T> Publisher<T> {
    /// The chunk pool this publisher owns.
    pub closed spec fn pool(self) -> DataSegment<T> {
        self.segment
    }

    /// The unique id of this publisher port.
    pub closed spec fn id_spec(self) -> u128 {
        self.id
    }

    /// Well-formedness: the owned pool is well-formed.
    pub open spec fn wf(self) -> bool {
        self.pool().wf()
    }

    /// Everything about the publisher except the chunk states is unchanged.
    pub open spec fn only_states_changed(pre: Self, post: Self) -> bool {
        &&& post.id_spec() == pre.id_spec()
        &&& post.pool().capacity() == pre.pool().capacity()
        &&& post.pool().max_len() == pre.pool().max_len()
        &&& DataSegment::<T>::queues_unchanged(pre.pool(), post.pool())
        &&& DataSegment::<T>::payloads_unchanged(pre.pool(), post.pool())
    }

    /// Builds a publisher whose pool owns `chunk_capacity` chunks, each able
    /// to hold a slice of up to `max_slice_len` payload elements.  The
    /// caller supplies the publisher's unique id, drawn from the process-wide
    /// unique-id source.
    pub fn new(chunk_capacity: usize, max_slice_len: usize, publisher_id: u128) -> (p: Self)
        ensures
            p.wf(),
            p.id_spec() == publisher_id,
            p.pool().capacity() == chunk_capacity as int,
            forall|i: int| 0 <= i < p.pool().capacity() ==> p.pool().states()[i] is Free,
            free_count(p.pool().states()) == chunk_capacity as int,
            p.pool().max_len() == max_slice_len as int,
            p.pool().subscribers() == 0,
    {
        Publisher { segment: DataSegment::new(chunk_capacity, max_slice_len), id: publisher_id }
    }

    /// Builds a publisher that takes its maximum slice length from the
    /// configuration's default.
    pub fn new_with_config(chunk_capacity: usize, config: &Config, publisher_id: u128) -> (p: Self)
        ensures
            p.wf(),
            p.id_spec() == publisher_id,
            p.pool().capacity() == chunk_capacity as int,
            forall|i: int| 0 <= i < p.pool().capacity() ==> p.pool().states()[i] is Free,
            free_count(p.pool().states()) == chunk_capacity as int,
            p.pool().max_len() == config@.max_slice_len_default,
            p.pool().subscribers() == 0,
    {
        Publisher {
            segment: DataSegment::new(chunk_capacity, config.max_slice_len_default()),
            id: publisher_id,
        }
    }

    /// Read access to the owned pool: chunk states, free count, queues and
    /// stored payloads.
    pub fn segment(&self) -> (r: &DataSegment<T>)
        ensures
            *r == self.pool(),
    {
        &self.segment
    }

    /// The unique id of this publisher port.
    pub fn id(&self) -> (r: u128)
        ensures
            r == self.id_spec(),
    {
        self.id
    }

    /// Connects one more subscriber delivery queue to this publisher and
    /// returns its index.
    pub fn connect_subscriber(&mut self) -> (idx: usize)
        requires
            old(self).wf(),
        ensures
            final(self).wf(),
            final(self).id_spec() == old(self).id_spec(),
            idx as int == old(self).pool().subscribers(),
            final(self).pool().subscribers() == old(self).pool().subscribers() + 1,
            forall|q: int|
                0 <= q < old(self).pool().subscribers() ==> final(self).pool().queue(q) == old(
                    self,
                ).pool().queue(q),
            final(self).pool().queue(idx as int) == Seq::<usize>::empty(),
            final(self).pool().states() == old(self).pool().states(),
            final(self).pool().max_len() == old(self).pool().max_len(),
            DataSegment::<T>::payloads_unchanged(old(self).pool(), final(self).pool()),
    {
        self.segment.connect_subscriber()
    }

    /// Loans one chunk for a single, not yet initialized payload element.
    /// The sample's header carries this publisher's id.  Fails with
    /// `PoolExhausted` when no chunk is free, and with `InvalidLength` when
    /// the pool cannot hold even one element per chunk.
    pub fn loan_uninit(&mut self) -> (r: Result<SampleMutUninit<T>, LoanError>)
        requires
            old(self).wf(),
        ensures
            final(self).wf(),
            Self::only_states_changed(*old(self), *final(self)),
            (r is Err && r->Err_0 == LoanError::InvalidLength) <==> old(self).pool().max_len() < 1,
            (r is Err && r->Err_0 == LoanError::PoolExhausted) <==> (old(self).pool().max_len()
                >= 1 && free_count(old(self).pool().states()) == 0),
            r is Err ==> final(self).pool().states() == old(self).pool().states(),
            r is Ok ==> loan_step(
                old(self).pool().states(),
                final(self).pool().states(),
                r->Ok_0.chunk_offset(),
            ),
            r is Ok ==> r->Ok_0@.len() == 1 && r->Ok_0@[0] is None,
            r is Ok ==> r->Ok_0.header_spec().spec_publisher_id() == old(self).id_spec(),
    {
        let id = self.id;
        match self.segment.loan() {
            Ok(offset) => Ok(SampleMutUninit::new(offset, Header::new(id), 1)),
            Err(e) => Err(e),
        }
    }

    /// Loans one chunk for a not yet initialized slice of `len` payload
    /// elements.  Fails with `InvalidLength` when `len` exceeds the pool's
    /// maximum slice length, and with `PoolExhausted` when no chunk is free.
    pub fn loan_slice_uninit(&mut self, len: usize) -> (r: Result<SampleMutUninit<T>, LoanError>)
        requires
            old(self).wf(),
        ensures
            final(self).wf(),
            Self::only_states_changed(*old(self), *final(self)),
            (r is Err && r->Err_0 == LoanError::InvalidLength) <==> len as int > old(
                self,
            ).pool().max_len(),
            (r is Err && r->Err_0 == LoanError::PoolExhausted) <==> (len as int <= old(
                self,
            ).pool().max_len() && free_count(old(self).pool().states()) == 0),
            r is Err ==> final(self).pool().states() == old(self).pool().states(),
            r is Ok ==> loan_step(
                old(self).pool().states(),
                final(self).pool().states(),
                r->Ok_0.chunk_offset(),
            ),
            r is Ok ==> r->Ok_0@.len() == len as int && (forall|i: int|
                0 <= i < len as int ==> r->Ok_0@[i] is None),
            r is Ok ==> r->Ok_0.header_spec().spec_publisher_id() == old(self).id_spec(),
    {
        let id = self.id;
        match self.segment.loan_slice(len) {
            Ok(offset) => Ok(SampleMutUninit::new(offset, Header::new(id), len)),
            Err(e) => Err(e),
        }
    }

    /// Loans one chunk and initializes its single payload element with the
    /// payload type's default value.
    pub fn loan(&mut self) -> (r: Result<SampleMut<T>, LoanError>) where
        T: Default,

        requires
            old(self).wf(),
        ensures
            final(self).wf(),
            Self::only_states_changed(*old(self), *final(self)),
            (r is Err && r->Err_0 == LoanError::InvalidLength) <==> old(self).pool().max_len() < 1,
            (r is Err && r->Err_0 == LoanError::PoolExhausted) <==> (old(self).pool().max_len()
                >= 1 && free_count(old(self).pool().states()) == 0),
            r is Err ==> final(self).pool().states() == old(self).pool().states(),
            r is Ok ==> loan_step(
                old(self).pool().states(),
                final(self).pool().states(),
                r->Ok_0.chunk_offset(),
            ),
            r is Ok ==> r->Ok_0@.len() == 1 && call_ensures(T::default, (), r->Ok_0@[0]),
            r is Ok ==> r->Ok_0.header_spec().spec_publisher_id() == old(self).id_spec(),
    {
        match self.loan_uninit() {
            Ok(sample) => Ok(sample.write_payload(T::default())),
            Err(e) => Err(e),
        }
    }

    /// Loans one chunk and initializes a slice of `len` payload elements,
    /// each with the payload type's default value.
    pub fn loan_slice(&mut self, len: usize) -> (r: Result<SampleMut<T>, LoanError>) where
        T: Default,

        requires
            old(self).wf(),
        ensures
            final(self).wf(),
            Self::only_states_changed(*old(self), *final(self)),
            (r is Err && r->Err_0 == LoanError::InvalidLength) <==> len as int > old(
                self,
            ).pool().max_len(),
            (r is Err && r->Err_0 == LoanError::PoolExhausted) <==> (len as int <= old(
                self,
            ).pool().max_len() && free_count(old(self).pool().states()) == 0),
            r is Err ==> final(self).pool().states() == old(self).pool().states(),
            r is Ok ==> loan_step(
                old(self).pool().states(),
                final(self).pool().states(),
                r->Ok_0.chunk_offset(),
            ),
            r is Ok ==> r->Ok_0@.len() == len as int && (forall|i: int|
                0 <= i < len as int ==> call_ensures(T::default, (), #[trigger] r->Ok_0@[i])),
            r is Ok ==> r->Ok_0.header_spec().spec_publisher_id() == old(self).id_spec(),
    {
        match self.loan_slice_uninit(len) {
            Ok(sample) => {
                let filler = |_i: usize| -> (d: T)
                    ensures
                        call_ensures(T::default, (), d),
                    { Default::default() };
                Ok(sample.write_from_fn(filler))
            },
            Err(e) => Err(e),
        }
    }

    /// Releases a sample that was never initialized, returning its chunk to
    /// the pool.  This is the drop path of an unsent, unwritten sample:
    /// called exactly once per loaned chunk, and never for a sent one.
    pub fn return_loaned(&mut self, sample: SampleMutUninit<T>)
        requires
            old(self).wf(),
            sample.chunk_offset() < old(self).pool().capacity(),
            old(self).pool().states()[sample.chunk_offset()] is Loaned,
        ensures
            final(self).wf(),
            Self::only_states_changed(*old(self), *final(self)),
            return_step(
                old(self).pool().states(),
                final(self).pool().states(),
                sample.chunk_offset(),
            ),
    {
        let offset = sample.offset_to_chunk();
        self.segment.return_loaned_sample(offset);
    }

    /// Releases an initialized but unsent sample, returning its chunk to the
    /// pool.  This is the drop path of a sample that was written but never
    /// sent.
    pub fn return_loaned_init(&mut self, sample: SampleMut<T>)
        requires
            old(self).wf(),
            sample.chunk_offset() < old(self).pool().capacity(),
            old(self).pool().states()[sample.chunk_offset()] is Loaned,
        ensures
            final(self).wf(),
            Self::only_states_changed(*old(self), *final(self)),
            return_step(
                old(self).pool().states(),
                final(self).pool().states(),
                sample.chunk_offset(),
            ),
    {
        let offset = sample.offset_to_chunk();
        self.segment.return_loaned_sample(offset);
    }

    /// The send path used by [`SampleMut::send`]: hands the chunk and its
    /// payload to the pool and delivers the offset to every connected
    /// subscriber.
    pub(crate) fn send_chunk(&mut self, offset: usize, payload: Vec<T>) -> (r: Result<
        usize,
        SendError,
    >)
        requires
            old(self).wf(),
            (offset as int) < old(self).pool().capacity(),
            old(self).pool().states()[offset as int] is Loaned,
            payload@.len() <= old(self).pool().max_len(),
        ensures
            final(self).wf(),
            final(self).id_spec() == old(self).id_spec(),
            r == Ok::<usize, SendError>((old(self).pool().subscribers() as usize)),
            send_step(old(self).pool().states(), final(self).pool().states(), offset as int),
            final(self).pool().payload_at(offset as int) == payload@,
            forall|i: int|
                0 <= i < old(self).pool().capacity() && i != offset as int
                    ==> final(self).pool().payload_at(i) == old(self).pool().payload_at(i),
            final(self).pool().subscribers() == old(self).pool().subscribers(),
            forall|q: int|
                0 <= q < old(self).pool().subscribers() ==> final(self).pool().queue(q) == old(
                    self,
                ).pool().queue(q).push(offset),
            final(self).pool().max_len() == old(self).pool().max_len(),
    {
        self.segment.send_sample(offset, payload)
    }

    /// The largest slice length this publisher can loan.
    pub fn max_slice_len(&self) -> (r: usize)
        ensures
            r as int == self.pool().max_len(),
    {
        self.segment.max_slice_len()
    }
}

} // verus!
