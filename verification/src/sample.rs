//! The loaned sample: a single-owner handle to one loaned chunk.
//!
//! A sample is acquired from a [`Publisher`](crate::publisher::Publisher) via
//! `loan()`, `loan_uninit()`, `loan_slice()` or `loan_slice_uninit()`.  It
//! stores the payload that will be sent to the connected subscribers.
//!
//! The lifecycle of a loaned chunk is enforced by two distinct handle types:
//!
//! * [`SampleMutUninit`]: the payload region is not initialized yet.  Writing
//!   it — with [`SampleMutUninit::write_payload`],
//!   [`SampleMutUninit::write_from_fn`] or element by element followed by
//!   [`SampleMutUninit::assume_init`] — consumes the handle and yields an
//!   initialized [`SampleMut`].
//! * [`SampleMut`]: the payload is initialized; only this handle can be sent.
//!
//! Both handles model exclusive ownership of one chunk: they are consumed by
//! exactly one of sending (the chunk goes in flight) or releasing unsent
//! through the owning publisher (the chunk returns to the pool), so each
//! loaned chunk is released exactly once on every exit path.

use vstd::prelude::*;

use crate::chunk::send_step;
use crate::errors::SendError;
use crate::publisher::Publisher;

verus! {

/// The header stored alongside every sample's payload: which publisher the
/// sample originates from.
#[derive(Clone, Copy, PartialEq, Eq, Structural, Debug)]
pub struct Header {
    publisher_id: u128,
}

impl Header {
    /// The unique id of the publisher port that loaned the sample.
    pub closed spec fn spec_publisher_id(self) -> u128 {
        self.publisher_id
    }

    pub(crate) fn new(publisher_id: u128) -> (h: Header)
        ensures
            h.spec_publisher_id() == publisher_id,
    {
        Header { publisher_id }
    }

    /// The unique id of the publisher port that loaned the sample.
    pub fn publisher_id(&self) -> (r: u128)
        ensures
            r == self.spec_publisher_id(),
    {
        self.publisher_id
    }
}

/// A sample whose payload region is not initialized yet.  Element `i` of the
/// view is `None` until something was written at position `i`.
#[derive(Debug)]
pub struct SampleMutUninit<T> {
    offset: usize,
    header: Header,
    payload: Vec<Option<T>>,
}

impl<T> View for SampleMutUninit<T> {
    type V = Seq<Option<T>>;

    closed spec fn view(&self) -> Seq<Option<T>> {
        self.payload@
    }
}

impl<T> SampleMutUninit<T> {
    /// The offset of the loaned chunk within its segment.
    pub closed spec fn chunk_offset(self) -> int {
        self.offset as int
    }

    /// The header of the sample.
    pub closed spec fn header_spec(self) -> Header {
        self.header
    }

    /// Every payload position was written.
    pub open spec fn is_initialized(self) -> bool {
        forall|i: int| 0 <= i < self@.len() ==> self@[i] is Some
    }

    pub(crate) fn new(offset: usize, header: Header, len: usize) -> (s: Self)
        ensures
            s.chunk_offset() == offset as int,
            s.header_spec() == header,
            s@.len() == len as int,
            forall|i: int| 0 <= i < len as int ==> s@[i] is None,
    {
        let mut payload: Vec<Option<T>> = Vec::new();
        let mut i: usize = 0;
        while i < len
            invariant
                i <= len,
                payload@.len() == i as int,
                forall|j: int| 0 <= j < i as int ==> payload@[j] is None,
            decreases len - i,
        {
            payload.push(None);
            i += 1;
        }
        SampleMutUninit { offset, header, payload }
    }

    /// The offset of the loaned chunk within its segment.
    pub fn offset_to_chunk(&self) -> (r: usize)
        ensures
            r as int == self.chunk_offset(),
    {
        self.offset
    }

    /// Returns a reference to the header of the sample.
    pub fn header(&self) -> (h: &Header)
        ensures
            *h == self.header_spec(),
    {
        &self.header
    }

    /// The number of payload elements the loan reserved.
    pub fn len(&self) -> (r: usize)
        ensures
            r as int == self@.len(),
    {
        self.payload.len()
    }

    /// Returns a reference to the payload region of the sample.  Position `i`
    /// holds `None` until it was written.
    pub fn payload(&self) -> (r: &Vec<Option<T>>)
        ensures
            r@ == self@,
    {
        &self.payload
    }

    /// Returns a mutable reference to the payload region of the sample, for
    /// writing it element by element before [`Self::assume_init`].
    pub fn payload_mut(&mut self) -> (r: &mut Vec<Option<T>>)
        ensures
            (*r)@ == old(self)@,
            final(self)@ == (*final(r))@,
            final(self).chunk_offset() == old(self).chunk_offset(),
            final(self).header_spec() == old(self).header_spec(),
    {
        &mut self.payload
    }

    /// Writes `value` into the payload and labels the sample as initialized.
    /// The typed, single-element form of writing: the loan must have reserved
    /// exactly one element.
    pub fn write_payload(self, value: T) -> (s: SampleMut<T>)
        requires
            self@.len() == 1,
        ensures
            s@ =~= seq![value],
            s.chunk_offset() == self.chunk_offset(),
            s.header_spec() == self.header_spec(),
    {
        let mut payload: Vec<T> = Vec::new();
        payload.push(value);
        SampleMut { offset: self.offset, header: self.header, payload }
    }

    /// Writes position `i` of the payload with `initializer(i)`, for every
    /// position in order, and labels the sample as initialized.
    pub fn write_from_fn<F: Fn(usize) -> T>(self, initializer: F) -> (s: SampleMut<T>)
        requires
            forall|i: usize| (i as int) < self@.len() ==> call_requires(initializer, (i,)),
        ensures
            s@.len() == self@.len(),
            forall|i: int|
                0 <= i < self@.len() ==> call_ensures(initializer, ((i as usize),), #[trigger] s@[i]),
            s.chunk_offset() == self.chunk_offset(),
            s.header_spec() == self.header_spec(),
    {
        let n = self.payload.len();
        let mut payload: Vec<T> = Vec::new();
        let mut i: usize = 0;
        while i < n
            invariant
                i <= n,
                n as int == self@.len(),
                payload@.len() == i as int,
                forall|i2: usize| (i2 as int) < self@.len() ==> call_requires(initializer, (i2,)),
                forall|j: int|
                    0 <= j < i as int ==> call_ensures(
                        initializer,
                        ((j as usize),),
                        #[trigger] payload@[j],
                    ),
            decreases n - i,
        {
            let value = initializer(i);
            payload.push(value);
            i += 1;
        }
        SampleMut { offset: self.offset, header: self.header, payload }
    }

    /// Extracts the written values and labels the sample as initialized.
    ///
    /// The caller asserts — and the verifier checks — that every payload
    /// position was written; there is no runtime defence against an
    /// unwritten position.
    pub fn assume_init(self) -> (s: SampleMut<T>)
        requires
            self.is_initialized(),
        ensures
            s@.len() == self@.len(),
            forall|i: int| 0 <= i < self@.len() ==> #[trigger] s@[i] == self@[i]->0,
            s.chunk_offset() == self.chunk_offset(),
            s.header_spec() == self.header_spec(),
    {
        let ghost orig = self@;
        let SampleMutUninit { offset, header, payload: mut rest } = self;
        let mut out: Vec<T> = Vec::new();
        while rest.len() > 0
            invariant
                out@.len() + rest@.len() == orig.len(),
                forall|j: int| 0 <= j < orig.len() ==> orig[j] is Some,
                forall|j: int| 0 <= j < out@.len() ==> #[trigger] out@[j] == orig[j]->0,
                forall|j: int| 0 <= j < rest@.len() ==> #[trigger] rest@[j] == orig[out@.len() + j],
            decreases rest@.len(),
        {
            let element = rest.remove(0);
            match element {
                Some(value) => {
                    out.push(value);
                },
                None => {},
            }
        }
        SampleMut { offset, header, payload: out }
    }
}

/// A sample whose payload is initialized.  It can be sent to the connected
/// subscribers, or released unsent through the publisher that loaned it.
#[derive(Debug)]
pub struct SampleMut<T> {
    offset: usize,
    header: Header,
    payload: Vec<T>,
}

impl<T> View for SampleMut<T> {
    type V = Seq<T>;

    closed spec fn view(&self) -> Seq<T> {
        self.payload@
    }
}

impl<T> SampleMut<T> {
    /// The offset of the loaned chunk within its segment.
    pub closed spec fn chunk_offset(self) -> int {
        self.offset as int
    }

    /// The header of the sample.
    pub closed spec fn header_spec(self) -> Header {
        self.header
    }

    /// The offset of the loaned chunk within its segment.
    pub fn offset_to_chunk(&self) -> (r: usize)
        ensures
            r as int == self.chunk_offset(),
    {
        self.offset
    }

    /// Returns a reference to the header of the sample.
    pub fn header(&self) -> (h: &Header)
        ensures
            *h == self.header_spec(),
    {
        &self.header
    }

    /// The number of payload elements of the sample.
    pub fn len(&self) -> (r: usize)
        ensures
            r as int == self@.len(),
    {
        self.payload.len()
    }

    /// Returns a reference to the payload of the sample.
    pub fn payload(&self) -> (r: &Vec<T>)
        ensures
            r@ == self@,
    {
        &self.payload
    }

    /// Returns a mutable reference to the payload of the sample.
    pub fn payload_mut(&mut self) -> (r: &mut Vec<T>)
        ensures
            (*r)@ == old(self)@,
            final(self)@ == (*final(r))@,
            final(self).chunk_offset() == old(self).chunk_offset(),
            final(self).header_spec() == old(self).header_spec(),
    {
        &mut self.payload
    }

    /// Sends the sample to all subscribers connected to the publisher that
    /// loaned it: the chunk goes in flight, its offset is appended to every
    /// delivery queue, and the number of subscribers it was delivered to is
    /// returned.  Zero connected subscribers yields a delivered count of
    /// zero, not an error; the modelled transport has no failing path, so
    /// the result is always the delivered count.  Consumes the sample: no
    /// further operation on the chunk is possible through it.
    pub fn send(self, publisher: &mut Publisher<T>) -> (r: Result<usize, SendError>)
        requires
            old(publisher).wf(),
            self.chunk_offset() < old(publisher).pool().capacity(),
            old(publisher).pool().states()[self.chunk_offset()] is Loaned,
            self@.len() <= old(publisher).pool().max_len(),
        ensures
            final(publisher).wf(),
            final(publisher).id_spec() == old(publisher).id_spec(),
            r == Ok::<usize, SendError>((old(publisher).pool().subscribers() as usize)),
            send_step(
                old(publisher).pool().states(),
                final(publisher).pool().states(),
                self.chunk_offset(),
            ),
            final(publisher).pool().payload_at(self.chunk_offset()) == self@,
            forall|i: int|
                0 <= i < old(publisher).pool().capacity() && i != self.chunk_offset()
                    ==> final(publisher).pool().payload_at(i) == old(publisher).pool().payload_at(
                    i,
                ),
            final(publisher).pool().subscribers() == old(publisher).pool().subscribers(),
            forall|q: int|
                0 <= q < old(publisher).pool().subscribers() ==> final(publisher).pool().queue(q)
                    == old(publisher).pool().queue(q).push((self.chunk_offset() as usize)),
            final(publisher).pool().max_len() == old(publisher).pool().max_len(),
    {
        let SampleMut { offset, header: _, payload } = self;
        publisher.send_chunk(offset, payload)
    }
}

} // verus!
