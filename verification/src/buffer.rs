//! The two cells that the audio callbacks share with the controller: the
//! samples of the note being captured, and the first error of the stream.

use vstd::prelude::*;

verus! {

/// How many samples of a batch of `incoming` still fit where `held` are
/// kept and at most `limit` may be.
pub open spec fn room(held: nat, limit: nat, incoming: nat) -> nat {
    if held + incoming <= limit {
        incoming
    } else if held <= limit {
        (limit - held) as nat
    } else {
        0
    }
}

/// The samples of one note, never more than a limit fixed when the buffer
/// is made.
#[derive(Debug)]
pub struct CaptureBuffer<T> {
    samples: Vec<T>,
    limit: usize,
}

impl<T> View for CaptureBuffer<T> {
    type V = Seq<T>;

    /// The samples kept, oldest first.
    closed spec fn view(&self) -> Seq<T> {
        self.samples@
    }
}

impl<T> CaptureBuffer<T> {
    /// The most samples the buffer keeps.
    pub closed spec fn limit(&self) -> nat {
        self.limit as nat
    }

    /// The buffer keeps no more samples than its limit.
    pub open spec fn wf(&self) -> bool {
        self@.len() <= self.limit()
    }

    /// An empty buffer that keeps at most `limit` samples.
    pub fn new(limit: usize) -> (buffer: Self)
        ensures
            buffer.wf(),
            buffer@ == Seq::<T>::empty(),
            buffer.limit() == limit,
    {
        CaptureBuffer { samples: Vec::new(), limit }
    }

    /// The number of samples kept.
    pub fn len(&self) -> (len: usize)
        ensures
            len == self@.len(),
    {
        self.samples.len()
    }

    /// The most samples the buffer keeps.
    pub fn capacity_limit(&self) -> (limit: usize)
        ensures
            limit == self.limit(),
    {
        self.limit
    }

    /// Drops the samples kept and makes room for as many as the limit
    /// allows. Where the memory cannot be had in advance the buffer is
    /// empty all the same and grows as samples arrive.
    pub fn clear_and_reserve(&mut self)
        ensures
            final(self)@ == Seq::<T>::empty(),
            final(self).limit() == old(self).limit(),
            final(self).wf(),
    {
        self.samples.clear();
        let _ = self.samples.try_reserve(self.limit);
    }

    /// Hands out the samples kept and leaves the buffer empty.
    pub fn swap_out(&mut self) -> (samples: Vec<T>)
        ensures
            samples@ == old(self)@,
            final(self)@ == Seq::<T>::empty(),
            final(self).limit() == old(self).limit(),
            final(self).wf(),
    {
        let mut samples: Vec<T> = Vec::new();
        std::mem::swap(&mut self.samples, &mut samples);
        samples
    }
}

impl<T: Copy> CaptureBuffer<T> {
    /// Appends the samples of `batch` in order until the limit is reached;
    /// what is left of the batch is dropped without complaint.
    pub fn append_bounded(&mut self, batch: &[T])
        requires
            old(self).wf(),
        ensures
            final(self).wf(),
            final(self).limit() == old(self).limit(),
            final(self)@ == old(self)@ + batch@.take(
                room(old(self)@.len(), old(self).limit(), batch@.len()) as int,
            ),
    {
        let mut taken: usize = 0;
        while taken < batch.len() && self.samples.len() < self.limit
            invariant
                taken <= batch@.len(),
                self.limit == old(self).limit,
                self.samples@.len() <= self.limit,
                self.samples@.len() == old(self).samples@.len() + taken,
                self.samples@ == old(self).samples@ + batch@.take(taken as int),
            decreases batch@.len() - taken,
        {
            self.samples.push(batch[taken]);
            taken += 1;
            assert(batch@.take(taken as int) == batch@.take(taken - 1).push(batch@[taken - 1]));
        }
    }
}

/// The first error that the stream reported during a run. Once set the
/// slot keeps its error: later ones are dropped.
#[derive(Debug)]
pub struct ErrorSlot<E> {
    first: Option<E>,
}

impl<E> View for ErrorSlot<E> {
    type V = Option<E>;

    /// The error held, if any.
    closed spec fn view(&self) -> Option<E> {
        self.first
    }
}

impl<E> ErrorSlot<E> {
    /// An empty slot.
    pub fn new() -> (slot: Self)
        ensures
            slot@ is None,
    {
        ErrorSlot { first: None }
    }

    /// Keeps `error` if the slot is empty, and drops it otherwise.
    pub fn record(&mut self, error: E)
        ensures
            final(self)@ == (if old(self)@ is None {
                Some(error)
            } else {
                old(self)@
            }),
    {
        if self.first.is_none() {
            self.first = Some(error);
        }
    }

    /// Whether an error was recorded.
    pub fn is_set(&self) -> (set: bool)
        ensures
            set == (self@ is Some),
    {
        self.first.is_some()
    }

    /// Hands out the error held and leaves the slot empty.
    pub fn take(&mut self) -> (error: Option<E>)
        ensures
            error == old(self)@,
            final(self)@ is None,
    {
        self.first.take()
    }
}

} // verus!
