//! The capture buffer: samples wait here between the input callback that
//! delivers them and the visualization pass that takes them away.

use vstd::prelude::*;

verus! {

/// Captured samples in the order of their arrival.
///
/// The view is that sequence. It is a work queue and no history: a pass
/// takes everything and leaves the buffer empty.
pub struct CaptureBuffer<T> {
    samples: Vec<T>,
}

impl<T> View for CaptureBuffer<T> {
    type V = Seq<T>;

    closed spec fn view(&self) -> Seq<T> {
        self.samples@
    }
}

impl<T: Copy> CaptureBuffer<T> {
    /// An empty buffer.
    pub fn new() -> (buffer: CaptureBuffer<T>)
        ensures
            buffer@ == Seq::<T>::empty(),
    {
        CaptureBuffer { samples: Vec::new() }
    }

    /// How many samples wait.
    pub fn len(&self) -> (count: usize)
        ensures
            count == self@.len(),
    {
        self.samples.len()
    }

    /// Whether no sample waits.
    pub fn is_empty(&self) -> (empty: bool)
        ensures
            empty == (self@.len() == 0),
    {
        self.samples.len() == 0
    }

    /// Adds a chunk of samples behind those that wait already.
    pub fn append(&mut self, chunk: &[T])
        ensures
            final(self)@ == old(self)@ + chunk@,
    {
        let mut taken: usize = 0;
        assert(self@ =~= old(self)@ + chunk@.subrange(0, 0));
        while taken < chunk.len()
            invariant
                taken <= chunk.len(),
                self@ == old(self)@ + chunk@.subrange(0, taken as int),
            decreases chunk.len() - taken,
        {
            self.samples.push(chunk[taken]);
            taken += 1;
            assert(self@ =~= old(self)@ + chunk@.subrange(0, taken as int));
        }
        assert(chunk@.subrange(0, taken as int) =~= chunk@);
    }

    /// Takes every waiting sample, in order, and leaves the buffer empty.
    pub fn drain(&mut self) -> (taken: Vec<T>)
        ensures
            taken@ == old(self)@,
            final(self)@ == Seq::<T>::empty(),
    {
        let mut taken: Vec<T> = Vec::new();
        taken.append(&mut self.samples);
        assert(taken@ =~= old(self)@);
        taken
    }
}

} // verus!
