//! Cutting of a passing sample stream into windows of a fixed length.
//!
//! The tap looks at no sample: it hands each one back as it came and keeps a
//! copy until a window is full.

use vstd::prelude::*;

verus! {

/// Number of samples in a window.
pub const BUFFER_SIZE: usize = 2048;

/// Samples kept back so far, and the window that became full, after `sample`
/// has joined the samples `pending`.
pub open spec fn tap_step<T>(pending: Seq<T>, sample: T) -> (Seq<T>, Option<Seq<T>>) {
    let grown = pending.push(sample);
    if grown.len() >= BUFFER_SIZE {
        (Seq::empty(), Some(grown))
    } else {
        (grown, None)
    }
}

/// Samples that a fresh tap keeps back after `samples` have passed.
pub open spec fn pending_after<T>(samples: Seq<T>) -> Seq<T>
    decreases samples.len(),
{
    if samples.len() == 0 {
        Seq::empty()
    } else {
        tap_step(pending_after(samples.drop_last()), samples.last()).0
    }
}

/// Window that a fresh tap hands off as the last of `samples` passes, if any.
pub open spec fn window_after<T>(samples: Seq<T>) -> Option<Seq<T>> {
    if samples.len() == 0 {
        None
    } else {
        tap_step(pending_after(samples.drop_last()), samples.last()).1
    }
}

/// Nothing is lost or reordered: a fresh tap keeps back the samples that
/// came after the last full window, fewer than a window of them, and hands
/// off a window exactly when the count of samples reaches a multiple of the
/// window length, holding the latest `BUFFER_SIZE` samples in their order.
pub proof fn lemma_tap_windows<T>(samples: Seq<T>)
    ensures
        pending_after(samples) == samples.subrange(
            samples.len() - samples.len() % (BUFFER_SIZE as nat),
            samples.len() as int,
        ),
        pending_after(samples).len() < BUFFER_SIZE,
        samples.len() > 0 && samples.len() % (BUFFER_SIZE as nat) == 0 ==> window_after(samples)
            == Some(samples.subrange(samples.len() - BUFFER_SIZE, samples.len() as int)),
        samples.len() == 0 || samples.len() % (BUFFER_SIZE as nat) != 0 ==> window_after(samples)
            is None,
    decreases samples.len(),
{
    let n = samples.len() as int;
    let size = BUFFER_SIZE as int;
    if n > 0 {
        let front = samples.drop_last();
        lemma_tap_windows(front);
        let kept = pending_after(front);
        let grown = kept.push(samples.last());
        assert(kept.len() == (n - 1) % size);
        if (n - 1) % size == size - 1 {
            assert(n % size == 0);
            assert(grown =~= samples.subrange(n - size, n));
            assert(pending_after(samples) =~= samples.subrange(n, n));
        } else {
            assert(n % size == (n - 1) % size + 1);
            assert(grown =~= samples.subrange(n - n % size, n));
        }
    } else {
        assert(pending_after(samples) =~= samples.subrange(0, 0));
    }
}

/// Accumulator of the samples that pass, one window at a time.
pub struct Tap<T> {
    buf: Vec<T>,
}

impl<T: Copy> Tap<T> {
    /// Samples kept back since the last window was handed off.
    pub closed spec fn pending(&self) -> Seq<T> {
        self.buf@
    }

    /// A partial window is never full.
    pub open spec fn wf(&self) -> bool {
        self.pending().len() < BUFFER_SIZE
    }

    /// A tap that has seen no sample.
    pub fn new() -> (tap: Self)
        ensures
            tap.wf(),
            tap.pending() == Seq::<T>::empty(),
    {
        Tap { buf: Vec::with_capacity(BUFFER_SIZE) }
    }

    /// Number of samples kept back.
    pub fn buffered(&self) -> (count: usize)
        ensures
            count == self.pending().len(),
    {
        self.buf.len()
    }

    /// Takes what the wrapped stream gave, `pulled`, and hands it back
    /// unchanged, together with the window that it completed, if any. An
    /// exhausted stream changes nothing.
    pub fn next(&mut self, pulled: Option<T>) -> (step: (Option<T>, Option<Vec<T>>))
        requires
            old(self).wf(),
        ensures
            final(self).wf(),
            step.0 == pulled,
            pulled is None ==> final(self).pending() == old(self).pending() && step.1 is None,
            pulled is Some ==> final(self).pending() == tap_step(
                old(self).pending(),
                pulled->Some_0,
            ).0,
            pulled is Some ==> (step.1 is Some) == (old(self).pending().len() + 1
                == BUFFER_SIZE),
            pulled is Some && step.1 is Some ==> step.1->Some_0@ == old(self).pending().push(
                pulled->Some_0,
            ) && step.1->Some_0@.len() == BUFFER_SIZE,
    {
        match pulled {
            Some(sample) => {
                self.buf.push(sample);
                if self.buf.len() >= BUFFER_SIZE {
                    let mut full: Vec<T> = Vec::with_capacity(BUFFER_SIZE);
                    std::mem::swap(&mut self.buf, &mut full);
                    (Some(sample), Some(full))
                } else {
                    (Some(sample), None)
                }
            },
            None => (None, None),
        }
    }
}

} // verus!
