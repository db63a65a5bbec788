//! The slot through which the analyzer hands the latest spectrum to whoever
//! draws. It holds one spectrum at most; an empty slot holds none.

use vstd::prelude::*;

verus! {

/// Number of bins in the spectrum of one window.
pub const SPECTRUM_BINS: usize = 1024;

/// Holder of the spectrum that was published last and not yet taken.
pub struct SpectrumSlot {
    levels: Vec<i32>,
}

impl View for SpectrumSlot {
    type V = Seq<i32>;

    closed spec fn view(&self) -> Seq<i32> {
        self.levels@
    }
}

impl SpectrumSlot {
    /// An empty slot.
    pub fn new() -> (slot: Self)
        ensures
            slot@ == Seq::<i32>::empty(),
    {
        SpectrumSlot { levels: Vec::new() }
    }

    /// Whether the slot holds no spectrum.
    pub fn is_empty(&self) -> (empty: bool)
        ensures
            empty == (self@.len() == 0),
    {
        self.levels.len() == 0
    }

    /// Puts `spectrum` in the place of whatever the slot held.
    pub fn publish(&mut self, spectrum: Vec<i32>)
        ensures
            final(self)@ == spectrum@,
    {
        self.levels = spectrum;
    }

    /// Takes the spectrum out of the slot, if it holds one, and leaves the
    /// slot empty.
    pub fn take(&mut self) -> (latest: Option<Vec<i32>>)
        ensures
            final(self)@ == Seq::<i32>::empty(),
            old(self)@.len() == 0 ==> latest is None,
            old(self)@.len() > 0 ==> latest is Some && latest->Some_0@ == old(self)@,
    {
        if self.levels.len() == 0 {
            None
        } else {
            let mut taken: Vec<i32> = Vec::new();
            std::mem::swap(&mut self.levels, &mut taken);
            Some(taken)
        }
    }
}

} // verus!
