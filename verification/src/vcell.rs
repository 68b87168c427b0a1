//! Access primitive for words shared with the hardware.
//!
//! Every logical read or write of a hardware-shared word goes through a
//! [`VCell`], so each one corresponds to exactly one memory operation and the
//! value is never cached across accesses. A cell is not safe against
//! concurrent mutation of the same word: each hardware-shared structure has
//! exactly one software owner at a time, which these signatures enforce by
//! requiring exclusive access for writes.

use vstd::prelude::*;

verus! {

/// A single hardware-shared word of type `T`.
pub struct VCell<T> {
    value: T,
}

impl<T: Copy> VCell<T> {
    /// The current contents of the backing word, for use in contracts.
    pub closed spec fn get(&self) -> T {
        self.value
    }

    /// Create a cell holding `value`.
    pub fn new(value: T) -> (r: Self)
        ensures
            r.get() == value,
    {
        VCell { value }
    }

    /// Load the current contents of the backing word.
    pub fn read(&self) -> (r: T)
        ensures
            r == self.get(),
    {
        self.value
    }

    /// Store `value` into the backing word.
    pub fn write(&mut self, value: T)
        ensures
            final(self).get() == value,
    {
        self.value = value;
    }
}

impl VCell<u32> {
    /// Read-modify-write of one named field: the bits under `mask` are
    /// replaced by `value` shifted into place, all other bits are kept.
    ///
    /// The sequence is not atomic with respect to a concurrent owner of the
    /// same word; exclusive access is what `&mut self` demands.
    pub fn modify(&mut self, mask: u32, offset: u32, value: u32)
        requires
            offset < 32,
        ensures
            final(self).get() == (old(self).get() & !mask) | ((value << offset) & mask),
    {
        let current = self.read();
        self.write((current & !mask) | ((value << offset) & mask));
    }
}

} // verus!
