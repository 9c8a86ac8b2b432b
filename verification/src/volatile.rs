//! A cell holding one value, read and replaced whole.
use vstd::prelude::*;

verus! {

/// A plain cell holding a value: a read gives back what the last write
/// stored (or the initial value).
pub struct Volatile<T> {
    value: T,
}

impl<T> Volatile<T> {
    /// The value the cell holds.
    pub closed spec fn get(&self) -> T {
        self.value
    }

    pub fn new(value: T) -> (v: Self)
        ensures
            v.get() == value,
    {
        Volatile { value }
    }

    pub fn read(&self) -> (v: T)
        where
            T: Copy,
        ensures
            v == self.get(),
    {
        self.value
    }

    pub fn write(&mut self, v: T)
        ensures
            final(self).get() == v,
    {
        self.value = v;
    }
}

} // verus!
