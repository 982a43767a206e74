//! The cancellation signal: a single-slot, broadcast-readable state cell
//! used to tell a sibling task to stop.
//!
//! Writes are total overwrites (no merging): the last writer wins. A
//! reader may observe the value changing again after it looked; nothing
//! here merges or orders concurrent writers.

use vstd::prelude::*;

verus! {

/// A single-slot state cell holding exactly one current value.
pub struct Signal<T> {
    value: T,
}

impl<T> Signal<T> {
    /// The value the cell holds right now.
    pub closed spec fn current_spec(&self) -> T {
        self.value
    }

    /// A fresh signal starts out holding `initial`.
    pub fn new(initial: T) -> (s: Self)
        ensures
            s.current_spec() == initial,
    {
        Signal { value: initial }
    }

    /// Overwrite the current value. Last write wins: whatever was stored
    /// before is discarded, never merged.
    pub fn signal(&mut self, value: T)
        ensures
            final(self).current_spec() == value,
    {
        self.value = value;
    }

    /// Borrow the current value.
    pub fn current(&self) -> (r: &T)
        ensures
            *r == self.current_spec(),
    {
        &self.value
    }
}

} // verus!
