//! A bounded in-memory window over the most recent values of a metric.
//!
//! The dashboard keeps a short history of health values; the window holds
//! the last `capacity` pushed values and discards the oldest as new ones
//! arrive.

use std::collections::VecDeque;

use vstd::pervasive::cloned;
use vstd::prelude::*;

verus! {

/// The most recent values of a metric, oldest first, at most `capacity` of
/// them (once at least one value has been dropped).
pub struct RollingWindow<T> {
    capacity: usize,
    values: VecDeque<T>,
}

impl<T: Clone> RollingWindow<T> {
    /// The values currently held, oldest first.
    pub closed spec fn contents(self) -> Seq<T> {
        self.values@
    }

    /// The configured bound on the window's length.
    pub closed spec fn spec_capacity(self) -> usize {
        self.capacity
    }

    /// An empty window bounded at `capacity` values.
    pub fn new(capacity: usize) -> (r: Self)
        ensures
            r.contents() == Seq::<T>::empty(),
            r.spec_capacity() == capacity,
    {
        RollingWindow { capacity, values: VecDeque::with_capacity(capacity) }
    }

    /// Appends a value; when the window already holds `capacity` values,
    /// the oldest one is discarded first.
    pub fn push(&mut self, value: T)
        ensures
            final(self).spec_capacity() == old(self).spec_capacity(),
            final(self).contents() == if old(self).contents().len()
                == old(self).spec_capacity() && old(self).contents().len() > 0 {
                old(self).contents().subrange(1, old(self).contents().len() as int).push(value)
            } else {
                old(self).contents().push(value)
            },
    {
        if self.values.len() == self.capacity {
            self.values.pop_front();
        }
        self.values.push_back(value);
    }

    /// A copy of the values currently held, oldest first.
    pub fn values(&self) -> (r: Vec<T>)
        ensures
            r@.len() == self.contents().len(),
            forall|i: int|
                0 <= i < r@.len() ==> cloned::<T>(self.contents()[i], #[trigger] r@[i]),
    {
        let mut r: Vec<T> = Vec::new();
        let n = self.values.len();
        let mut i: usize = 0;
        while i < n
            invariant
                i <= n,
                n == self.values@.len(),
                r@.len() == i,
                forall|j: int|
                    0 <= j < i ==> cloned::<T>(self.values@[j], #[trigger] r@[j]),
            decreases n - i,
        {
            r.push(self.values[i].clone());
            i = i + 1;
        }
        r
    }
}

} // verus!
