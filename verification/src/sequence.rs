//! A generator of successive values: an owned counter, starting at 1, fed
//! through a caller-supplied production function on every draw.

use vstd::prelude::*;

verus! {

/// Produces `produce(1), produce(2), ...` in order. The counter is owned by
/// the sequence; restarting one means creating a new one.
pub struct Sequence<F> {
    counter: usize,
    produce: F,
}

impl<F> Sequence<F> {
    /// The index the production function is fed on the next draw.
    pub closed spec fn counter(&self) -> usize {
        self.counter
    }

    /// The production function.
    pub closed spec fn producer(&self) -> F {
        self.produce
    }

    /// Creates a sequence whose counter starts at 1.
    pub fn new(produce: F) -> (r: Self)
        ensures
            r.counter() == 1,
            r.producer() == produce,
    {
        Sequence { counter: 1, produce }
    }

    /// Returns the next value in the sequence.
    pub fn next<T>(&mut self) -> (r: T) where F: Fn(usize) -> T
        requires
            old(self).counter() < usize::MAX,
            call_requires(old(self).producer(), (old(self).counter(),)),
        ensures
            final(self).counter() == old(self).counter() + 1,
            final(self).producer() == old(self).producer(),
            call_ensures(old(self).producer(), (old(self).counter(),), r),
    {
        let n = self.counter;
        self.counter = self.counter + 1;
        (self.produce)(n)
    }

    /// Returns the next `n` values in the sequence, in draw order.
    pub fn take<T>(&mut self, n: usize) -> (r: Vec<T>) where F: Fn(usize) -> T
        requires
            old(self).counter() + n <= usize::MAX,
            forall|i: usize|
                old(self).counter() <= i < old(self).counter() + n ==> call_requires(
                    old(self).producer(),
                    (i,),
                ),
        ensures
            final(self).counter() == old(self).counter() + n,
            final(self).producer() == old(self).producer(),
            r.len() == n,
            forall|j: int|
                0 <= j < n ==> call_ensures(
                    old(self).producer(),
                    ((old(self).counter() + j) as usize,),
                    #[trigger] r[j],
                ),
    {
        let mut values: Vec<T> = Vec::new();
        let mut k: usize = 0;
        while k < n
            invariant
                k <= n,
                old(self).counter() + n <= usize::MAX,
                self.counter() == old(self).counter() + k,
                self.producer() == old(self).producer(),
                values.len() == k,
                forall|j: int|
                    0 <= j < k ==> call_ensures(
                        old(self).producer(),
                        ((old(self).counter() + j) as usize,),
                        #[trigger] values[j],
                    ),
                forall|i: usize|
                    old(self).counter() <= i < old(self).counter() + n ==> call_requires(
                        old(self).producer(),
                        (i,),
                    ),
            decreases n - k,
        {
            let v = self.next();
            values.push(v);
            k = k + 1;
        }
        values
    }
}

} // verus!
