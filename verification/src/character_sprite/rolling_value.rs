//! A value that remembers the one it replaced.
use vstd::prelude::*;

verus! {

/// A current value together with the value it replaced.
#[derive(Debug, Default, Clone, Copy, PartialEq, Eq, Hash)]
pub struct RollingValue<T> {
    /// The current value
    pub current: T,
    /// The previous value
    pub prev: T,
}

impl<T> RollingValue<T> {
    /// The pair after pushing `new`, and the value the push drops.
    pub open spec fn spec_push(self, new: T) -> (Self, T) {
        (RollingValue { current: new, prev: self.current }, self.prev)
    }

    pub fn new(prev: T, current: T) -> (r: Self)
        ensures
            r.prev == prev,
            r.current == current,
    {
        Self { current, prev }
    }

    /// A rolling value whose current and previous values are both `both`.
    pub fn new_with(both: T) -> (r: Self)
        where
            T: Copy,
        ensures
            r.prev == both,
            r.current == both,
    {
        Self { current: both, prev: both }
    }

    /// Makes `new` the current value and the old current value the previous one; returns
    /// the value that was previous before the call, which is dropped from the pair.
    pub fn push(&mut self, new: T) -> (dropped: T)
        ensures
            (*final(self), dropped) == old(self).spec_push(new),
    {
        let mut new = new;
        std::mem::swap(&mut self.current, &mut self.prev);
        std::mem::swap(&mut self.current, &mut new);
        new
    }
}

/// Two pushes determine the whole pair: after pushing `a` and then `b`, the previous value
/// is `a` and the current value is `b`, whatever the pair held before, and the second push
/// drops the value that was current before the first.
pub proof fn lemma_push_twice<T>(v: RollingValue<T>, a: T, b: T)
    ensures
        v.spec_push(a).0.spec_push(b).0 == (RollingValue::<T> { current: b, prev: a }),
        v.spec_push(a).0.spec_push(b).1 == v.current,
{
}

} // verus!
