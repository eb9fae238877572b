//! The sponge state: a fixed-width vector of field elements, split into a
//! capacity prefix and a rate suffix. Index `i` addresses the capacity region
//! when `i < capacity`, and the rate region at offset `i - capacity`
//! otherwise. The view is the whole state as one sequence of field values.

use vstd::prelude::*;
use crate::field::{Fe, all_in_field, fes};

verus! {

/// A fixed-width sponge state of field elements.
pub struct State {
    /// The hidden region: never read or written by absorb or squeeze.
    pub capacity_state: Vec<Fe>,
    /// The open region: added into by absorb, copied out by squeeze.
    pub rate_state: Vec<Fe>,
}

impl View for State {
    type V = Seq<int>;

    open spec fn view(&self) -> Seq<int> {
        fes(self.capacity_state@ + self.rate_state@)
    }
}

impl State {
    /// The state has the given split and every element is canonical.
    pub open spec fn wf(self, capacity: int, rate: int) -> bool {
        &&& self.capacity_state@.len() == capacity
        &&& self.rate_state@.len() == rate
        &&& all_in_field(self@)
    }

    /// A zero-initialized state of the given split.
    pub fn new(capacity: usize, rate: usize) -> (s: State)
        requires
            capacity + rate <= usize::MAX,
        ensures
            s.wf(capacity as int, rate as int),
            s@ =~= Seq::new((capacity + rate) as nat, |j: int| 0int),
    {
        let mut capacity_state: Vec<Fe> = Vec::new();
        let mut rate_state: Vec<Fe> = Vec::new();
        let mut i: usize = 0;
        while i < capacity
            invariant
                i <= capacity,
                capacity_state@.len() == i,
                forall|k: int| 0 <= k < i ==> (#[trigger] capacity_state@[k])@ == 0,
            decreases capacity - i,
        {
            capacity_state.push(Fe::zero());
            i = i + 1;
        }
        let mut j: usize = 0;
        while j < rate
            invariant
                j <= rate,
                rate_state@.len() == j,
                forall|k: int| 0 <= k < j ==> (#[trigger] rate_state@[k])@ == 0,
            decreases rate - j,
        {
            rate_state.push(Fe::zero());
            j = j + 1;
        }
        let s = State { capacity_state, rate_state };
        proof {
            assert(s@ =~= Seq::new((capacity + rate) as nat, |j: int| 0int));
        }
        s
    }

    /// The element at a global index.
    pub fn get(&self, index: usize) -> (r: Fe)
        requires
            index < self.capacity_state@.len() + self.rate_state@.len(),
        ensures
            r@ == self@[index as int],
    {
        if index < self.capacity_state.len() {
            self.capacity_state[index]
        } else {
            self.rate_state[index - self.capacity_state.len()]
        }
    }

    /// Replaces the element at a global index.
    pub fn set(&mut self, index: usize, value: Fe)
        requires
            index < old(self).capacity_state@.len() + old(self).rate_state@.len(),
        ensures
            final(self)@ == old(self)@.update(index as int, value@),
            final(self).capacity_state@.len() == old(self).capacity_state@.len(),
            final(self).rate_state@.len() == old(self).rate_state@.len(),
    {
        let c = self.capacity_state.len();
        if index < c {
            self.capacity_state.set(index, value);
        } else {
            self.rate_state.set(index - c, value);
        }
        proof {
            assert(self@ =~= old(self)@.update(index as int, value@));
        }
    }

    /// An element-wise copy of the state.
    pub fn duplicate(&self) -> (r: State)
        ensures
            r@ == self@,
            r.capacity_state@.len() == self.capacity_state@.len(),
            r.rate_state@.len() == self.rate_state@.len(),
    {
        let r = State {
            capacity_state: self.capacity_state.clone(),
            rate_state: self.rate_state.clone(),
        };
        proof {
            assert(r.capacity_state@ =~= self.capacity_state@);
            assert(r.rate_state@ =~= self.rate_state@);
        }
        r
    }

    /// A snapshot of the whole state, capacity region first.
    pub fn iter(&self) -> (r: Vec<Fe>)
        ensures
            fes(r@) == self@,
    {
        let mut r: Vec<Fe> = Vec::new();
        let mut i: usize = 0;
        while i < self.capacity_state.len()
            invariant
                i <= self.capacity_state@.len(),
                r@ =~= self.capacity_state@.subrange(0, i as int),
            decreases self.capacity_state@.len() - i,
        {
            r.push(self.capacity_state[i]);
            i = i + 1;
        }
        let mut j: usize = 0;
        while j < self.rate_state.len()
            invariant
                j <= self.rate_state@.len(),
                r@ =~= self.capacity_state@ + self.rate_state@.subrange(0, j as int),
            decreases self.rate_state@.len() - j,
        {
            r.push(self.rate_state[j]);
            j = j + 1;
        }
        proof {
            assert(r@ =~= self.capacity_state@ + self.rate_state@);
            assert(fes(r@) =~= self@);
        }
        r
    }

    /// The elements with global index in `start .. end`, in order.
    pub fn range(&self, start: usize, end: usize) -> (r: Vec<Fe>)
        requires
            start < end,
            end <= self.capacity_state@.len() + self.rate_state@.len(),
        ensures
            fes(r@) == self@.subrange(start as int, end as int),
    {
        let mut r: Vec<Fe> = Vec::new();
        let mut i: usize = start;
        while i < end
            invariant
                start <= i <= end,
                end <= self.capacity_state@.len() + self.rate_state@.len(),
                r@.len() == i - start,
                forall|k: int| 0 <= k < r@.len() ==> (#[trigger] r@[k])@ == self@[start + k],
            decreases end - i,
        {
            let v = self.get(i);
            r.push(v);
            i = i + 1;
        }
        proof {
            assert(fes(r@) =~= self@.subrange(start as int, end as int));
        }
        r
    }
}

} // verus!
