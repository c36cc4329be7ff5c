use vstd::prelude::*;

verus! {

/// One subscriber: it gets a pulse every `max` base ticks.
pub struct Count {
    pub current: usize,
    pub max: usize,
}

/// The master oscillator's bookkeeping: which subscriber is due for a pulse on each base tick.
/// Waiting for the base period is left to the caller.
pub struct Clock {
    pub counts: Vec<Count>,
    /// Length of one base tick in nanoseconds.
    pub base_delay: u128,
}

/// A clock without subscribers.
pub fn init(base_delay: u128) -> (r: Clock)
    ensures
        r.counts@.len() == 0,
        r.base_delay == base_delay,
        r.wf(),
{
    Clock { counts: Vec::new(), base_delay }
}

impl Clock {
    /// Every subscriber counts down from a period of at least one.
    pub open spec fn wf(&self) -> bool {
        forall|i: int|
            0 <= i < self.counts@.len() ==> 1 <= (#[trigger] self.counts@[i]).current
                <= self.counts@[i].max
    }

    /// Adds a subscriber with a pulse every `cycles` base ticks; returns its index.
    pub fn add(&mut self, cycles: usize) -> (r: usize)
        requires
            old(self).wf(),
            cycles >= 1,
        ensures
            final(self).wf(),
            r == old(self).counts@.len(),
            final(self).counts@.len() == old(self).counts@.len() + 1,
            final(self).counts@[r as int].current == cycles,
            final(self).counts@[r as int].max == cycles,
            forall|i: int|
                0 <= i < old(self).counts@.len() ==> #[trigger] final(self).counts@[i] == old(
                    self,
                ).counts@[i],
            final(self).base_delay == old(self).base_delay,
    {
        let r = self.counts.len();
        self.counts.push(Count { current: cycles, max: cycles });
        assert(forall|i: int| 0 <= i < old(self).counts@.len() ==> self.counts@[i] == old(self).counts@[i]);
        r
    }

    /// One base tick: each subscriber counts down, and one that reaches zero pulses and reloads.
    /// Returns, per subscriber, whether it pulsed.
    pub fn tick(&mut self) -> (r: Vec<bool>)
        requires
            old(self).wf(),
        ensures
            final(self).wf(),
            r@.len() == old(self).counts@.len(),
            final(self).counts@.len() == old(self).counts@.len(),
            forall|i: int|
                0 <= i < r@.len() ==> {
                    let c = #[trigger] old(self).counts@[i];
                    &&& r@[i] == (c.current == 1)
                    &&& final(self).counts@[i].max == c.max
                    &&& final(self).counts@[i].current == if c.current == 1 {
                        c.max
                    } else {
                        (c.current - 1) as usize
                    }
                },
            final(self).base_delay == old(self).base_delay,
    {
        let mut pulses: Vec<bool> = Vec::new();
        let mut i: usize = 0;
        let n = self.counts.len();
        while i < n
            invariant
                n == old(self).counts@.len(),
                self.counts@.len() == n,
                i <= n,
                pulses@.len() == i,
                self.base_delay == old(self).base_delay,
                forall|j: int| i <= j < n ==> #[trigger] self.counts@[j] == old(self).counts@[j],
                forall|j: int| 0 <= j < n ==> 1 <= (#[trigger] old(self).counts@[j]).current <= old(self).counts@[j].max,
                forall|j: int|
                    0 <= j < i ==> {
                        let c = #[trigger] old(self).counts@[j];
                        &&& pulses@[j] == (c.current == 1)
                        &&& self.counts@[j].max == c.max
                        &&& self.counts@[j].current == if c.current == 1 {
                            c.max
                        } else {
                            (c.current - 1) as usize
                        }
                    },
            decreases n - i,
        {
            let cur = self.counts[i].current;
            let max = self.counts[i].max;
            let fire = cur == 1;
            let next = if fire {
                max
            } else {
                cur - 1
            };
            self.counts.set(i, Count { current: next, max });
            pulses.push(fire);
            i = i + 1;
        }
        assert forall|j: int| 0 <= j < n implies 1 <= (#[trigger] self.counts@[j]).current
            <= self.counts@[j].max by {
            let c = old(self).counts@[j];
        }
        pulses
    }
}

} // verus!
